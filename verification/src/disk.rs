//! Disk utilisation: which query to run, how its output is read, and when
//! a warning is due.

use crate::command::{push_arg, CommandOutcome, Invocation, InvocationModel};
use crate::layout::BackupHelper;
use crate::numerals::{parse_bounded, parse_u32};
use crate::scan::{field, find_field, last_line, last_line_bounds, slice_of};
use crate::text::{chars_of, decimal, push_decimal};
use vstd::prelude::*;
use vstd::string::*;

verus! {

/// The two kinds of utilisation that are watched.
#[derive(Clone, Copy, PartialEq, Eq, Structural, Debug)]
pub enum DiskStats {
    Inodes,
    Space,
}

/// Why a utilisation could not be read.
#[derive(Debug, PartialEq, Eq)]
pub enum DiskStatsError {
    /// The query itself failed; the text is the failure that was reported.
    QueryFailed(String),
    /// The last line of the output has fewer than five fields; the text is
    /// the output.
    MissingField(String),
    /// The fifth field, without its last character, is no number; the text
    /// is the output.
    NotANumber(String),
}

impl DiskStatsError {
    /// The failure in words, with the output that could not be read.
    pub open spec fn text(&self) -> Seq<char> {
        match self {
            DiskStatsError::QueryFailed(reason) => "Error fetching disk stats: "@ + reason@,
            DiskStatsError::MissingField(output) => "Error converting disk stats: "@ + output@,
            DiskStatsError::NotANumber(output) => "Error converting number from: "@ + output@,
        }
    }

    /// Puts the failure into words.
    pub fn describe(&self) -> (text: String)
        ensures
            text@ == self.text(),
    {
        match self {
            DiskStatsError::QueryFailed(reason) => {
                let mut text = "Error fetching disk stats: ".to_owned();
                text.append(reason.as_str());
                text
            },
            DiskStatsError::MissingField(output) => {
                let mut text = "Error converting disk stats: ".to_owned();
                text.append(output.as_str());
                text
            },
            DiskStatsError::NotANumber(output) => {
                let mut text = "Error converting number from: ".to_owned();
                text.append(output.as_str());
                text
            },
        }
    }
}

/// A utilisation that was read, and the warning that it calls for.
#[derive(Debug, PartialEq, Eq)]
pub struct DiskReading {
    /// Utilisation in percent.
    pub percentage: u32,
    /// The warning to send, present exactly when the utilisation has
    /// reached the threshold.
    pub warning: Option<String>,
}

/// The field of a utilisation report that holds the percentage: the fifth
/// field of the last line.
pub open spec fn usage_field(output: Seq<char>) -> Option<Seq<char>> {
    field(last_line(output), 4)
}

/// The number in the percentage field once its unit, the last character,
/// is taken off.
pub open spec fn usage_number(field: Seq<char>) -> Option<int> {
    parse_bounded(field.drop_last(), 10, u32::MAX as int)
}

/// The word that names a kind of utilisation in a warning.
pub open spec fn kind_word(typ: DiskStats) -> Seq<char> {
    match typ {
        DiskStats::Inodes => "inodes"@,
        DiskStats::Space => "space"@,
    }
}

/// The flag that asks the query for a kind of utilisation.
pub open spec fn kind_flag(typ: DiskStats) -> Seq<char> {
    match typ {
        DiskStats::Inodes => "-i"@,
        DiskStats::Space => "-k"@,
    }
}

/// The text of the warning for a utilisation of `percentage`.
pub open spec fn warning_text(typ: DiskStats, percentage: u32) -> Seq<char> {
    kind_word(typ) + " usage is at "@ + decimal(percentage as nat) + "%"@
}

/// The text that a query left on its standard output; a query that wrote
/// nothing left the empty text.
pub open spec fn output_text(outcome: CommandOutcome) -> Seq<char> {
    match outcome {
        CommandOutcome::Output(text) => text@,
        _ => Seq::empty(),
    }
}

/// Reads the percentage out of a utilisation report.
pub fn parse_usage(output: &str) -> (result: Result<u32, DiskStatsError>)
    ensures
        match usage_field(output@) {
            None => result matches Err(DiskStatsError::MissingField(o)) && o@ == output@,
            Some(field) => match usage_number(field) {
                None => result matches Err(DiskStatsError::NotANumber(o)) && o@ == output@,
                Some(n) => result is Ok && result->Ok_0 == n,
            },
        },
{
    let text = chars_of(output);
    let (start, end) = last_line_bounds(&text);
    let line = slice_of(&text, start, end);
    match find_field(&line, 4) {
        None => Err(DiskStatsError::MissingField(output.to_owned())),
        Some((from, to)) => {
            let number = slice_of(&line, from, to - 1);
            assert(number@ =~= line@.subrange(from as int, to as int).drop_last());
            match parse_u32(&number, 10) {
                None => Err(DiskStatsError::NotANumber(output.to_owned())),
                Some(n) => Ok(n),
            }
        },
    }
}

impl BackupHelper {
    /// Whether `reading` is what a utilisation of `percentage` comes to: it
    /// reports the percentage, and it carries the warning exactly when the
    /// percentage has reached the threshold of the instance.
    pub open spec fn reading_for(&self, typ: DiskStats, percentage: u32, reading: DiskReading) -> bool {
        &&& reading.percentage == percentage
        &&& reading.warning is Some <==> percentage >= self.disk_threshold_warn
        &&& reading.warning is Some ==> reading.warning->0@ == warning_text(typ, percentage)
    }

    /// The query for one kind of utilisation of the root directory.
    pub fn disk_stats_command(&self, typ: DiskStats) -> (cmd: Invocation)
        ensures
            cmd.deep_view() == (InvocationModel {
                program: "df"@,
                args: seq![kind_flag(typ), self.root_dir@],
            }),
    {
        let mut args: Vec<String> = Vec::new();
        match typ {
            DiskStats::Inodes => push_arg(&mut args, "-i"),
            DiskStats::Space => push_arg(&mut args, "-k"),
        }
        push_arg(&mut args, self.root_dir.as_str());
        assert(args.deep_view() =~= seq![kind_flag(typ), self.root_dir@]);
        Invocation { program: "df".to_owned(), args }
    }

    /// Interprets the outcome of a utilisation query: the percentage, and
    /// the warning that is due when it has reached the threshold.
    pub fn get_disk_stats(&self, typ: DiskStats, outcome: &CommandOutcome) -> (result: Result<
        DiskReading,
        DiskStatsError,
    >)
        ensures
            outcome is Failed ==> (result matches Err(DiskStatsError::QueryFailed(text)) && text@
                == outcome->Failed_0@),
            !(outcome is Failed) ==> match usage_field(output_text(*outcome)) {
                None => result matches Err(DiskStatsError::MissingField(o)) && o@ == output_text(
                    *outcome,
                ),
                Some(field) => match usage_number(field) {
                    None => result matches Err(DiskStatsError::NotANumber(o)) && o@
                        == output_text(*outcome),
                    Some(n) => result is Ok && self.reading_for(typ, n as u32, result->Ok_0),
                },
            },
    {
        let parsed = match outcome {
            CommandOutcome::Failed(reason) => {
                return Err(DiskStatsError::QueryFailed(reason.clone()));
            },
            CommandOutcome::Silent => parse_usage(""),
            CommandOutcome::Output(text) => parse_usage(text.as_str()),
        };
        proof {
            reveal_strlit("");
        }
        match parsed {
            Err(e) => Err(e),
            Ok(n) => {
                let warning = if n >= self.disk_threshold_warn {
                    let mut text = match typ {
                        DiskStats::Inodes => "inodes".to_owned(),
                        DiskStats::Space => "space".to_owned(),
                    };
                    text.append(" usage is at ");
                    push_decimal(&mut text, n as u64);
                    text.append("%");
                    Some(text)
                } else {
                    None
                };
                Ok(DiskReading { percentage: n, warning })
            },
        }
    }
}

} // verus!

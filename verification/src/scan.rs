//! Locating pieces of captured text: the first occurrence of a pattern,
//! the surrounding white space of a token, the fields of a line and the last
//! line of an output.

use vstd::prelude::*;

verus! {

/// Whether `pattern` stands in `text` at position `at`.
pub open spec fn occurs_at(text: Seq<char>, pattern: Seq<char>, at: int) -> bool {
    0 <= at && at + pattern.len() <= text.len() && forall|k: int|
        0 <= k < pattern.len() ==> text[at + k] == #[trigger] pattern[k]
}

/// A pattern stands at a position exactly when the piece of the text that
/// starts there and has the pattern's length equals the pattern.
pub proof fn lemma_occurs_at_subrange(text: Seq<char>, pattern: Seq<char>, at: int)
    requires
        0 <= at,
        at + pattern.len() <= text.len(),
    ensures
        occurs_at(text, pattern, at) <==> text.subrange(at, at + pattern.len()) == pattern,
{
    let piece = text.subrange(at, at + pattern.len());
    if occurs_at(text, pattern, at) {
        assert(piece =~= pattern);
    }
    if piece == pattern {
        assert forall|k: int| 0 <= k < pattern.len() implies text[at + k]
            == #[trigger] pattern[k] by {
            assert(piece[k] == text[at + k]);
        }
    }
}

/// The position of the first occurrence of `pattern` in `text` at or after
/// `from`.
pub open spec fn find(text: Seq<char>, pattern: Seq<char>, from: int) -> Option<int>
    decreases text.len() - from,
{
    if from < 0 || from + pattern.len() > text.len() {
        None
    } else if occurs_at(text, pattern, from) {
        Some(from)
    } else {
        find(text, pattern, from + 1)
    }
}

/// What `find` returns is an occurrence, and no occurrence starts between
/// `from` and it; when it returns nothing, there is no occurrence at or
/// after `from`.
pub proof fn lemma_find_is_first(text: Seq<char>, pattern: Seq<char>, from: int)
    requires
        0 <= from,
    ensures
        match find(text, pattern, from) {
            Some(at) => from <= at && occurs_at(text, pattern, at) && forall|j: int|
                from <= j < at ==> !occurs_at(text, pattern, j),
            None => forall|j: int| from <= j ==> !occurs_at(text, pattern, j),
        },
    decreases text.len() - from,
{
    if from + pattern.len() > text.len() {
    } else if occurs_at(text, pattern, from) {
    } else {
        lemma_find_is_first(text, pattern, from + 1);
    }
}

/// The characters that count as white space.
pub open spec fn is_whitespace(c: char) -> bool {
    let u = c as int;
    (9 <= u <= 13) || u == 32 || u == 0x85 || u == 0xA0 || u == 0x1680 || (0x2000 <= u
        <= 0x200A) || u == 0x2028 || u == 0x2029 || u == 0x202F || u == 0x205F || u == 0x3000
}

/// The first position at or after `from` that holds no white space, or the
/// length of the text.
pub open spec fn skip_spaces(s: Seq<char>, from: int) -> int
    decreases s.len() - from,
{
    if 0 <= from < s.len() && is_whitespace(s[from]) {
        skip_spaces(s, from + 1)
    } else {
        from
    }
}

/// The first position at or after `from` that holds white space, or the
/// length of the text.
pub open spec fn skip_word(s: Seq<char>, from: int) -> int
    decreases s.len() - from,
{
    if 0 <= from < s.len() && !is_whitespace(s[from]) {
        skip_word(s, from + 1)
    } else {
        from
    }
}

/// The position just behind the last character before `end` that is no
/// white space, but never before `start`.
pub open spec fn trim_back(s: Seq<char>, start: int, end: int) -> int
    decreases end,
{
    if 0 <= start < end <= s.len() && is_whitespace(s[end - 1]) {
        trim_back(s, start, end - 1)
    } else {
        end
    }
}

/// The text without the white space at its two ends.
pub open spec fn trimmed(s: Seq<char>) -> Seq<char> {
    let start = skip_spaces(s, 0);
    s.subrange(start, trim_back(s, start, s.len() as int))
}

/// The bounds of field number `n` (counted from zero) among the fields that
/// start at or after `from`. A field is a maximal run of characters that are
/// no white space.
pub open spec fn field_bounds(s: Seq<char>, from: int, n: nat) -> Option<(int, int)>
    decreases n,
{
    let start = skip_spaces(s, from);
    if start >= s.len() {
        None
    } else if n == 0 {
        Some((start, skip_word(s, start)))
    } else {
        field_bounds(s, skip_word(s, start), (n - 1) as nat)
    }
}

/// Field number `n` of a line, counted from zero.
pub open spec fn field(s: Seq<char>, n: nat) -> Option<Seq<char>> {
    match field_bounds(s, 0, n) {
        Some((start, end)) => Some(s.subrange(start, end)),
        None => None,
    }
}

/// Where the line that ends at `end` begins: just behind the last line
/// feed before `end`, or at the start of the text.
pub open spec fn line_start(s: Seq<char>, end: int) -> int
    decreases end,
{
    if end <= 0 || end > s.len() {
        0
    } else if s[end - 1] == '\n' {
        end
    } else {
        line_start(s, end - 1)
    }
}

/// Where the last line of a text ends: a line feed that closes the text
/// does not belong to the line.
pub open spec fn last_line_end(s: Seq<char>) -> int {
    if s.len() > 0 && s.last() == '\n' {
        s.len() - 1
    } else {
        s.len() as int
    }
}

/// The last line of a text, without the line feed that may close it. The
/// empty text has the empty line.
pub open spec fn last_line(s: Seq<char>) -> Seq<char> {
    let end = last_line_end(s);
    s.subrange(line_start(s, end), end)
}

/// Skipping white space stops within the text, passes over white space
/// only, and stops at the first character that is none.
pub proof fn lemma_skip_spaces_bounds(s: Seq<char>, from: int)
    requires
        0 <= from <= s.len(),
    ensures
        from <= skip_spaces(s, from) <= s.len(),
        forall|j: int| from <= j < skip_spaces(s, from) ==> is_whitespace(#[trigger] s[j]),
        skip_spaces(s, from) < s.len() ==> !is_whitespace(s[skip_spaces(s, from)]),
    decreases s.len() - from,
{
    if from < s.len() && is_whitespace(s[from]) {
        lemma_skip_spaces_bounds(s, from + 1);
    }
}

/// Skipping a word stops within the text, passes over no white space, and
/// stops at the first white space.
pub proof fn lemma_skip_word_bounds(s: Seq<char>, from: int)
    requires
        0 <= from <= s.len(),
    ensures
        from <= skip_word(s, from) <= s.len(),
        forall|j: int| from <= j < skip_word(s, from) ==> !is_whitespace(#[trigger] s[j]),
        skip_word(s, from) < s.len() ==> is_whitespace(s[skip_word(s, from)]),
    decreases s.len() - from,
{
    if from < s.len() && !is_whitespace(s[from]) {
        lemma_skip_word_bounds(s, from + 1);
    }
}

/// What trimming takes away is white space, and what it leaves neither
/// begins nor ends with white space.
pub proof fn lemma_trimmed(s: Seq<char>)
    ensures
        0 <= skip_spaces(s, 0) <= trim_back(s, skip_spaces(s, 0), s.len() as int) <= s.len(),
        forall|j: int| 0 <= j < skip_spaces(s, 0) ==> is_whitespace(#[trigger] s[j]),
        forall|j: int|
            trim_back(s, skip_spaces(s, 0), s.len() as int) <= j < s.len() ==> is_whitespace(
                #[trigger] s[j],
            ),
        trimmed(s).len() > 0 ==> !is_whitespace(trimmed(s).first()) && !is_whitespace(
            trimmed(s).last(),
        ),
{
    lemma_skip_spaces_bounds(s, 0);
    let start = skip_spaces(s, 0);
    lemma_trim_back_meaning(s, start, s.len() as int);
}

/// Trimming at the back passes over white space only and stops behind a
/// character that is none, or at the start.
pub proof fn lemma_trim_back_meaning(s: Seq<char>, start: int, end: int)
    requires
        0 <= start <= end <= s.len(),
    ensures
        start <= trim_back(s, start, end) <= end,
        forall|j: int| trim_back(s, start, end) <= j < end ==> is_whitespace(#[trigger] s[j]),
        trim_back(s, start, end) > start ==> !is_whitespace(s[trim_back(s, start, end) - 1]),
    decreases end,
{
    if start < end && is_whitespace(s[end - 1]) {
        lemma_trim_back_meaning(s, start, end - 1);
    }
}

/// A line holds no line feed, and it begins at the start of the text or
/// just behind a line feed.
pub proof fn lemma_line_start_bounds(s: Seq<char>, end: int)
    requires
        0 <= end <= s.len(),
    ensures
        0 <= line_start(s, end) <= end,
        forall|j: int| line_start(s, end) <= j < end ==> #[trigger] s[j] != '\n',
        line_start(s, end) > 0 ==> s[line_start(s, end) - 1] == '\n',
    decreases end,
{
    if end > 0 && s[end - 1] != '\n' {
        lemma_line_start_bounds(s, end - 1);
    }
}

/// A field holds at least one character, none of them white space, and lies
/// within the text.
pub proof fn lemma_field_bounds(s: Seq<char>, from: int, n: nat)
    requires
        0 <= from <= s.len(),
    ensures
        match field_bounds(s, from, n) {
            Some((start, end)) => from <= start < end <= s.len() && forall|j: int|
                start <= j < end ==> !is_whitespace(#[trigger] s[j]),
            None => true,
        },
    decreases n,
{
    lemma_skip_spaces_bounds(s, from);
    let start = skip_spaces(s, from);
    if start < s.len() {
        lemma_skip_word_bounds(s, start);
        if n > 0 {
            lemma_field_bounds(s, skip_word(s, start), (n - 1) as nat);
        }
    }
}

/// Tells whether a character is white space.
pub fn is_space(c: char) -> (b: bool)
    ensures
        b == is_whitespace(c),
{
    let u: u32 = c as u32;
    (9 <= u && u <= 13) || u == 32 || u == 0x85 || u == 0xA0 || u == 0x1680 || (0x2000 <= u
        && u <= 0x200A) || u == 0x2028 || u == 0x2029 || u == 0x202F || u == 0x205F || u
        == 0x3000
}

/// Tells whether `pattern` stands in `text` at position `at`.
pub fn matches_at(text: &Vec<char>, pattern: &Vec<char>, at: usize) -> (b: bool)
    requires
        at + pattern.len() <= text.len(),
    ensures
        b == occurs_at(text@, pattern@, at as int),
{
    let mut k: usize = 0;
    while k < pattern.len()
        invariant
            k <= pattern.len(),
            at + pattern.len() <= text.len(),
            forall|j: int| 0 <= j < k ==> text@[at + j] == #[trigger] pattern@[j],
        decreases pattern.len() - k,
    {
        if text[at + k] != pattern[k] {
            return false;
        }
        k = k + 1;
    }
    true
}

/// Finds the first occurrence of `pattern` in `text` at or after `from`.
pub fn find_from(text: &Vec<char>, pattern: &Vec<char>, from: usize) -> (at: Option<usize>)
    ensures
        at is Some <==> find(text@, pattern@, from as int) is Some,
        at is Some ==> at->0 as int == find(text@, pattern@, from as int)->0,
        at is Some ==> from <= at->0 && at->0 + pattern.len() <= text.len(),
{
    if pattern.len() > text.len() || from > text.len() - pattern.len() {
        return None;
    }
    let last: usize = text.len() - pattern.len();
    let mut i: usize = from;
    loop
        invariant
            from <= i <= last,
            last == text.len() - pattern.len(),
            find(text@, pattern@, from as int) == find(text@, pattern@, i as int),
        decreases last - i,
    {
        if matches_at(text, pattern, i) {
            return Some(i);
        }
        if i == last {
            return None;
        }
        i = i + 1;
    }
}

/// Finds the bounds of the text between `start` and `end` without the
/// white space at its two ends.
pub fn trim_bounds(text: &Vec<char>, start: usize, end: usize) -> (bounds: (usize, usize))
    requires
        start <= end <= text.len(),
    ensures
        start <= bounds.0 <= bounds.1 <= end,
        text@.subrange(bounds.0 as int, bounds.1 as int) == trimmed(
            text@.subrange(start as int, end as int),
        ),
{
    let ghost part = text@.subrange(start as int, end as int);
    let mut a: usize = start;
    while a < end && is_space(text[a])
        invariant
            start <= a <= end <= text.len(),
            part == text@.subrange(start as int, end as int),
            skip_spaces(part, 0) == skip_spaces(part, a - start),
        decreases end - a,
    {
        a = a + 1;
    }
    let mut b: usize = end;
    while a < b && is_space(text[b - 1])
        invariant
            start <= a <= b <= end <= text.len(),
            part == text@.subrange(start as int, end as int),
            trim_back(part, a - start, part.len() as int) == trim_back(part, a - start, b - start),
        decreases b,
    {
        b = b - 1;
    }
    (a, b)
}

/// Finds the bounds of field number `n` (counted from zero) of a line.
pub fn find_field(line: &Vec<char>, n: usize) -> (bounds: Option<(usize, usize)>)
    ensures
        match bounds {
            Some((start, end)) => field_bounds(line@, 0, n as nat) == Some(
                (start as int, end as int),
            ) && start < end <= line.len(),
            None => field_bounds(line@, 0, n as nat) is None,
        },
{
    let len = line.len();
    let mut from: usize = 0;
    let mut left: usize = n;
    loop
        invariant
            from <= len,
            len == line.len(),
            left <= n,
            field_bounds(line@, 0, n as nat) == field_bounds(line@, from as int, left as nat),
        decreases left,
    {
        let mut start: usize = from;
        while start < len && is_space(line[start])
            invariant
                from <= start <= len,
                len == line.len(),
                skip_spaces(line@, from as int) == skip_spaces(line@, start as int),
            decreases len - start,
        {
            start = start + 1;
        }
        if start >= len {
            return None;
        }
        let mut end: usize = start;
        while end < len && !is_space(line[end])
            invariant
                start <= end <= len,
                len == line.len(),
                skip_word(line@, start as int) == skip_word(line@, end as int),
            decreases len - end,
        {
            end = end + 1;
        }
        proof {
            lemma_field_bounds(line@, from as int, left as nat);
        }
        if left == 0 {
            return Some((start, end));
        }
        from = end;
        left = left - 1;
    }
}

/// Finds the bounds of the last line of a text.
pub fn last_line_bounds(text: &Vec<char>) -> (bounds: (usize, usize))
    ensures
        bounds.0 <= bounds.1 <= text.len(),
        bounds.1 as int == last_line_end(text@),
        bounds.0 as int == line_start(text@, bounds.1 as int),
        text@.subrange(bounds.0 as int, bounds.1 as int) == last_line(text@),
{
    let len = text.len();
    let end: usize = if len > 0 && text[len - 1] == '\n' {
        len - 1
    } else {
        len
    };
    let mut start: usize = end;
    while start > 0 && text[start - 1] != '\n'
        invariant
            start <= end <= text.len(),
            line_start(text@, end as int) == line_start(text@, start as int),
        decreases start,
    {
        start = start - 1;
    }
    (start, end)
}

/// Copies the characters between two positions.
pub fn slice_of(text: &Vec<char>, start: usize, end: usize) -> (part: Vec<char>)
    requires
        start <= end <= text.len(),
    ensures
        part@ == text@.subrange(start as int, end as int),
{
    let mut part: Vec<char> = Vec::new();
    let mut i: usize = start;
    while i < end
        invariant
            start <= i <= end <= text.len(),
            part@ == text@.subrange(start as int, i as int),
        decreases end - i,
    {
        part.push(text[i]);
        i = i + 1;
    }
    part
}

} // verus!

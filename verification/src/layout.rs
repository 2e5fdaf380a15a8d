//! The directory layout of one orchestrator instance.
//!
//! Every location is computed from the instance's settings alone. Paths are
//! plain text with `/` between components; creating the directories is the
//! caller's business.

use crate::heights::{bucket_of, height_bucket};
use crate::text::{chars_of, decimal, push_decimal, push_signed_zero_padded, push_zero_padded};
use crate::text::{signed_zero_padded, zero_padded};
use vstd::prelude::*;
use vstd::string::*;

verus! {

/// The settings of one orchestrator instance, which serves one subnet.
pub struct BackupHelper {
    /// Textual identifier of the subnet.
    pub subnet_id: String,
    /// Version token to replay with when the spool does not name one.
    pub initial_replica_version: String,
    /// Root of the hot storage of this instance.
    pub root_dir: String,
    /// Paths left out when the state is archived.
    pub excluded_dirs: Vec<String>,
    /// Location of the private key used for remote copies.
    pub ssh_private_key: String,
    /// Utilisation, in percent, from which a warning is raised.
    pub disk_threshold_warn: u32,
    /// Root of the cold storage.
    pub cold_storage_dir: String,
    /// Number of version directories that stay in the spool.
    pub versions_hot: usize,
    /// Number of replays per day; one archived state per day goes to cold
    /// storage.
    pub daily_replays: usize,
    /// Whether retired artifacts and states are kept in cold storage or
    /// only removed.
    pub do_cold_storage: bool,
}

/// A path extended by one more piece, the way the platform joins paths: a
/// piece that starts at the root replaces the path, and a separator is put
/// in only where the path does not already end in one.
pub open spec fn joined(base: Seq<char>, part: Seq<char>) -> Seq<char> {
    if part.len() > 0 && part[0] == '/' {
        part
    } else if base.len() == 0 || base.last() == '/' {
        base + part
    } else {
        base + seq!['/'] + part
    }
}

/// Location, relative to the spool of a subnet, of the catch-up package
/// that a node running `version` leaves behind at `height`.
pub open spec fn cup_path(version: Seq<char>, height: u64) -> Seq<char> {
    version + seq!['/'] + decimal(bucket_of(height as int) as nat) + seq!['/'] + decimal(
        height as nat,
    ) + "/catch_up_package"@
}

/// Name of a packed version directory in cold storage: ten digits of time
/// stamp, twelve digits of height, and the version, so that names sort by
/// time and then by height.
pub open spec fn packed_name(timestamp: i64, top_height: u64, version: Seq<char>) -> Seq<char> {
    signed_zero_padded(timestamp as int, 10) + seq!['_'] + zero_padded(top_height as nat, 12)
        + seq!['_'] + version + ".tgz"@
}

/// Joins a path and one more piece.
pub fn join(base: &str, part: &str) -> (path: String)
    ensures
        path@ == joined(base@, part@),
{
    let piece = chars_of(part);
    if piece.len() > 0 && piece[0] == '/' {
        return part.to_owned();
    }
    let stem = chars_of(base);
    let mut path = base.to_owned();
    if stem.len() > 0 && stem[stem.len() - 1] != '/' {
        proof {
            reveal_strlit("/");
        }
        path.append("/");
    }
    path.append(part);
    path
}

/// Builds the location of the catch-up package of `version` at `height`,
/// relative to the spool of the subnet.
pub fn cup_file(version: &str, height: u64) -> (path: String)
    ensures
        path@ == cup_path(version@, height),
{
    proof {
        reveal_strlit("/");
    }
    let mut path = version.to_owned();
    path.append("/");
    push_decimal(&mut path, height_bucket(height));
    path.append("/");
    push_decimal(&mut path, height);
    path.append("/catch_up_package");
    path
}

/// Builds the name under which a packed version directory is kept in cold
/// storage.
pub fn packed_file_name(timestamp: i64, top_height: u64, version: &str) -> (name: String)
    ensures
        name@ == packed_name(timestamp, top_height, version@),
{
    proof {
        reveal_strlit("_");
    }
    let mut name = String::new();
    push_signed_zero_padded(&mut name, timestamp, 10);
    name.append("_");
    push_zero_padded(&mut name, top_height, 12);
    name.append("_");
    name.append(version);
    name.append(".tgz");
    name
}

impl BackupHelper {
    /// `root/binaries/<version>`
    pub open spec fn binary_dir_path(&self, version: Seq<char>) -> Seq<char> {
        joined(self.root_dir@, "binaries/"@ + version)
    }

    /// `root/binaries/<version>/<executable>`
    pub open spec fn binary_file_path(&self, executable: Seq<char>, version: Seq<char>) -> Seq<
        char,
    > {
        joined(self.binary_dir_path(version), executable)
    }

    /// `root/logs`
    pub open spec fn logs_dir_path(&self) -> Seq<char> {
        joined(self.root_dir@, "logs"@)
    }

    /// `root/spool`
    pub open spec fn spool_root_dir_path(&self) -> Seq<char> {
        joined(self.root_dir@, "spool"@)
    }

    /// `root/spool/<subnet>`
    pub open spec fn spool_dir_path(&self) -> Seq<char> {
        joined(self.spool_root_dir_path(), self.subnet_id@)
    }

    /// `root/ic_registry_local_store`
    pub open spec fn local_store_dir_path(&self) -> Seq<char> {
        joined(self.root_dir@, "ic_registry_local_store"@)
    }

    /// `root/data/<subnet>`
    pub open spec fn data_dir_path(&self) -> Seq<char> {
        joined(self.root_dir@, "data/"@ + self.subnet_id@)
    }

    /// `root/binaries/<version>/config.json5`
    pub open spec fn config_file_path(&self, version: Seq<char>) -> Seq<char> {
        joined(self.binary_dir_path(version), "config.json5"@)
    }

    /// `root/data/<subnet>/state`
    pub open spec fn state_dir_path(&self) -> Seq<char> {
        joined(self.data_dir_path(), "state"@)
    }

    /// `root/archive/<subnet>`
    pub open spec fn archive_dir_path(&self) -> Seq<char> {
        joined(self.root_dir@, "archive/"@ + self.subnet_id@)
    }

    /// `root/archive/<subnet>/<height>`
    pub open spec fn archive_height_dir_path(&self, height: u64) -> Seq<char> {
        joined(self.archive_dir_path(), decimal(height as nat))
    }

    /// `root/work_dir/<subnet>`
    pub open spec fn work_dir_path(&self) -> Seq<char> {
        joined(self.root_dir@, "work_dir/"@ + self.subnet_id@)
    }

    /// `cold_storage_root/<subnet>/artifacts`
    pub open spec fn cold_storage_artifacts_dir_path(&self) -> Seq<char> {
        joined(self.cold_storage_dir@, self.subnet_id@ + "/artifacts"@)
    }

    /// `cold_storage_root/<subnet>/states`
    pub open spec fn cold_storage_states_dir_path(&self) -> Seq<char> {
        joined(self.cold_storage_dir@, self.subnet_id@ + "/states"@)
    }

    /// `root/trash`
    pub open spec fn trash_dir_path(&self) -> Seq<char> {
        joined(self.root_dir@, "trash"@)
    }

    /// `root/spool/<subnet>/<version>/<bucket>/<height>/catch_up_package`
    pub open spec fn cup_file_path(&self, version: Seq<char>, height: u64) -> Seq<char> {
        joined(self.spool_dir_path(), cup_path(version, height))
    }

    /// `root/logs/<subnet>_<start_height>.log`
    pub open spec fn log_file_path(&self, start_height: u64) -> Seq<char> {
        joined(
            self.logs_dir_path(),
            self.subnet_id@ + seq!['_'] + decimal(start_height as nat) + ".log"@,
        )
    }

    /// Directory that holds the executables and the node configuration of
    /// one replica version.
    pub fn binary_dir(&self, replica_version: &str) -> (path: String)
        ensures
            path@ == self.binary_dir_path(replica_version@),
    {
        let mut part = "binaries/".to_owned();
        part.append(replica_version);
        join(self.root_dir.as_str(), part.as_str())
    }

    /// Location of one executable of a replica version.
    pub fn binary_file(&self, executable: &str, replica_version: &str) -> (path: String)
        ensures
            path@ == self.binary_file_path(executable@, replica_version@),
    {
        join(self.binary_dir(replica_version).as_str(), executable)
    }

    /// Directory that receives the captured output of the replay tool.
    pub fn logs_dir(&self) -> (path: String)
        ensures
            path@ == self.logs_dir_path(),
    {
        join(self.root_dir.as_str(), "logs")
    }

    /// Root of the spools of all subnets.
    pub fn spool_root_dir(&self) -> (path: String)
        ensures
            path@ == self.spool_root_dir_path(),
    {
        join(self.root_dir.as_str(), "spool")
    }

    /// Spool of this subnet: one directory per replica version.
    pub fn spool_dir(&self) -> (path: String)
        ensures
            path@ == self.spool_dir_path(),
    {
        join(self.spool_root_dir().as_str(), self.subnet_id.as_str())
    }

    /// Says which directory is to be created so that the spool of the
    /// subnet exists: the spool directory where it does not exist yet, and
    /// none otherwise.
    pub fn create_spool_dir(&self, exists: bool) -> (missing: Option<String>)
        ensures
            missing is Some <==> !exists,
            missing is Some ==> missing->0@ == self.spool_dir_path(),
    {
        if exists {
            None
        } else {
            Some(self.spool_dir())
        }
    }

    /// Local copy of the registry.
    pub fn local_store_dir(&self) -> (path: String)
        ensures
            path@ == self.local_store_dir_path(),
    {
        join(self.root_dir.as_str(), "ic_registry_local_store")
    }

    /// Directory in which the replay tool keeps the state of this subnet.
    pub fn data_dir(&self) -> (path: String)
        ensures
            path@ == self.data_dir_path(),
    {
        let mut part = "data/".to_owned();
        part.append(self.subnet_id.as_str());
        join(self.root_dir.as_str(), part.as_str())
    }

    /// Location of the node configuration of a replica version.
    pub fn ic_config_file_local(&self, replica_version: &str) -> (path: String)
        ensures
            path@ == self.config_file_path(replica_version@),
    {
        join(self.binary_dir(replica_version).as_str(), "config.json5")
    }

    /// Directory whose `checkpoints` hold the replayed states.
    pub fn state_dir(&self) -> (path: String)
        ensures
            path@ == self.state_dir_path(),
    {
        join(self.data_dir().as_str(), "state")
    }

    /// Archive of this subnet: one directory per archived height.
    pub fn archive_dir(&self) -> (path: String)
        ensures
            path@ == self.archive_dir_path(),
    {
        let mut part = "archive/".to_owned();
        part.append(self.subnet_id.as_str());
        join(self.root_dir.as_str(), part.as_str())
    }

    /// Directory of the state archived at `last_height`.
    pub fn archive_height_dir(&self, last_height: u64) -> (path: String)
        ensures
            path@ == self.archive_height_dir_path(last_height),
    {
        let mut part = String::new();
        push_decimal(&mut part, last_height);
        join(self.archive_dir().as_str(), part.as_str())
    }

    /// Scratch directory into which version directories are moved before
    /// they are packed.
    pub fn work_dir(&self) -> (path: String)
        ensures
            path@ == self.work_dir_path(),
    {
        let mut part = "work_dir/".to_owned();
        part.append(self.subnet_id.as_str());
        join(self.root_dir.as_str(), part.as_str())
    }

    /// Cold-storage directory of the packed artifacts of this subnet.
    pub fn cold_storage_artifacts_dir(&self) -> (path: String)
        ensures
            path@ == self.cold_storage_artifacts_dir_path(),
    {
        let mut part = self.subnet_id.clone();
        part.append("/artifacts");
        join(self.cold_storage_dir.as_str(), part.as_str())
    }

    /// Cold-storage directory of the archived states of this subnet.
    pub fn cold_storage_states_dir(&self) -> (path: String)
        ensures
            path@ == self.cold_storage_states_dir_path(),
    {
        let mut part = self.subnet_id.clone();
        part.append("/states");
        join(self.cold_storage_dir.as_str(), part.as_str())
    }

    /// Directory into which archived states are moved before they are
    /// removed.
    pub fn trash_dir(&self) -> (path: String)
        ensures
            path@ == self.trash_dir_path(),
    {
        join(self.root_dir.as_str(), "trash")
    }

    /// Account name used on the nodes.
    pub fn username(&self) -> (name: String)
        ensures
            name@ == "backup"@,
    {
        "backup".to_owned()
    }

    /// Location of the catch-up package whose presence shows that a node
    /// running `replica_version` has reached `height`.
    pub fn cup_file_location(&self, replica_version: &str, height: u64) -> (path: String)
        ensures
            path@ == self.cup_file_path(replica_version@, height),
    {
        join(self.spool_dir().as_str(), cup_file(replica_version, height).as_str())
    }

    /// Location of the file that keeps the output of the replay that
    /// started at `start_height`.
    pub fn log_file(&self, start_height: u64) -> (path: String)
        ensures
            path@ == self.log_file_path(start_height),
    {
        proof {
            reveal_strlit("_");
        }
        let mut name = self.subnet_id.clone();
        name.append("_");
        push_decimal(&mut name, start_height);
        name.append(".log");
        join(self.logs_dir().as_str(), name.as_str())
    }
}

} // verus!

//! A run: the configuration it applied, the system configuration directory it wrote under,
//! the files it manages and whether it succeeded; and the columns a run is stored as.

use vstd::prelude::*;

use crate::managed_config::ManagedServicesConfig;
use crate::text::views;

verus! {

/// The error type of `serde_json`: what `to_string` and `from_str` return when they fail.
#[verifier::external_type_specification]
#[verifier::external_body]
pub struct ExJsonError(serde_json::Error);

/// The JSON text `serde_json::to_string` writes for a list of strings.
pub uninterp spec fn json_of_strings(items: Seq<Seq<char>>) -> Seq<char>;

/// The list of strings `serde_json::from_str` reads from a text, or `None` where it refuses it.
pub uninterp spec fn strings_of_json(text: Seq<char>) -> Option<Seq<Seq<char>>>;

/// Calls `serde_json::to_string` on a list of strings. The text it writes is named by
/// `json_of_strings`, and `serde_json::from_str` reads the same list back from it (strings are
/// written as escaped JSON strings, which its parser unescapes). It succeeds: serialization
/// fails only where a type's `Serialize` fails or a map has non-string keys, and a list of
/// strings has neither.
#[verifier::external_body]
fn strings_to_json(items: &Vec<String>) -> (r: Result<String, serde_json::Error>)
    ensures
        r is Ok,
        r matches Ok(s) ==> s@ == json_of_strings(views(items@)),
        r matches Ok(s) ==> strings_of_json(s@) == Some(views(items@)),
{
    serde_json::to_string(items)
}

/// Calls `serde_json::from_str` for a list of strings; what it reads, or that it refuses the
/// text, is named by `strings_of_json`.
#[verifier::external_body]
fn strings_from_json(text: &str) -> (r: Result<Vec<String>, serde_json::Error>)
    ensures
        r matches Ok(v) ==> strings_of_json(text@) == Some(views(v@)),
        r is Err ==> strings_of_json(text@) is None,
{
    serde_json::from_str(text)
}

/// Why a run could not be turned into its columns or read back from them.
#[derive(Debug, PartialEq, Eq, Structural, Clone, Copy)]
pub enum RunError {
    /// The list of managed files is not a JSON list of strings.
    Json,
}

/// One run of the `run` command.
#[derive(Debug, PartialEq)]
pub struct Run {
    pub id: u32,
    pub data: ManagedServicesConfig,
    pub sys_config_dir: String,
    pub managed_files: Vec<String>,
    pub success: bool,
}

/// The columns a run is stored as: the configuration and the managed files as JSON text.
#[derive(Debug, PartialEq)]
pub struct RunDB {
    pub id: u32,
    pub data: String,
    pub sys_config_dir: String,
    pub managed_files: String,
    pub success: bool,
}

impl Run {
    /// A run not yet stored and not yet successful, that manages no file yet.
    pub fn new(data: ManagedServicesConfig, sys_config_dir: &str) -> (r: Self)
        ensures
            r.id == 0,
            r.data == data,
            r.sys_config_dir@ == sys_config_dir@,
            r.managed_files@.len() == 0,
            !r.success,
    {
        Run { id: 0, data, sys_config_dir: sys_config_dir.to_string(), managed_files: Vec::new(), success: false }
    }

    /// The columns of this run, given the JSON text of its configuration and what writing its
    /// managed files as JSON gave: the columns when that text was written, else `Json`.
    pub fn db_columns(&self, data_json: String, files_json: Option<String>) -> (r: Result<RunDB, RunError>)
        ensures
            files_json is None ==> r == Err::<RunDB, RunError>(RunError::Json),
            files_json matches Some(f) ==> (r matches Ok(db) && {
                &&& db.id == self.id
                &&& db.data == data_json
                &&& db.sys_config_dir == self.sys_config_dir
                &&& db.managed_files == f
                &&& db.success == self.success
            }),
    {
        match files_json {
            Some(files) => Ok(
                RunDB {
                    id: self.id,
                    data: data_json,
                    sys_config_dir: self.sys_config_dir.clone(),
                    managed_files: files,
                    success: self.success,
                },
            ),
            None => Err(RunError::Json),
        }
    }

    /// The columns of this run, given the JSON text of its configuration. The managed files are
    /// written as a JSON list, which reads back as the same list.
    pub fn to_db(&self, data_json: String) -> (r: Result<RunDB, RunError>)
        ensures
            r is Ok,
            r matches Ok(db) ==> {
                &&& db.id == self.id
                &&& db.data@ == data_json@
                &&& db.sys_config_dir@ == self.sys_config_dir@
                &&& db.managed_files@ == json_of_strings(views(self.managed_files@))
                &&& strings_of_json(db.managed_files@) == Some(views(self.managed_files@))
                &&& db.success == self.success
            },
    {
        let files = match strings_to_json(&self.managed_files) {
            Ok(f) => Some(f),
            Err(_) => None,
        };
        self.db_columns(data_json, files)
    }

    /// The run stored in `db`, given the configuration read from its JSON text. Fails exactly
    /// when the managed files column is not a JSON list of strings.
    pub fn from_db(db: RunDB, data: ManagedServicesConfig) -> (r: Result<Run, RunError>)
        ensures
            r is Ok <==> strings_of_json(db.managed_files@) is Some,
            r matches Ok(run) ==> {
                &&& run.id == db.id
                &&& run.data == data
                &&& run.sys_config_dir@ == db.sys_config_dir@
                &&& Some(views(run.managed_files@)) == strings_of_json(db.managed_files@)
                &&& run.success == db.success
            },
            r matches Err(e) ==> e == RunError::Json,
    {
        match strings_from_json(db.managed_files.as_str()) {
            Ok(files) => Ok(
                Run {
                    id: db.id,
                    data,
                    sys_config_dir: db.sys_config_dir,
                    managed_files: files,
                    success: db.success,
                },
            ),
            Err(_) => Err(RunError::Json),
        }
    }
}

} // verus!

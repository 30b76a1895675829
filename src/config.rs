//! Where the redo log lives.
use vstd::prelude::*;
use vstd::string::StringExecFns;

use crate::error::Error;
use crate::text::{decimal, push_decimal};

verus! {

pub const LOG_FILE_NAME_PREFIX: &'static str = "ib_logfile";

pub const LOG_FILE_NAME: &'static str = "ib_logfile0";

/// The directory that holds a path, where it has one.
pub uninterp spec fn parent_of(path: Seq<char>) -> Option<Seq<char>>;

/// A path followed by a further component, with `/` between them where the
/// path does not end in one; an absolute component replaces the path.
pub open spec fn joined_path(dir: Seq<char>, name: Seq<char>) -> Seq<char> {
    if name.len() > 0 && name[0] == '/' {
        name
    } else if dir.len() == 0 || dir.last() == '/' {
        dir + name
    } else {
        dir + seq!['/'] + name
    }
}

/// Relies on `std::path::Path::parent`: the path without its last component,
/// a function of the text alone.
#[verifier::external_body]
fn path_parent(path: &str) -> (r: Option<String>)
    ensures
        r is Some <==> parent_of(path@) is Some,
        r is Some ==> r->Some_0@ == parent_of(path@)->Some_0,
{
    match std::path::Path::new(path).parent() {
        Some(dir) => Some(dir.to_string_lossy().into_owned()),
        None => None,
    }
}

/// Relies on `std::path::Path::join` (on Unix, where `/` is the one
/// separator): an absolute component replaces the path; else a `/` is added
/// where the path is not empty and does not end in one, then the component.
#[verifier::external_body]
fn path_join(dir: &str, name: &str) -> (r: String)
    ensures
        r@ == joined_path(dir@, name@),
{
    std::path::Path::new(dir).join(name).to_string_lossy().into_owned()
}

/// The log location options: a data directory or the log file itself.
#[derive(Debug, Clone)]
pub struct Config {
    pub srv_log_group_home_dir: Option<String>,
    pub srv_log_file_path: Option<String>,
    pub write: bool,
}

/// The directory of the undo tablespaces: the one given, else the directory
/// of the tablespace file.
pub fn undo_log_dir(dir: &Option<String>, file_path: &str) -> (r: Result<String, Error>)
    ensures
        dir is Some ==> r is Ok && r->Ok_0@ == dir->Some_0@,
        dir is None && parent_of(file_path@) is Some ==> r is Ok && r->Ok_0@ == parent_of(
            file_path@,
        )->Some_0,
        dir is None && parent_of(file_path@) is None ==> r == Err::<String, Error>(
            Error::NotFound,
        ),
{
    match dir {
        Some(d) => Ok(d.clone()),
        None => match path_parent(file_path) {
            Some(parent) => Ok(parent),
            None => Err(Error::NotFound),
        },
    }
}

impl Config {
    /// The directory of the log group.
    pub fn get_log_file_dir(&self) -> (r: Result<String, Error>)
        ensures
            self.srv_log_group_home_dir is Some ==> r is Ok && r->Ok_0@
                == self.srv_log_group_home_dir->Some_0@,
            self.srv_log_group_home_dir is None && self.srv_log_file_path is Some ==> ({
                let parent = parent_of(self.srv_log_file_path->Some_0@);
                &&& parent is Some ==> r is Ok && r->Ok_0@ == parent->Some_0
                &&& parent is None ==> r == Err::<String, Error>(Error::NotFound)
            }),
            self.srv_log_group_home_dir is None && self.srv_log_file_path is None ==> r == Err::<
                String,
                Error,
            >(Error::NotFound),
    {
        match &self.srv_log_group_home_dir {
            Some(path) => {
                return Ok(path.clone());
            },
            None => {},
        }
        match &self.srv_log_file_path {
            Some(path) => match path_parent(path.as_str()) {
                Some(dir) => Ok(dir),
                None => Err(Error::NotFound),
            },
            None => Err(Error::NotFound),
        }
    }

    /// The path of the log file.
    pub fn get_log_file_path(&self) -> (r: Result<String, Error>)
        ensures
            self.srv_log_file_path is Some ==> r is Ok && r->Ok_0@ == self.srv_log_file_path->Some_0@,
            self.srv_log_file_path is None && self.srv_log_group_home_dir is Some ==> r is Ok
                && r->Ok_0@ == joined_path(self.srv_log_group_home_dir->Some_0@, LOG_FILE_NAME@),
            self.srv_log_file_path is None && self.srv_log_group_home_dir is None ==> r == Err::<
                String,
                Error,
            >(Error::NotFound),
    {
        match &self.srv_log_file_path {
            Some(path) => {
                return Ok(path.clone());
            },
            None => {},
        }
        match &self.srv_log_group_home_dir {
            Some(dir) => Ok(path_join(dir.as_str(), LOG_FILE_NAME)),
            None => Err(Error::NotFound),
        }
    }

    /// The name of the log file `i` of a group: `ib_logfile<i>`.
    pub fn get_log_file_x(i: usize) -> (r: String)
        ensures
            r@ == LOG_FILE_NAME_PREFIX@ + decimal(i as nat),
    {
        let mut s = String::from_str(LOG_FILE_NAME_PREFIX);
        push_decimal(&mut s, i as u64);
        s
    }
}

} // verus!

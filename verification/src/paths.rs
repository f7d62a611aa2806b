//! Where things lie on disk: a directory below the user's home directory holds
//! the record of installed versions and, in a directory of its own, one bundle
//! per installed tool.

use std::path::PathBuf;
use vstd::prelude::*;

verus! {

/// Makes `std::path::PathBuf` known as a type whose values are carried through
/// unread: nothing is claimed of what a path holds.
#[verifier::external_type_specification]
#[verifier::external_body]
pub struct ExPathBuf(PathBuf);

/// The name of the directory that holds everything, below the home directory.
pub const TOOLS_DIR_NAME: &'static str = ".story-tools";

/// The name of the directory that holds the bundles.
pub const APPS_DIR_NAME: &'static str = "apps";

/// The name of the file that holds the record of installed versions.
pub const CONFIG_FILE_NAME: &'static str = "config.json";

/// A place on disk: the names to descend by, one after the other, starting from
/// the user's home directory. Where no home directory is known, the descent
/// starts from the empty path.
#[derive(Debug, PartialEq, Eq)]
pub struct ToolPath {
    pub home: Option<PathBuf>,
    pub parts: Vec<String>,
}

/// The texts of a run of names.
pub open spec fn names_of(parts: Seq<String>) -> Seq<Seq<char>> {
    Seq::new(parts.len(), |i: int| parts[i]@)
}

impl ToolPath {
    /// The names to descend by.
    pub open spec fn names(&self) -> Seq<Seq<char>> {
        names_of(self.parts@)
    }

    /// The place reached by descending once more, by `name`.
    pub fn join(self, name: &str) -> (r: ToolPath)
        ensures
            r.home == self.home,
            r.names() == self.names().push(name@),
    {
        let ToolPath { home, parts } = self;
        let mut parts = parts;
        parts.push(name.to_owned());
        ToolPath { home, parts }
    }
}

/// Asks `dirs::home_dir` for the home directory of the current user. What comes
/// back depends on the machine and the environment, so nothing is claimed of it.
#[verifier::external_body]
fn home_dir() -> Option<PathBuf> {
    dirs::home_dir()
}

/// The directory that holds everything, for a user whose home directory is
/// `home`.
pub fn tools_dir_under(home: Option<PathBuf>) -> (p: ToolPath)
    ensures
        p.home == home,
        p.names() == seq![TOOLS_DIR_NAME@],
{
    let mut parts: Vec<String> = Vec::new();
    parts.push(TOOLS_DIR_NAME.to_owned());
    ToolPath { home, parts }
}

/// The directory that holds everything, for the current user.
pub fn get_tools_dir() -> (p: ToolPath)
    ensures
        p.names() == seq![TOOLS_DIR_NAME@],
{
    tools_dir_under(home_dir())
}

/// The directory that holds the bundles.
pub fn get_apps_dir() -> (p: ToolPath)
    ensures
        p.names() == seq![TOOLS_DIR_NAME@, APPS_DIR_NAME@],
{
    get_tools_dir().join(APPS_DIR_NAME)
}

/// The file that holds the record of installed versions.
pub fn get_config_path() -> (p: ToolPath)
    ensures
        p.names() == seq![TOOLS_DIR_NAME@, CONFIG_FILE_NAME@],
{
    get_tools_dir().join(CONFIG_FILE_NAME)
}

/// The bundle named `app_name`.
pub fn get_app_path(app_name: &str) -> (p: ToolPath)
    ensures
        p.names() == seq![TOOLS_DIR_NAME@, APPS_DIR_NAME@, app_name@],
{
    get_apps_dir().join(app_name)
}

} // verus!

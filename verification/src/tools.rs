//! The closed set of tools that can be managed.

use crate::text::same_text;
use vstd::prelude::*;

verus! {

/// The identifier of the Resolve sync tool.
pub const RESOLVE_SYNC_ID: &'static str = "resolve-sync";

/// The repository that publishes the Resolve sync tool.
pub const RESOLVE_SYNC_REPO: &'static str = "joyrider00/spellbook-resolve-sync";

/// The name of the Resolve sync tool's application bundle.
pub const RESOLVE_SYNC_APP_NAME: &'static str = "Spellbook Resolve Sync.app";

/// A supported tool.
#[derive(Clone, Copy, Debug, PartialEq, Eq, Structural)]
pub enum Tool {
    ResolveSync,
}

/// What is fixed about a tool: its identifier, the repository that publishes its
/// releases, and the name of its bundle once installed.
#[derive(Clone, Copy, Debug, PartialEq, Eq)]
pub struct ToolDescriptor {
    pub id: &'static str,
    pub source_repository: &'static str,
    pub installed_app_name: &'static str,
}

impl Tool {
    /// The tool's identifier.
    pub open spec fn id_text(self) -> Seq<char> {
        match self {
            Tool::ResolveSync => RESOLVE_SYNC_ID@,
        }
    }

    /// The repository that publishes the tool.
    pub open spec fn repository_text(self) -> Seq<char> {
        match self {
            Tool::ResolveSync => RESOLVE_SYNC_REPO@,
        }
    }

    /// The name of the tool's bundle.
    pub open spec fn app_name_text(self) -> Seq<char> {
        match self {
            Tool::ResolveSync => RESOLVE_SYNC_APP_NAME@,
        }
    }

    /// The tool that `id` names, if any.
    pub open spec fn with_id(id: Seq<char>) -> Option<Tool> {
        if id == RESOLVE_SYNC_ID@ {
            Some(Tool::ResolveSync)
        } else {
            None
        }
    }

    /// The tool that `id` names, if any.
    pub fn from_id(id: &str) -> (r: Option<Tool>)
        ensures
            r == Tool::with_id(id@),
    {
        if same_text(id, RESOLVE_SYNC_ID) {
            Some(Tool::ResolveSync)
        } else {
            None
        }
    }

    /// The table entry of the tool.
    pub fn descriptor(self) -> (d: ToolDescriptor)
        ensures
            d.id@ == self.id_text(),
            d.source_repository@ == self.repository_text(),
            d.installed_app_name@ == self.app_name_text(),
    {
        match self {
            Tool::ResolveSync => ToolDescriptor {
                id: RESOLVE_SYNC_ID,
                source_repository: RESOLVE_SYNC_REPO,
                installed_app_name: RESOLVE_SYNC_APP_NAME,
            },
        }
    }

    /// Every supported tool, each once.
    pub fn all() -> (tools: Vec<Tool>)
        ensures
            tools@.no_duplicates(),
            forall|t: Tool| tools@.contains(t),
    {
        vec![Tool::ResolveSync]
    }
}

/// A tool is found again under its own identifier.
pub proof fn lemma_tool_id_round_trip(tool: Tool)
    ensures
        Tool::with_id(tool.id_text()) == Some(tool),
{
}

} // verus!

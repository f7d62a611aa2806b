//! What is reported about a tool: whether it is installed, which version, and
//! whether a newer release is out.

use crate::config::ToolsConfig;
use crate::failure::{Failure, FailureView};
use crate::release::{version_of_tag, version_text, GitHubRelease, ReleaseView};
use crate::text::{same_text, text_of};
use crate::tools::Tool;
use vstd::prelude::*;

verus! {

/// The state of one tool as shown to the user.
#[derive(Debug, PartialEq, Eq)]
pub struct ToolStatus {
    pub installed: bool,
    pub installed_version: Option<String>,
    pub latest_version: Option<String>,
    pub has_update: bool,
    pub error: Option<String>,
}

/// The outcome of a command: whether it succeeded, and what to tell the user.
#[derive(Debug, PartialEq, Eq)]
pub struct ActionResult {
    pub success: bool,
    pub message: String,
}

/// A `ToolStatus` with its texts as sequences of characters.
pub struct ToolStatusView {
    pub installed: bool,
    pub installed_version: Option<Seq<char>>,
    pub latest_version: Option<Seq<char>>,
    pub has_update: bool,
    pub error: Option<Seq<char>>,
}

/// An `ActionResult` with its message as a sequence of characters.
pub struct ActionResultView {
    pub success: bool,
    pub message: Seq<char>,
}

impl View for ToolStatus {
    type V = ToolStatusView;

    open spec fn view(&self) -> ToolStatusView {
        ToolStatusView {
            installed: self.installed,
            installed_version: text_of(self.installed_version),
            latest_version: text_of(self.latest_version),
            has_update: self.has_update,
            error: text_of(self.error),
        }
    }
}

impl View for ActionResult {
    type V = ActionResultView;

    open spec fn view(&self) -> ActionResultView {
        ActionResultView { success: self.success, message: self.message@ }
    }
}

impl Clone for ActionResult {
    fn clone(&self) -> (r: Self)
        ensures
            r@ == self@,
    {
        ActionResult { success: self.success, message: self.message.clone() }
    }
}

impl ActionResultView {
    /// The outcome that reports `failure`.
    pub open spec fn failed(failure: FailureView) -> ActionResultView {
        ActionResultView { success: false, message: failure.message() }
    }
}

impl ActionResult {
    /// The outcome that reports `failure`.
    pub fn failed(failure: &Failure) -> (r: ActionResult)
        ensures
            r@ == ActionResultView::failed(failure@),
    {
        ActionResult { success: false, message: failure.message() }
    }
}

/// The tools whose bundle is present on disk.
#[derive(Debug)]
pub struct InstalledBundles {
    pub present: Vec<Tool>,
}

impl View for InstalledBundles {
    type V = Set<Tool>;

    open spec fn view(&self) -> Set<Tool> {
        Set::new(|t: Tool| self.present@.contains(t))
    }
}

impl InstalledBundles {
    /// No bundle is present.
    pub fn new() -> (r: Self)
        ensures
            r@ == Set::<Tool>::empty(),
    {
        InstalledBundles { present: Vec::new() }
    }

    /// Notes that the bundle of `tool` is present.
    pub fn add(&mut self, tool: Tool)
        ensures
            final(self)@ == old(self)@.insert(tool),
    {
        self.present.push(tool);
        proof {
            let before = old(self).present@;
            let after = self.present@;
            assert forall|t: Tool| after.contains(t) <==> (before.contains(t) || t == tool) by {
                if t == tool {
                    assert(after[before.len() as int] == t);
                }
            }
        }
    }

    /// Whether the bundle of `tool` is present.
    pub fn contains(&self, tool: Tool) -> (r: bool)
        ensures
            r == self@.contains(tool),
    {
        let mut i: usize = 0;
        while i < self.present.len()
            invariant
                i <= self.present@.len(),
                forall|j: int| 0 <= j < i ==> self.present@[j] != tool,
            decreases self.present@.len() - i,
        {
            if self.present[i] == tool {
                return true;
            }
            i += 1;
        }
        false
    }
}

/// A tool counts as installed where a version is recorded for it and its bundle
/// is present. Where the record and the disk disagree, the tool is not
/// installed: a bundle that was deleted by hand overrides the line that still
/// stands in the record, and a bundle without a line counts for nothing. An
/// identifier that names no supported tool is never installed.
pub open spec fn installed(record: Map<Seq<char>, Seq<char>>, bundles: Set<Tool>, id: Seq<char>) -> bool {
    record.contains_key(id) && match Tool::with_id(id) {
        Some(tool) => bundles.contains(tool),
        None => false,
    }
}

/// The version recorded for `id`, if any.
pub open spec fn recorded_version(record: Map<Seq<char>, Seq<char>>, id: Seq<char>) -> Option<
    Seq<char>,
> {
    if record.contains_key(id) {
        Some(record[id])
    } else {
        None
    }
}

/// What the registry answered, with its texts as sequences of characters.
pub open spec fn fetched_view(latest: Result<GitHubRelease, Failure>) -> Result<
    ReleaseView,
    FailureView,
> {
    match latest {
        Ok(release) => Ok(release@),
        Err(failure) => Err(failure@),
    }
}

/// The status of the tool that `id` names, given the record, the bundles
/// present and the registry's answer.
///
/// An update is due only for an installed tool whose recorded version differs
/// from the latest version. Where the registry could not be asked, its failure
/// is reported and no update is announced.
pub open spec fn tool_status(
    id: Seq<char>,
    record: Map<Seq<char>, Seq<char>>,
    bundles: Set<Tool>,
    latest: Result<ReleaseView, FailureView>,
) -> ToolStatusView {
    if Tool::with_id(id) is None {
        unknown_tool_status()
    } else {
        let is_installed = installed(record, bundles, id);
        let version = recorded_version(record, id);
        match latest {
            Ok(release) => ToolStatusView {
                installed: is_installed,
                installed_version: version,
                latest_version: Some(version_text(release.tag_name)),
                has_update: is_installed && version is Some && version->0 != version_text(
                    release.tag_name,
                ),
                error: None,
            },
            Err(failure) => ToolStatusView {
                installed: is_installed,
                installed_version: version,
                latest_version: None,
                has_update: false,
                error: Some(failure.message()),
            },
        }
    }
}

/// A tool without a recorded version and without a bundle on disk is reported
/// as not installed, and no update is announced for it, whatever the registry
/// answers.
pub proof fn lemma_absent_tool_has_no_update(
    id: Seq<char>,
    record: Map<Seq<char>, Seq<char>>,
    bundles: Set<Tool>,
    latest: Result<ReleaseView, FailureView>,
)
    requires
        !record.contains_key(id),
        forall|tool: Tool| Tool::with_id(id) == Some(tool) ==> !bundles.contains(tool),
    ensures
        !tool_status(id, record, bundles, latest).installed,
        !tool_status(id, record, bundles, latest).has_update,
{
}

/// An update is announced only for an installed tool, and only where the
/// registry's latest version differs from the recorded one.
pub proof fn lemma_update_needs_install(
    id: Seq<char>,
    record: Map<Seq<char>, Seq<char>>,
    bundles: Set<Tool>,
    latest: Result<ReleaseView, FailureView>,
)
    requires
        tool_status(id, record, bundles, latest).has_update,
    ensures
        installed(record, bundles, id),
        latest is Ok,
        record[id] != version_text(latest->Ok_0.tag_name),
{
}

/// Whether the tool that `tool_id` names is installed.
pub fn is_tool_installed(config: &ToolsConfig, bundles: &InstalledBundles, tool_id: &str) -> (r:
    bool)
    ensures
        r == installed(config@, bundles@, tool_id@),
{
    if !config.contains_key(tool_id) {
        return false;
    }
    match Tool::from_id(tool_id) {
        Some(tool) => bundles.contains(tool),
        None => false,
    }
}

/// The version recorded for `tool_id`, if any.
pub fn get_installed_version(config: &ToolsConfig, tool_id: &str) -> (r: Option<String>)
    ensures
        text_of(r) == recorded_version(config@, tool_id@),
{
    config.get(tool_id)
}

/// What is reported of an identifier that names no supported tool.
pub open spec fn unknown_tool_status() -> ToolStatusView {
    ToolStatusView {
        installed: false,
        installed_version: None,
        latest_version: None,
        has_update: false,
        error: Some(FailureView::UnknownTool.message()),
    }
}

/// Whose latest release the registry has to be asked for before the status of
/// `id` can be told. An identifier that names no supported tool has its status
/// at once, and nothing is asked.
pub open spec fn status_subject(id: Seq<char>) -> Result<Tool, ToolStatusView> {
    match Tool::with_id(id) {
        Some(tool) => Ok(tool),
        None => Err(unknown_tool_status()),
    }
}

/// Decides whether the registry has to be asked before the status of `tool_id`
/// can be told, and about which tool.
pub fn plan_status_check(tool_id: &str) -> (r: Result<Tool, ToolStatus>)
    ensures
        match status_subject(tool_id@) {
            Ok(tool) => r == Ok::<Tool, ToolStatus>(tool),
            Err(status) => r is Err && r->Err_0@ == status,
        },
{
    match Tool::from_id(tool_id) {
        Some(tool) => Ok(tool),
        None => Err(
            ToolStatus {
                installed: false,
                installed_version: None,
                latest_version: None,
                has_update: false,
                error: Some(Failure::UnknownTool.message()),
            },
        ),
    }
}

/// The status told without asking the registry is the status that any answer
/// of the registry would have led to.
pub proof fn lemma_unasked_status_is_final(
    id: Seq<char>,
    record: Map<Seq<char>, Seq<char>>,
    bundles: Set<Tool>,
    latest: Result<ReleaseView, FailureView>,
)
    requires
        status_subject(id) is Err,
    ensures
        tool_status(id, record, bundles, latest) == status_subject(id)->Err_0,
{
}

/// The status of the tool that `tool_id` names, from the record, the bundles
/// present and the registry's answer `latest`.
pub fn check_tool_status(
    tool_id: &str,
    config: &ToolsConfig,
    bundles: &InstalledBundles,
    latest: Result<GitHubRelease, Failure>,
) -> (r: ToolStatus)
    ensures
        r@ == tool_status(tool_id@, config@, bundles@, fetched_view(latest)),
{
    if let Err(status) = plan_status_check(tool_id) {
        return status;
    }
    let installed = is_tool_installed(config, bundles, tool_id);
    let installed_version = get_installed_version(config, tool_id);
    match latest {
        Ok(release) => {
            let latest_version = version_of_tag(release.tag_name.as_str());
            let differs = match &installed_version {
                Some(v) => !same_text(v.as_str(), latest_version.as_str()),
                None => false,
            };
            ToolStatus {
                installed,
                installed_version,
                latest_version: Some(latest_version),
                has_update: installed && differs,
                error: None,
            }
        },
        Err(failure) => ToolStatus {
            installed,
            installed_version,
            latest_version: None,
            has_update: false,
            error: Some(failure.message()),
        },
    }
}

/// The identifiers of the installed tools, each once.
pub fn get_installed_tools(config: &ToolsConfig, bundles: &InstalledBundles) -> (r: Vec<String>)
    ensures
        forall|i: int, j: int| 0 <= i < r@.len() && 0 <= j < r@.len() && i != j ==> r@[i]@ != r@[j]@,
        forall|i: int| 0 <= i < r@.len() ==> installed(config@, bundles@, #[trigger] r@[i]@),
        forall|id: Seq<char>|
            installed(config@, bundles@, id) ==> exists|i: int| 0 <= i < r@.len() && r@[i]@ == id,
{
    let keys = config.keys();
    let mut r: Vec<String> = Vec::new();
    let ghost mut origin: Seq<int> = Seq::empty();
    let mut k: usize = 0;
    while k < keys.len()
        invariant
            k <= keys@.len(),
            origin.len() == r@.len(),
            forall|i: int| 0 <= i < r@.len() ==> 0 <= #[trigger] origin[i] < k && r@[i]@ == keys@[origin[i]]@,
            forall|i: int, j: int| 0 <= i < j < r@.len() ==> origin[i] < origin[j],
            forall|i: int| 0 <= i < r@.len() ==> installed(config@, bundles@, #[trigger] r@[i]@),
            forall|j: int|
                0 <= j < k && installed(config@, bundles@, keys@[j]@) ==> exists|i: int|
                    0 <= i < r@.len() && r@[i]@ == keys@[j]@,
        decreases keys@.len() - k,
    {
        if is_tool_installed(config, bundles, keys[k].as_str()) {
            let ghost before = r@;
            r.push(keys[k].clone());
            proof {
                origin = origin.push(k as int);
                assert(r@[before.len() as int]@ == keys@[k as int]@);
            }
        }
        k += 1;
    }
    proof {
        assert forall|i: int, j: int|
            0 <= i < r@.len() && 0 <= j < r@.len() && i != j implies r@[i]@ != r@[j]@ by {
            assert(origin[i] != origin[j]);
        }
    }
    r
}

/// Whether the tool that `tool_id` names can be started: it must be a supported
/// tool, and its bundle must be present.
pub open spec fn launchable(id: Seq<char>, bundles: Set<Tool>) -> Result<Tool, FailureView> {
    match Tool::with_id(id) {
        None => Err(FailureView::UnknownTool),
        Some(tool) => if bundles.contains(tool) {
            Ok(tool)
        } else {
            Err(FailureView::NotInstalled)
        },
    }
}

/// What is reported once the attempt to start a bundle has ended with
/// `spawned`.
pub open spec fn launch_report(spawned: Result<(), Seq<char>>) -> ActionResultView {
    match spawned {
        Ok(_) => ActionResultView { success: true, message: "Launched app"@ },
        Err(cause) => ActionResultView::failed(FailureView::LaunchError { cause }),
    }
}

/// Decides whether the tool that `tool_id` names can be started, and names the
/// tool whose bundle to open.
pub fn plan_launch(tool_id: &str, bundles: &InstalledBundles) -> (r: Result<Tool, Failure>)
    ensures
        match launchable(tool_id@, bundles@) {
            Ok(tool) => r == Ok::<Tool, Failure>(tool),
            Err(failure) => r is Err && r->Err_0@ == failure,
        },
{
    match Tool::from_id(tool_id) {
        None => Err(Failure::UnknownTool),
        Some(tool) => if bundles.contains(tool) {
            Ok(tool)
        } else {
            Err(Failure::NotInstalled)
        },
    }
}

/// Reports how the attempt to start a bundle ended. Only the start itself
/// counts; the started process is not watched.
pub fn launch_outcome(spawned: Result<(), String>) -> (r: ActionResult)
    ensures
        r@ == launch_report(
            match spawned {
                Ok(_) => Ok(()),
                Err(cause) => Err(cause@),
            },
        ),
{
    match spawned {
        Ok(_) => ActionResult { success: true, message: "Launched app".to_owned() },
        Err(cause) => ActionResult::failed(&Failure::LaunchError { cause }),
    }
}

} // verus!

//! Asking the registry for the latest release, and downloading an asset, one
//! step at a time.
//!
//! Both walks set up a client that names itself, send one request, and read
//! the status of the answer before anything else: the body is read only after
//! a status of success. Nothing is tried twice.

use crate::failure::{attempt_view, Failure, FailureView, IoStage, NetworkStage};
use crate::release::{
    check_download_status, check_release_status, download_status_failure, latest_release_url,
    latest_release_url_text, release_status_failure, GitHubRelease, ReleaseView, USER_AGENT,
};
use vstd::prelude::*;

verus! {

/// The outcome of the action that the host performed last.
#[derive(Debug, PartialEq, Eq)]
pub enum NetEvent {
    /// The action succeeded.
    Completed,
    /// The action could not be carried out.
    Failed { cause: String },
    /// The request was answered with status `code`, which reads `status`.
    Responded { code: u16, status: String },
    /// The body of the answer, read as a release.
    ReleaseRead { release: GitHubRelease },
}

/// A `NetEvent` with its texts as sequences of characters.
pub enum NetEventView {
    Completed,
    Failed { cause: Seq<char> },
    Responded { code: u16, status: Seq<char> },
    ReleaseRead { release: ReleaseView },
}

impl View for NetEvent {
    type V = NetEventView;

    open spec fn view(&self) -> NetEventView {
        match *self {
            NetEvent::Completed => NetEventView::Completed,
            NetEvent::Failed { cause } => NetEventView::Failed { cause: cause@ },
            NetEvent::Responded { code, status } => NetEventView::Responded {
                code,
                status: status@,
            },
            NetEvent::ReleaseRead { release } => NetEventView::ReleaseRead { release: release@ },
        }
    }
}

/// Where the question for the latest release stands.
#[derive(Debug, PartialEq, Eq)]
pub enum QueryState {
    /// The client is being set up.
    Preparing { repo: String },
    /// The request is on its way.
    Asking { repo: String },
    /// The body of the answer is being read.
    Reading,
    /// The registry has named its latest release.
    Resolved { release: GitHubRelease },
    /// The question was given up.
    Failed { reason: Failure },
}

/// What the host is to do next for the latest release.
#[derive(Debug, PartialEq, Eq)]
pub enum QueryAction {
    /// Set up a client that names itself `user_agent`.
    BuildClient { user_agent: String },
    /// Send a request for `url`, and report the status of the answer.
    SendRequest { url: String },
    /// Read the body of the answer as a release.
    ReadRelease,
    /// Nothing is left to do: the question ended with `outcome`.
    Finish { outcome: Result<GitHubRelease, Failure> },
}

/// A `QueryState` with its texts as sequences of characters.
pub enum QueryStateView {
    Preparing { repo: Seq<char> },
    Asking { repo: Seq<char> },
    Reading,
    Resolved { release: ReleaseView },
    Failed { reason: FailureView },
}

/// A `QueryAction` with its texts as sequences of characters.
pub enum QueryActionView {
    BuildClient { user_agent: Seq<char> },
    SendRequest { url: Seq<char> },
    ReadRelease,
    Finish { outcome: Result<ReleaseView, FailureView> },
}

impl View for QueryState {
    type V = QueryStateView;

    open spec fn view(&self) -> QueryStateView {
        match *self {
            QueryState::Preparing { repo } => QueryStateView::Preparing { repo: repo@ },
            QueryState::Asking { repo } => QueryStateView::Asking { repo: repo@ },
            QueryState::Reading => QueryStateView::Reading,
            QueryState::Resolved { release } => QueryStateView::Resolved { release: release@ },
            QueryState::Failed { reason } => QueryStateView::Failed { reason: reason@ },
        }
    }
}

impl View for QueryAction {
    type V = QueryActionView;

    open spec fn view(&self) -> QueryActionView {
        match *self {
            QueryAction::BuildClient { user_agent } => QueryActionView::BuildClient {
                user_agent: user_agent@,
            },
            QueryAction::SendRequest { url } => QueryActionView::SendRequest { url: url@ },
            QueryAction::ReadRelease => QueryActionView::ReadRelease,
            QueryAction::Finish { outcome: Ok(release) } => QueryActionView::Finish {
                outcome: Ok(release@),
            },
            QueryAction::Finish { outcome: Err(reason) } => QueryActionView::Finish {
                outcome: Err(reason@),
            },
        }
    }
}

/// The failure of a network exchange.
pub open spec fn network_failure(stage: NetworkStage, cause: Seq<char>) -> FailureView {
    FailureView::NetworkError { stage, cause }
}

/// The state in which the question for the latest release of `repo` begins.
pub open spec fn query_initial(repo: Seq<char>) -> QueryStateView {
    QueryStateView::Preparing { repo }
}

/// The state that follows `state` on `event`. An event that does not answer
/// the action that `state` asks for changes nothing.
pub open spec fn query_next(state: QueryStateView, event: NetEventView) -> QueryStateView {
    match state {
        QueryStateView::Preparing { repo } => match event {
            NetEventView::Completed => QueryStateView::Asking { repo },
            NetEventView::Failed { cause } => QueryStateView::Failed {
                reason: network_failure(NetworkStage::ClientSetup, cause),
            },
            _ => state,
        },
        QueryStateView::Asking { repo } => match event {
            NetEventView::Responded { code, status } => match release_status_failure(code, status) {
                Some(reason) => QueryStateView::Failed { reason },
                None => QueryStateView::Reading,
            },
            NetEventView::Failed { cause } => QueryStateView::Failed {
                reason: network_failure(NetworkStage::ReleaseRequest, cause),
            },
            _ => state,
        },
        QueryStateView::Reading => match event {
            NetEventView::ReleaseRead { release } => QueryStateView::Resolved { release },
            NetEventView::Failed { cause } => QueryStateView::Failed {
                reason: FailureView::ParseError { cause },
            },
            _ => state,
        },
        QueryStateView::Resolved { release } => state,
        QueryStateView::Failed { reason } => state,
    }
}

/// The action that `state` asks for.
pub open spec fn query_pending(state: QueryStateView) -> QueryActionView {
    match state {
        QueryStateView::Preparing { repo } => QueryActionView::BuildClient {
            user_agent: USER_AGENT@,
        },
        QueryStateView::Asking { repo } => QueryActionView::SendRequest {
            url: latest_release_url_text(repo),
        },
        QueryStateView::Reading => QueryActionView::ReadRelease,
        QueryStateView::Resolved { release } => QueryActionView::Finish { outcome: Ok(release) },
        QueryStateView::Failed { reason } => QueryActionView::Finish { outcome: Err(reason) },
    }
}

/// The action that `state` asks for.
pub fn query_action(state: &QueryState) -> (action: QueryAction)
    ensures
        action@ == query_pending(state@),
{
    match state {
        QueryState::Preparing { repo } => QueryAction::BuildClient {
            user_agent: USER_AGENT.to_owned(),
        },
        QueryState::Asking { repo } => QueryAction::SendRequest {
            url: latest_release_url(repo.as_str()),
        },
        QueryState::Reading => QueryAction::ReadRelease,
        QueryState::Resolved { release } => QueryAction::Finish { outcome: Ok(release.clone()) },
        QueryState::Failed { reason } => QueryAction::Finish { outcome: Err(reason.clone()) },
    }
}

/// Begins the question for the latest release of `repo`.
pub fn query_start(repo: &str) -> (r: (QueryState, QueryAction))
    ensures
        r.0@ == query_initial(repo@),
        r.1@ == query_pending(r.0@),
{
    let state = QueryState::Preparing { repo: repo.to_owned() };
    let action = query_action(&state);
    (state, action)
}

/// The state that follows `state` on `event`.
fn query_advance(state: QueryState, event: NetEvent) -> (next: QueryState)
    ensures
        next@ == query_next(state@, event@),
{
    match state {
        QueryState::Preparing { repo } => match event {
            NetEvent::Completed => QueryState::Asking { repo },
            NetEvent::Failed { cause } => QueryState::Failed {
                reason: Failure::NetworkError { stage: NetworkStage::ClientSetup, cause },
            },
            _ => QueryState::Preparing { repo },
        },
        QueryState::Asking { repo } => match event {
            NetEvent::Responded { code, status } => match check_release_status(
                code,
                status.as_str(),
            ) {
                Err(reason) => QueryState::Failed { reason },
                Ok(_) => QueryState::Reading,
            },
            NetEvent::Failed { cause } => QueryState::Failed {
                reason: Failure::NetworkError { stage: NetworkStage::ReleaseRequest, cause },
            },
            _ => QueryState::Asking { repo },
        },
        QueryState::Reading => match event {
            NetEvent::ReleaseRead { release } => QueryState::Resolved { release },
            NetEvent::Failed { cause } => QueryState::Failed {
                reason: Failure::ParseError { cause },
            },
            _ => QueryState::Reading,
        },
        QueryState::Resolved { release } => QueryState::Resolved { release },
        QueryState::Failed { reason } => QueryState::Failed { reason },
    }
}

/// Takes the outcome of the action performed last, and says where the question
/// stands now and what to do next.
pub fn query_step(state: QueryState, event: NetEvent) -> (r: (QueryState, QueryAction))
    ensures
        r.0@ == query_next(state@, event@),
        r.1@ == query_pending(r.0@),
{
    let next = query_advance(state, event);
    let action = query_action(&next);
    (next, action)
}

/// Where a download stands.
#[derive(Debug, PartialEq, Eq)]
pub enum DownloadState {
    /// The client is being set up.
    Preparing { url: String },
    /// The request is on its way.
    Requesting { url: String },
    /// The body of the answer is being read to its end.
    ReadingBody,
    /// The file that receives the body is being created.
    CreatingFile,
    /// The body is being written to the file.
    WritingFile,
    /// The asset lies in its file.
    Stored,
    /// The download was given up.
    Failed { reason: Failure },
}

/// What the host is to do next for a download.
#[derive(Debug, PartialEq, Eq)]
pub enum DownloadAction {
    /// Set up a client that names itself `user_agent`.
    BuildClient { user_agent: String },
    /// Send a request for `url`, and report the status of the answer.
    SendRequest { url: String },
    /// Read the body of the answer to its end.
    ReadBody,
    /// Create the file at the destination, in place of what may be there.
    CreateFile,
    /// Write the whole body to the file.
    WriteFile,
    /// Nothing is left to do: the download ended with `outcome`.
    Finish { outcome: Result<(), Failure> },
}

/// A `DownloadState` with its texts as sequences of characters.
pub enum DownloadStateView {
    Preparing { url: Seq<char> },
    Requesting { url: Seq<char> },
    ReadingBody,
    CreatingFile,
    WritingFile,
    Stored,
    Failed { reason: FailureView },
}

/// A `DownloadAction` with its texts as sequences of characters.
pub enum DownloadActionView {
    BuildClient { user_agent: Seq<char> },
    SendRequest { url: Seq<char> },
    ReadBody,
    CreateFile,
    WriteFile,
    Finish { outcome: Result<(), FailureView> },
}

impl View for DownloadState {
    type V = DownloadStateView;

    open spec fn view(&self) -> DownloadStateView {
        match *self {
            DownloadState::Preparing { url } => DownloadStateView::Preparing { url: url@ },
            DownloadState::Requesting { url } => DownloadStateView::Requesting { url: url@ },
            DownloadState::ReadingBody => DownloadStateView::ReadingBody,
            DownloadState::CreatingFile => DownloadStateView::CreatingFile,
            DownloadState::WritingFile => DownloadStateView::WritingFile,
            DownloadState::Stored => DownloadStateView::Stored,
            DownloadState::Failed { reason } => DownloadStateView::Failed { reason: reason@ },
        }
    }
}

impl View for DownloadAction {
    type V = DownloadActionView;

    open spec fn view(&self) -> DownloadActionView {
        match *self {
            DownloadAction::BuildClient { user_agent } => DownloadActionView::BuildClient {
                user_agent: user_agent@,
            },
            DownloadAction::SendRequest { url } => DownloadActionView::SendRequest { url: url@ },
            DownloadAction::ReadBody => DownloadActionView::ReadBody,
            DownloadAction::CreateFile => DownloadActionView::CreateFile,
            DownloadAction::WriteFile => DownloadActionView::WriteFile,
            DownloadAction::Finish { outcome } => DownloadActionView::Finish {
                outcome: attempt_view(outcome),
            },
        }
    }
}

/// The state in which the download of `url` begins.
pub open spec fn download_initial(url: Seq<char>) -> DownloadStateView {
    DownloadStateView::Preparing { url }
}

/// The failure of a local file operation.
pub open spec fn io_failure(stage: IoStage, cause: Seq<char>) -> FailureView {
    FailureView::IoError { stage, cause }
}

/// The state that follows `state` on `event`. An event that does not answer
/// the action that `state` asks for changes nothing.
pub open spec fn download_next(state: DownloadStateView, event: NetEventView) -> DownloadStateView {
    match state {
        DownloadStateView::Preparing { url } => match event {
            NetEventView::Completed => DownloadStateView::Requesting { url },
            NetEventView::Failed { cause } => DownloadStateView::Failed {
                reason: network_failure(NetworkStage::ClientSetup, cause),
            },
            _ => state,
        },
        DownloadStateView::Requesting { url } => match event {
            NetEventView::Responded { code, status } => match download_status_failure(
                code,
                status,
            ) {
                Some(reason) => DownloadStateView::Failed { reason },
                None => DownloadStateView::ReadingBody,
            },
            NetEventView::Failed { cause } => DownloadStateView::Failed {
                reason: network_failure(NetworkStage::DownloadRequest, cause),
            },
            _ => state,
        },
        DownloadStateView::ReadingBody => match event {
            NetEventView::Completed => DownloadStateView::CreatingFile,
            NetEventView::Failed { cause } => DownloadStateView::Failed {
                reason: network_failure(NetworkStage::DownloadBody, cause),
            },
            _ => state,
        },
        DownloadStateView::CreatingFile => match event {
            NetEventView::Completed => DownloadStateView::WritingFile,
            NetEventView::Failed { cause } => DownloadStateView::Failed {
                reason: io_failure(IoStage::CreateFile, cause),
            },
            _ => state,
        },
        DownloadStateView::WritingFile => match event {
            NetEventView::Completed => DownloadStateView::Stored,
            NetEventView::Failed { cause } => DownloadStateView::Failed {
                reason: io_failure(IoStage::WriteFile, cause),
            },
            _ => state,
        },
        DownloadStateView::Stored => state,
        DownloadStateView::Failed { reason } => state,
    }
}

/// The action that `state` asks for.
pub open spec fn download_pending(state: DownloadStateView) -> DownloadActionView {
    match state {
        DownloadStateView::Preparing { url } => DownloadActionView::BuildClient {
            user_agent: USER_AGENT@,
        },
        DownloadStateView::Requesting { url } => DownloadActionView::SendRequest { url },
        DownloadStateView::ReadingBody => DownloadActionView::ReadBody,
        DownloadStateView::CreatingFile => DownloadActionView::CreateFile,
        DownloadStateView::WritingFile => DownloadActionView::WriteFile,
        DownloadStateView::Stored => DownloadActionView::Finish { outcome: Ok(()) },
        DownloadStateView::Failed { reason } => DownloadActionView::Finish { outcome: Err(reason) },
    }
}

/// The action that `state` asks for.
pub fn download_action(state: &DownloadState) -> (action: DownloadAction)
    ensures
        action@ == download_pending(state@),
{
    match state {
        DownloadState::Preparing { url } => DownloadAction::BuildClient {
            user_agent: USER_AGENT.to_owned(),
        },
        DownloadState::Requesting { url } => DownloadAction::SendRequest { url: url.clone() },
        DownloadState::ReadingBody => DownloadAction::ReadBody,
        DownloadState::CreatingFile => DownloadAction::CreateFile,
        DownloadState::WritingFile => DownloadAction::WriteFile,
        DownloadState::Stored => DownloadAction::Finish { outcome: Ok(()) },
        DownloadState::Failed { reason } => DownloadAction::Finish { outcome: Err(reason.clone()) },
    }
}

/// Begins the download of `url`.
pub fn download_start(url: &str) -> (r: (DownloadState, DownloadAction))
    ensures
        r.0@ == download_initial(url@),
        r.1@ == download_pending(r.0@),
{
    let state = DownloadState::Preparing { url: url.to_owned() };
    let action = download_action(&state);
    (state, action)
}

/// The state that follows `state` on `event`.
fn download_advance(state: DownloadState, event: NetEvent) -> (next: DownloadState)
    ensures
        next@ == download_next(state@, event@),
{
    match state {
        DownloadState::Preparing { url } => match event {
            NetEvent::Completed => DownloadState::Requesting { url },
            NetEvent::Failed { cause } => DownloadState::Failed {
                reason: Failure::NetworkError { stage: NetworkStage::ClientSetup, cause },
            },
            _ => DownloadState::Preparing { url },
        },
        DownloadState::Requesting { url } => match event {
            NetEvent::Responded { code, status } => match check_download_status(
                code,
                status.as_str(),
            ) {
                Err(reason) => DownloadState::Failed { reason },
                Ok(_) => DownloadState::ReadingBody,
            },
            NetEvent::Failed { cause } => DownloadState::Failed {
                reason: Failure::NetworkError { stage: NetworkStage::DownloadRequest, cause },
            },
            _ => DownloadState::Requesting { url },
        },
        DownloadState::ReadingBody => match event {
            NetEvent::Completed => DownloadState::CreatingFile,
            NetEvent::Failed { cause } => DownloadState::Failed {
                reason: Failure::NetworkError { stage: NetworkStage::DownloadBody, cause },
            },
            _ => DownloadState::ReadingBody,
        },
        DownloadState::CreatingFile => match event {
            NetEvent::Completed => DownloadState::WritingFile,
            NetEvent::Failed { cause } => DownloadState::Failed {
                reason: Failure::IoError { stage: IoStage::CreateFile, cause },
            },
            _ => DownloadState::CreatingFile,
        },
        DownloadState::WritingFile => match event {
            NetEvent::Completed => DownloadState::Stored,
            NetEvent::Failed { cause } => DownloadState::Failed {
                reason: Failure::IoError { stage: IoStage::WriteFile, cause },
            },
            _ => DownloadState::WritingFile,
        },
        DownloadState::Stored => DownloadState::Stored,
        DownloadState::Failed { reason } => DownloadState::Failed { reason },
    }
}

/// Takes the outcome of the action performed last, and says where the download
/// stands now and what to do next.
pub fn download_step(state: DownloadState, event: NetEvent) -> (r: (
    DownloadState,
    DownloadAction,
))
    ensures
        r.0@ == download_next(state@, event@),
        r.1@ == download_pending(r.0@),
{
    let next = download_advance(state, event);
    let action = download_action(&next);
    (next, action)
}

/// The registry's status decides before the body is looked at: 403 is the rate
/// limit, 404 means that nothing is released, any other status outside 200 to
/// 299 is a registry error, and only a status of success has the body read.
pub proof fn lemma_status_decides_the_query(repo: Seq<char>, code: u16, status: Seq<char>)
    ensures
        ({
            let next = query_next(
                QueryStateView::Asking { repo },
                NetEventView::Responded { code, status },
            );
            &&& code == 403 ==> next == (QueryStateView::Failed { reason: FailureView::RateLimited })
            &&& code == 404 ==> next == (QueryStateView::Failed { reason: FailureView::NoReleases })
            &&& code != 403 && code != 404 && !(200 <= code < 300) ==> next == (
            QueryStateView::Failed { reason: FailureView::RegistryError { code, status } })
            &&& 200 <= code < 300 <==> next is Reading
            &&& query_pending(next) is ReadRelease <==> 200 <= code < 300
        }),
{
}

/// A download whose request is answered with a status outside 200 to 299 fails
/// with that status; nothing is read and no file is created.
pub proof fn lemma_status_decides_the_download(url: Seq<char>, code: u16, status: Seq<char>)
    ensures
        ({
            let next = download_next(
                DownloadStateView::Requesting { url },
                NetEventView::Responded { code, status },
            );
            &&& !(200 <= code < 300) ==> next == (DownloadStateView::Failed {
                reason: FailureView::HttpError { code, status },
            })
            &&& 200 <= code < 300 <==> next is ReadingBody
        }),
{
}

} // verus!

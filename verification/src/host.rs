//! What the extension asks of its host, and how a conversation with the host unfolds.
//!
//! Everything that touches the outside world is a [`Request`] that the caller performs and
//! answers with a [`Reply`]. The decisions in between are machines: a machine has one pending
//! request, and a reply to it brings the machine to the next request or to its outcome.

use vstd::prelude::*;

use crate::platform::{Architecture, DownloadedFileType, Os};
use crate::release::{GithubRelease, GithubReleaseOptions, ReleaseModel};

verus! {

/// What the editor shows about the installation of the language server.
#[derive(Debug, PartialEq, Eq)]
pub enum InstallationStatus {
    /// Nothing to show.
    Clear,
    Downloading,
    CheckingForUpdate,
    Failed(String),
}

/// Something that only the host can do.
#[derive(Debug, PartialEq, Eq)]
pub enum Request {
    /// Tell whether something exists at the path.
    PathExists(String),
    /// Look a binary up on the worktree's `PATH`.
    Which(String),
    /// Show the status in the editor.
    SetStatus(InstallationStatus),
    /// Ask GitHub for the latest release of a repository.
    LatestRelease(String, GithubReleaseOptions),
    /// Let so many milliseconds pass.
    Sleep(u64),
    /// Read the file as text.
    ReadFile(String),
    /// Tell the operating system and the architecture.
    CurrentPlatform,
    /// Download from the URL and unpack to the path.
    DownloadFile(String, String, DownloadedFileType),
    /// Make the file executable.
    MakeExecutable(String),
    /// Make the text the contents of the file.
    WriteFile(String, String),
    /// Start listing the directory.
    OpenDirectory(String),
    /// Give the next entry of the directory that was opened last.
    NextEntry,
    /// Tell whether there is a directory at the path.
    IsDirectory(String),
    /// Remove the directory and all that is in it.
    RemoveDirectory(String),
    /// Put the text on the error stream.
    Warn(String),
    /// Tell the root path of the worktree.
    WorktreeRoot,
}

/// Why a file could not be read.
#[derive(Debug, PartialEq, Eq)]
pub enum ReadFailure {
    /// There is no such file.
    NotFound,
    /// Anything else, in the words of the operating system.
    Other(String),
}

/// What the host has to say to a [`Request`].
#[derive(Debug, PartialEq, Eq)]
pub enum Reply {
    /// The request was carried out; there is nothing to tell.
    Done,
    /// Yes or no.
    Answer(bool),
    /// A path, if there is one.
    Found(Option<String>),
    /// The latest release, or why it could not be had.
    Release(Result<GithubRelease, String>),
    /// The contents of a file.
    Contents(Result<String, ReadFailure>),
    /// The operating system and the architecture.
    Platform(Os, Architecture),
    /// The request was carried out, or why not.
    Outcome(Result<(), String>),
    /// A directory entry: nothing after the last one; an error in place of an entry that cannot
    /// be read; otherwise its name, where the name is valid text.
    Entry(Option<Result<Option<String>, String>>),
    /// A path.
    Root(String),
}

/// What an [`InstallationStatus`] stands for.
pub enum StatusModel {
    Clear,
    Downloading,
    CheckingForUpdate,
    Failed(Seq<char>),
}

/// What a [`Request`] stands for.
pub enum RequestModel {
    PathExists(Seq<char>),
    Which(Seq<char>),
    SetStatus(StatusModel),
    LatestRelease(Seq<char>, GithubReleaseOptions),
    Sleep(u64),
    ReadFile(Seq<char>),
    CurrentPlatform,
    DownloadFile(Seq<char>, Seq<char>, DownloadedFileType),
    MakeExecutable(Seq<char>),
    WriteFile(Seq<char>, Seq<char>),
    OpenDirectory(Seq<char>),
    NextEntry,
    IsDirectory(Seq<char>),
    RemoveDirectory(Seq<char>),
    Warn(Seq<char>),
    WorktreeRoot,
}

/// What a [`ReadFailure`] stands for.
pub enum ReadFailureModel {
    NotFound,
    Other(Seq<char>),
}

/// What a [`Reply`] stands for.
pub enum ReplyModel {
    Done,
    Answer(bool),
    Found(Option<Seq<char>>),
    Release(Result<ReleaseModel, Seq<char>>),
    Contents(Result<Seq<char>, ReadFailureModel>),
    Platform(Os, Architecture),
    Outcome(Result<(), Seq<char>>),
    Entry(Option<Result<Option<Seq<char>>, Seq<char>>>),
    Root(Seq<char>),
}

/// What a result stands for.
pub open spec fn result_view<T: DeepView, E: DeepView>(res: Result<T, E>) -> Result<T::V, E::V> {
    match res {
        Ok(value) => Ok(value.deep_view()),
        Err(e) => Err(e.deep_view()),
    }
}

impl DeepView for InstallationStatus {
    type V = StatusModel;

    open spec fn deep_view(&self) -> StatusModel {
        match self {
            InstallationStatus::Clear => StatusModel::Clear,
            InstallationStatus::Downloading => StatusModel::Downloading,
            InstallationStatus::CheckingForUpdate => StatusModel::CheckingForUpdate,
            InstallationStatus::Failed(reason) => StatusModel::Failed(reason@),
        }
    }
}

impl DeepView for Request {
    type V = RequestModel;

    open spec fn deep_view(&self) -> RequestModel {
        match self {
            Request::PathExists(path) => RequestModel::PathExists(path@),
            Request::Which(name) => RequestModel::Which(name@),
            Request::SetStatus(status) => RequestModel::SetStatus(status.deep_view()),
            Request::LatestRelease(repo, options) => RequestModel::LatestRelease(repo@, *options),
            Request::Sleep(millis) => RequestModel::Sleep(*millis),
            Request::ReadFile(path) => RequestModel::ReadFile(path@),
            Request::CurrentPlatform => RequestModel::CurrentPlatform,
            Request::DownloadFile(url, path, file_type) => RequestModel::DownloadFile(
                url@,
                path@,
                *file_type,
            ),
            Request::MakeExecutable(path) => RequestModel::MakeExecutable(path@),
            Request::WriteFile(path, contents) => RequestModel::WriteFile(path@, contents@),
            Request::OpenDirectory(path) => RequestModel::OpenDirectory(path@),
            Request::NextEntry => RequestModel::NextEntry,
            Request::IsDirectory(path) => RequestModel::IsDirectory(path@),
            Request::RemoveDirectory(path) => RequestModel::RemoveDirectory(path@),
            Request::Warn(text) => RequestModel::Warn(text@),
            Request::WorktreeRoot => RequestModel::WorktreeRoot,
        }
    }
}

impl DeepView for ReadFailure {
    type V = ReadFailureModel;

    open spec fn deep_view(&self) -> ReadFailureModel {
        match self {
            ReadFailure::NotFound => ReadFailureModel::NotFound,
            ReadFailure::Other(reason) => ReadFailureModel::Other(reason@),
        }
    }
}

impl DeepView for Reply {
    type V = ReplyModel;

    open spec fn deep_view(&self) -> ReplyModel {
        match self {
            Reply::Done => ReplyModel::Done,
            Reply::Answer(answer) => ReplyModel::Answer(*answer),
            Reply::Found(path) => ReplyModel::Found(path.deep_view()),
            Reply::Release(release) => ReplyModel::Release(result_view(*release)),
            Reply::Contents(contents) => ReplyModel::Contents(result_view(*contents)),
            Reply::Platform(os, arch) => ReplyModel::Platform(*os, *arch),
            Reply::Outcome(outcome) => ReplyModel::Outcome(result_view(*outcome)),
            Reply::Entry(entry) => ReplyModel::Entry(
                match entry {
                    Some(name) => Some(result_view(*name)),
                    None => None,
                },
            ),
            Reply::Root(path) => ReplyModel::Root(path@),
        }
    }
}

/// Whether `reply` is of the kind that `request` asks for.
pub open spec fn answers(request: RequestModel, reply: ReplyModel) -> bool {
    match request {
        RequestModel::PathExists(_) => reply is Answer,
        RequestModel::Which(_) => reply is Found,
        RequestModel::SetStatus(_) => reply is Done,
        RequestModel::LatestRelease(..) => reply is Release,
        RequestModel::Sleep(_) => reply is Done,
        RequestModel::ReadFile(_) => reply is Contents,
        RequestModel::CurrentPlatform => reply is Platform,
        RequestModel::DownloadFile(..) => reply is Outcome,
        RequestModel::MakeExecutable(_) => reply is Outcome,
        RequestModel::WriteFile(..) => reply is Outcome,
        RequestModel::OpenDirectory(_) => reply is Outcome,
        RequestModel::NextEntry => reply is Entry,
        RequestModel::IsDirectory(_) => reply is Answer,
        RequestModel::RemoveDirectory(_) => reply is Outcome,
        RequestModel::Warn(_) => reply is Done,
        RequestModel::WorktreeRoot => reply is Root,
    }
}

/// Where a machine is: it has something to ask, or it is done.
#[derive(Debug, PartialEq, Eq)]
pub enum Progress<M, R> {
    Ask(M),
    Done(R),
}

/// What a machine's progress stands for.
pub open spec fn progress_view<M: DeepView, T: DeepView, E: DeepView>(
    progress: Progress<M, Result<T, E>>,
) -> Progress<M::V, Result<T::V, E::V>> {
    match progress {
        Progress::Ask(machine) => Progress::Ask(machine.deep_view()),
        Progress::Done(outcome) => Progress::Done(result_view(outcome)),
    }
}

/// The decisions between one request and the next.
///
/// A reply that does not answer the pending request leaves a machine where it is.
pub trait Machine: Sized {
    /// What the machine comes to in the end.
    type Outcome;

    /// What the machine waits for.
    spec fn pending(self) -> RequestModel;

    /// What the machine makes of a reply.
    spec fn step(self, reply: ReplyModel) -> Progress<Self, Self::Outcome>;
}

/// Where a machine is after `replies`.
pub open spec fn run<M: Machine>(
    progress: Progress<M, M::Outcome>,
    replies: Seq<ReplyModel>,
) -> Progress<M, M::Outcome>
    decreases replies.len(),
{
    match progress {
        Progress::Ask(machine) if replies.len() > 0 => run(
            machine.step(replies.first()),
            replies.drop_first(),
        ),
        _ => progress,
    }
}

/// The requests that `replies` were given to, in order.
pub open spec fn asked<M: Machine>(
    progress: Progress<M, M::Outcome>,
    replies: Seq<ReplyModel>,
) -> Seq<RequestModel>
    decreases replies.len(),
{
    match progress {
        Progress::Ask(machine) if replies.len() > 0 => seq![machine.pending()] + asked(
            machine.step(replies.first()),
            replies.drop_first(),
        ),
        _ => seq![],
    }
}

/// Each of `replies` answers the request that is pending when it comes, and none comes after
/// the end.
pub open spec fn in_order<M: Machine>(
    progress: Progress<M, M::Outcome>,
    replies: Seq<ReplyModel>,
) -> bool
    decreases replies.len(),
{
    replies.len() > 0 ==> match progress {
        Progress::Ask(machine) => {
            &&& answers(machine.pending(), replies.first())
            &&& in_order(machine.step(replies.first()), replies.drop_first())
        },
        Progress::Done(_) => false,
    }
}

/// A conversation can be cut in two: what follows depends only on where the first part led.
pub proof fn law_conversation_splits<M: Machine>(
    progress: Progress<M, M::Outcome>,
    first: Seq<ReplyModel>,
    second: Seq<ReplyModel>,
)
    ensures
        run(progress, first + second) == run(run(progress, first), second),
        asked(progress, first + second) == asked(progress, first) + asked(
            run(progress, first),
            second,
        ),
        in_order(progress, first + second) <==> in_order(progress, first) && in_order(
            run(progress, first),
            second,
        ),
    decreases first.len(),
{
    if first.len() == 0 {
        assert(first + second =~= second);
        assert(asked(progress, first) =~= seq![]);
        assert(asked(progress, first) + asked(progress, second) =~= asked(progress, second));
    } else {
        assert((first + second).drop_first() =~= first.drop_first() + second);
        match progress {
            Progress::Ask(machine) => {
                let next = machine.step(first.first());
                law_conversation_splits(next, first.drop_first(), second);
                assert(asked(progress, first + second) =~= asked(progress, first) + asked(
                    run(progress, first),
                    second,
                ));
            },
            Progress::Done(_) => {
                assert(asked(progress, first + second) =~= seq![]);
                assert(asked(progress, first) + asked(progress, second) =~= seq![]);
            },
        }
    }
}

/// Without a reply nothing happens; one reply takes a machine one step, in answer to its pending
/// request; and after the end nothing is asked. With [`law_conversation_splits`] this says what
/// every conversation comes to.
pub proof fn law_conversation_steps<M: Machine>(
    machine: M,
    outcome: M::Outcome,
    reply: ReplyModel,
    replies: Seq<ReplyModel>,
)
    ensures
        run(Progress::Ask(machine), seq![]) == Progress::<M, M::Outcome>::Ask(machine),
        run(Progress::Ask(machine), seq![reply]) == machine.step(reply),
        run(Progress::<M, M::Outcome>::Done(outcome), replies) == Progress::<
            M,
            M::Outcome,
        >::Done(outcome),
        asked(Progress::Ask(machine), seq![]) == Seq::<RequestModel>::empty(),
        asked(Progress::Ask(machine), seq![reply]) == seq![machine.pending()],
        asked(Progress::<M, M::Outcome>::Done(outcome), replies) == Seq::<RequestModel>::empty(),
{
    reveal_with_fuel(run, 2);
    reveal_with_fuel(asked, 2);
    assert(seq![reply].drop_first() =~= seq![]);
    assert(asked(Progress::Ask(machine), seq![reply]) =~= seq![machine.pending()]);
    assert(asked(Progress::Ask(machine), seq![]) =~= Seq::<RequestModel>::empty());
}

} // verus!

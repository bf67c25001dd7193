//! What the library's values stand for, field by field.
//!
//! Contracts speak of models. These laws say that a model leaves nothing out of the value that it
//! stands for, and adds nothing to it.

use vstd::prelude::*;

use crate::binary::{BinaryModel, CodebookBinary};
use crate::command::{launch_view, Command, CommandModel, Launch, LaunchModel};
use crate::extension::CodebookExtension;
use crate::host::{
    progress_view, result_view, InstallationStatus, Progress, ReadFailure, ReadFailureModel, Reply,
    ReplyModel, Request, RequestModel, StatusModel,
};
use crate::latest::{latest_view, Latest, LatestModel};
use crate::platform::{Architecture, DownloadedFileType, Os};
use crate::release::{AssetModel, GithubRelease, GithubReleaseOptions};
use crate::search::{search_view, Search, SearchModel};

verus! {

/// A status stands for itself, with its text.
pub proof fn law_status_view(text: String)
    ensures
        InstallationStatus::Clear.deep_view() == StatusModel::Clear,
        InstallationStatus::Downloading.deep_view() == StatusModel::Downloading,
        InstallationStatus::CheckingForUpdate.deep_view() == StatusModel::CheckingForUpdate,
        InstallationStatus::Failed(text).deep_view() == StatusModel::Failed(text@),
{
}

/// A request stands for itself, with the texts and numbers in it.
pub proof fn law_request_view(
    text: String,
    other: String,
    status: InstallationStatus,
    options: GithubReleaseOptions,
    millis: u64,
    file_type: DownloadedFileType,
)
    ensures
        Request::PathExists(text).deep_view() == RequestModel::PathExists(text@),
        Request::Which(text).deep_view() == RequestModel::Which(text@),
        Request::SetStatus(status).deep_view() == RequestModel::SetStatus(status.deep_view()),
        Request::LatestRelease(text, options).deep_view() == RequestModel::LatestRelease(
            text@,
            options,
        ),
        Request::Sleep(millis).deep_view() == RequestModel::Sleep(millis),
        Request::ReadFile(text).deep_view() == RequestModel::ReadFile(text@),
        Request::CurrentPlatform.deep_view() == RequestModel::CurrentPlatform,
        Request::DownloadFile(text, other, file_type).deep_view() == RequestModel::DownloadFile(
            text@,
            other@,
            file_type,
        ),
        Request::MakeExecutable(text).deep_view() == RequestModel::MakeExecutable(text@),
        Request::WriteFile(text, other).deep_view() == RequestModel::WriteFile(text@, other@),
        Request::OpenDirectory(text).deep_view() == RequestModel::OpenDirectory(text@),
        Request::NextEntry.deep_view() == RequestModel::NextEntry,
        Request::IsDirectory(text).deep_view() == RequestModel::IsDirectory(text@),
        Request::RemoveDirectory(text).deep_view() == RequestModel::RemoveDirectory(text@),
        Request::Warn(text).deep_view() == RequestModel::Warn(text@),
        Request::WorktreeRoot.deep_view() == RequestModel::WorktreeRoot,
{
}

/// A reply stands for itself, with the texts, answers and errors in it.
pub proof fn law_reply_view(
    text: String,
    answer: bool,
    release: GithubRelease,
    os: Os,
    arch: Architecture,
)
    ensures
        Reply::Done.deep_view() == ReplyModel::Done,
        Reply::Answer(answer).deep_view() == ReplyModel::Answer(answer),
        Reply::Found(Some(text)).deep_view() == ReplyModel::Found(Some(text@)),
        Reply::Found(None).deep_view() == ReplyModel::Found(None),
        Reply::Release(Ok(release)).deep_view() == ReplyModel::Release(Ok(release.deep_view())),
        Reply::Release(Err(text)).deep_view() == ReplyModel::Release(Err(text@)),
        Reply::Contents(Ok(text)).deep_view() == ReplyModel::Contents(Ok(text@)),
        Reply::Contents(Err(ReadFailure::NotFound)).deep_view() == ReplyModel::Contents(
            Err(ReadFailureModel::NotFound),
        ),
        Reply::Contents(Err(ReadFailure::Other(text))).deep_view() == ReplyModel::Contents(
            Err(ReadFailureModel::Other(text@)),
        ),
        Reply::Platform(os, arch).deep_view() == ReplyModel::Platform(os, arch),
        Reply::Outcome(Ok(())).deep_view() == ReplyModel::Outcome(Ok(())),
        Reply::Outcome(Err(text)).deep_view() == ReplyModel::Outcome(Err(text@)),
        Reply::Entry(None).deep_view() == ReplyModel::Entry(None),
        Reply::Entry(Some(Err(text))).deep_view() == ReplyModel::Entry(Some(Err(text@))),
        Reply::Entry(Some(Ok(None))).deep_view() == ReplyModel::Entry(Some(Ok(None))),
        Reply::Entry(Some(Ok(Some(text)))).deep_view() == ReplyModel::Entry(Some(Ok(Some(text@)))),
        Reply::Root(text).deep_view() == ReplyModel::Root(text@),
{
}

/// A release stands for its version and its assets, in order, each with its name and its URL.
pub proof fn law_release_view(release: GithubRelease, i: int)
    ensures
        release.deep_view().version == release.version@,
        release.deep_view().assets.len() == release.assets@.len(),
        0 <= i < release.assets@.len() ==> release.deep_view().assets[i] == (AssetModel {
            name: release.assets@[i].name@,
            download_url: release.assets@[i].download_url@,
        }),
{
}

/// A binary stands for its path and its environment variables, in order.
pub proof fn law_binary_view(binary: CodebookBinary, i: int)
    ensures
        binary.deep_view().path == binary.path@,
        binary.deep_view().env.len() == binary.env@.len(),
        0 <= i < binary.env@.len() ==> binary.deep_view().env[i] == (
            binary.env@[i].0@,
            binary.env@[i].1@,
        ),
{
}

/// A command stands for what is run, its arguments and its environment variables, in order.
pub proof fn law_command_view(command: Command, i: int)
    ensures
        command.deep_view().command == command.command@,
        command.deep_view().args.len() == command.args@.len(),
        0 <= i < command.args@.len() ==> command.deep_view().args[i] == command.args@[i]@,
        command.deep_view().env.len() == command.env@.len(),
        0 <= i < command.env@.len() ==> command.deep_view().env[i] == (
            command.env@[i].0@,
            command.env@[i].1@,
        ),
{
}

/// The extension stands for the path that it remembers.
pub proof fn law_extension_view(extension: CodebookExtension)
    ensures
        extension.binary_cache is None ==> extension.deep_view() is None,
        extension.binary_cache matches Some(path) ==> extension.deep_view() == Some(path@),
{
}

/// A result stands for itself, and so does the progress of a machine that comes to it.
pub proof fn law_result_view(path: String, error: String, binary: CodebookBinary)
    ensures
        result_view(Ok::<String, String>(path)) == Ok::<Seq<char>, Seq<char>>(path@),
        result_view(Err::<String, String>(error)) == Err::<Seq<char>, Seq<char>>(error@),
        result_view(Ok::<(), String>(())) == Ok::<(), Seq<char>>(()),
        result_view(Err::<(), String>(error)) == Err::<(), Seq<char>>(error@),
        result_view(Ok::<CodebookBinary, String>(binary)) == Ok::<BinaryModel, Seq<char>>(
            binary.deep_view(),
        ),
        result_view(Err::<CodebookBinary, String>(error)) == Err::<BinaryModel, Seq<char>>(error@),
{
}

/// A machine that is done stands for one that is done with what its outcome stands for.
pub proof fn law_progress_view<M: DeepView, T: DeepView>(machine: M, value: T, error: String)
    ensures
        progress_view(Progress::<M, Result<T, String>>::Ask(machine)) == Progress::<
            M::V,
            Result<T::V, Seq<char>>,
        >::Ask(machine.deep_view()),
        progress_view(Progress::<M, Result<T, String>>::Done(Ok(value))) == Progress::<
            M::V,
            Result<T::V, Seq<char>>,
        >::Done(Ok(value.deep_view())),
        progress_view(Progress::<M, Result<T, String>>::Done(Err(error))) == Progress::<
            M::V,
            Result<T::V, Seq<char>>,
        >::Done(Err(error@)),
{
}

/// Together with the extension's state, a search or a launch that is done stands for the path
/// remembered and for what the result stands for; one that is not done stands for its own state
/// and the path remembered.
pub proof fn law_outer_progress_view(
    extension: CodebookExtension,
    latest: Latest,
    search: Search,
    launch: Launch,
    binary: CodebookBinary,
    command: Command,
    error: String,
)
    ensures
        latest_view(extension, Progress::Ask(latest)) matches Progress::Ask(model) && model
            == (LatestModel { cache: extension.deep_view(), phase: latest.deep_view() }),
        latest_view(extension, Progress::Done(Ok(binary))) == Progress::<LatestModel, _>::Done(
            (extension.deep_view(), Ok::<_, Seq<char>>(binary.deep_view())),
        ),
        latest_view(extension, Progress::Done(Err(error))) == Progress::<LatestModel, _>::Done(
            (extension.deep_view(), Err::<BinaryModel, _>(error@)),
        ),
        search_view(extension, Progress::Ask(search)) matches Progress::Ask(model) && model
            == (SearchModel { cache: extension.deep_view(), phase: search.deep_view() }),
        search_view(extension, Progress::Done(Ok(binary))) == Progress::<SearchModel, _>::Done(
            (extension.deep_view(), Ok::<_, Seq<char>>(binary.deep_view())),
        ),
        search_view(extension, Progress::Done(Err(error))) == Progress::<SearchModel, _>::Done(
            (extension.deep_view(), Err::<BinaryModel, _>(error@)),
        ),
        launch_view(extension, Progress::Ask(launch)) matches Progress::Ask(model) && model
            == (LaunchModel { cache: extension.deep_view(), phase: launch.deep_view() }),
        launch_view(extension, Progress::Done(Ok(command))) == Progress::<LaunchModel, _>::Done(
            (extension.deep_view(), Ok::<_, Seq<char>>(command.deep_view())),
        ),
        launch_view(extension, Progress::Done(Err(error))) == Progress::<LaunchModel, _>::Done(
            (extension.deep_view(), Err::<CommandModel, _>(error@)),
        ),
{
}

} // verus!

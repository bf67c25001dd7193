//! Removing the directories of versions that are no longer used.

use vstd::prelude::*;

use crate::binary::EXTENSION_LSP_NAME;
use crate::extension::{version_directory, CodebookExtension, VERSION_FILE};
use crate::host::{
    asked, in_order, law_conversation_steps, progress_view, run, Machine, Progress, Reply,
    ReplyModel, Request, RequestModel,
};
use crate::path::{file_name, final_component, join, joined, law_single_component_is_final};
use crate::text::starts_with;

verus! {

/// The directory that everything is installed in.
pub const WORK_DIRECTORY: &'static str = ".";

/// What is said of a version directory without a name.
pub const INVALID_DIRECTORY_NAME: &'static str = "Invalid version directory name";

/// What precedes the reason why the work directory could not be listed.
pub const READ_DIRECTORY_FAILED: &'static str = "Failed to read directory: ";

/// What precedes the reason why an entry of the work directory could not be read.
pub const READ_ENTRY_FAILED: &'static str = "Failed to read directory entry: ";

/// What precedes the name of a directory that could not be removed.
pub const REMOVE_FAILED: &'static str = "Warning: Failed to remove old version directory ";

/// The cleanup that spares the directory called `current`, waiting for the host.
#[derive(Debug, PartialEq, Eq)]
pub enum Cleanup {
    /// For the work directory to be opened.
    Opening { current: String },
    /// For the next entry.
    Scanning { current: String },
    /// To be told whether the entry called `name` is a directory.
    Inspecting { current: String, name: String },
    /// For the directory called `name` to be removed.
    Removing { current: String, name: String },
    /// For a warning that the directory called `name` could not be removed.
    Warning { current: String, name: String, reason: String },
}

/// What a [`Cleanup`] stands for.
pub enum CleanupModel {
    Opening { current: Seq<char> },
    Scanning { current: Seq<char> },
    Inspecting { current: Seq<char>, name: Seq<char> },
    Removing { current: Seq<char>, name: Seq<char> },
    Warning { current: Seq<char>, name: Seq<char>, reason: Seq<char> },
}

impl DeepView for Cleanup {
    type V = CleanupModel;

    open spec fn deep_view(&self) -> CleanupModel {
        match self {
            Cleanup::Opening { current } => CleanupModel::Opening { current: current@ },
            Cleanup::Scanning { current } => CleanupModel::Scanning { current: current@ },
            Cleanup::Inspecting { current, name } => CleanupModel::Inspecting {
                current: current@,
                name: name@,
            },
            Cleanup::Removing { current, name } => CleanupModel::Removing {
                current: current@,
                name: name@,
            },
            Cleanup::Warning { current, name, reason } => CleanupModel::Warning {
                current: current@,
                name: name@,
                reason: reason@,
            },
        }
    }
}

/// `name` is that of a version directory other than `current`.
pub open spec fn is_stale(name: Seq<char>, current: Seq<char>) -> bool {
    (EXTENSION_LSP_NAME@ + "-"@).is_prefix_of(name) && name != current
}

/// The path of the entry called `name`.
pub open spec fn entry_path(name: Seq<char>) -> Seq<char> {
    joined(WORK_DIRECTORY@, name)
}

/// What is said when the directory called `name` could not be removed.
pub open spec fn remove_warning(name: Seq<char>, reason: Seq<char>) -> Seq<char> {
    REMOVE_FAILED@ + name + ": "@ + reason
}

impl CleanupModel {
    /// The directory that the cleanup spares.
    pub open spec fn current(self) -> Seq<char> {
        match self {
            CleanupModel::Opening { current } => current,
            CleanupModel::Scanning { current } => current,
            CleanupModel::Inspecting { current, .. } => current,
            CleanupModel::Removing { current, .. } => current,
            CleanupModel::Warning { current, .. } => current,
        }
    }

    /// Whatever the cleanup is concerned with is stale.
    pub open spec fn wf(self) -> bool {
        match self {
            CleanupModel::Opening { .. } => true,
            CleanupModel::Scanning { .. } => true,
            CleanupModel::Inspecting { current, name } => is_stale(name, current),
            CleanupModel::Removing { current, name } => is_stale(name, current),
            CleanupModel::Warning { current, name, .. } => is_stale(name, current),
        }
    }
}

impl Machine for CleanupModel {
    type Outcome = Result<(), Seq<char>>;

    open spec fn pending(self) -> RequestModel {
        match self {
            CleanupModel::Opening { .. } => RequestModel::OpenDirectory(WORK_DIRECTORY@),
            CleanupModel::Scanning { .. } => RequestModel::NextEntry,
            CleanupModel::Inspecting { name, .. } => RequestModel::IsDirectory(entry_path(name)),
            CleanupModel::Removing { name, .. } => RequestModel::RemoveDirectory(entry_path(name)),
            CleanupModel::Warning { name, reason, .. } => RequestModel::Warn(
                remove_warning(name, reason),
            ),
        }
    }

    open spec fn step(self, reply: ReplyModel) -> Progress<Self, Self::Outcome> {
        match (self, reply) {
            (CleanupModel::Opening { current }, ReplyModel::Outcome(Ok(()))) => Progress::Ask(
                CleanupModel::Scanning { current },
            ),
            (CleanupModel::Opening { .. }, ReplyModel::Outcome(Err(e))) => Progress::Done(
                Err(READ_DIRECTORY_FAILED@ + e),
            ),
            (CleanupModel::Scanning { .. }, ReplyModel::Entry(None)) => Progress::Done(Ok(())),
            (CleanupModel::Scanning { .. }, ReplyModel::Entry(Some(Err(e)))) => Progress::Done(
                Err(READ_ENTRY_FAILED@ + e),
            ),
            (CleanupModel::Scanning { current }, ReplyModel::Entry(Some(Ok(Some(name))))) =>
            if is_stale(name, current) {
                Progress::Ask(CleanupModel::Inspecting { current, name })
            } else {
                Progress::Ask(CleanupModel::Scanning { current })
            },
            (CleanupModel::Scanning { current }, ReplyModel::Entry(Some(Ok(None)))) =>
            Progress::Ask(CleanupModel::Scanning { current }),
            (CleanupModel::Inspecting { current, name }, ReplyModel::Answer(is_dir)) => if is_dir {
                Progress::Ask(CleanupModel::Removing { current, name })
            } else {
                Progress::Ask(CleanupModel::Scanning { current })
            },
            (CleanupModel::Removing { current, .. }, ReplyModel::Outcome(Ok(()))) => Progress::Ask(
                CleanupModel::Scanning { current },
            ),
            (CleanupModel::Removing { current, name }, ReplyModel::Outcome(Err(reason))) =>
            Progress::Ask(CleanupModel::Warning { current, name, reason }),
            (CleanupModel::Warning { current, .. }, ReplyModel::Done) => Progress::Ask(
                CleanupModel::Scanning { current },
            ),
            (machine, _) => Progress::Ask(machine),
        }
    }
}

/// The cleanup that spares `current_version_dir`, at its beginning.
pub open spec fn cleanup(current_version_dir: Seq<char>) -> Progress<
    CleanupModel,
    Result<(), Seq<char>>,
> {
    match final_component(current_version_dir) {
        Some(current) => Progress::Ask(CleanupModel::Opening { current }),
        None => Progress::Done(Err(INVALID_DIRECTORY_NAME@)),
    }
}

impl CodebookExtension {
    /// Begins to remove all version directories but `current_version_dir`. Failing to remove one
    /// is warned about; failing to list them is an error.
    pub fn cleanup_old_versions(&self, current_version_dir: &str) -> (res: Progress<
        Cleanup,
        Result<(), String>,
    >)
        ensures
            progress_view(res) == cleanup(current_version_dir@),
            res matches Progress::Ask(next) ==> next.wf(),
    {
        match file_name(current_version_dir) {
            Some(current) => Progress::Ask(Cleanup::Opening { current }),
            None => Progress::Done(Err(INVALID_DIRECTORY_NAME.to_string())),
        }
    }
}

impl Cleanup {
    /// Whatever the cleanup is concerned with is stale.
    pub open spec fn wf(self) -> bool {
        self.deep_view().wf()
    }

    /// What the cleanup waits for.
    pub fn pending(&self) -> (res: Request)
        ensures
            res.deep_view() == self.deep_view().pending(),
    {
        match self {
            Cleanup::Opening { .. } => Request::OpenDirectory(WORK_DIRECTORY.to_string()),
            Cleanup::Scanning { .. } => Request::NextEntry,
            Cleanup::Inspecting { name, .. } => Request::IsDirectory(join(WORK_DIRECTORY, name)),
            Cleanup::Removing { name, .. } => Request::RemoveDirectory(join(WORK_DIRECTORY, name)),
            Cleanup::Warning { name, reason, .. } => Request::Warn(
                REMOVE_FAILED.to_string().concat(name).concat(": ").concat(reason),
            ),
        }
    }

    /// What the cleanup makes of a reply.
    pub fn resume(self, reply: Reply) -> (res: Progress<Cleanup, Result<(), String>>)
        ensures
            progress_view(res) == self.deep_view().step(reply.deep_view()),
            self.wf() ==> (res matches Progress::Ask(next) ==> next.wf()),
    {
        match (self, reply) {
            (Cleanup::Opening { current }, Reply::Outcome(Ok(()))) => Progress::Ask(
                Cleanup::Scanning { current },
            ),
            (Cleanup::Opening { .. }, Reply::Outcome(Err(e))) => Progress::Done(
                Err(READ_DIRECTORY_FAILED.to_string().concat(e.as_str())),
            ),
            (Cleanup::Scanning { .. }, Reply::Entry(None)) => Progress::Done(Ok(())),
            (Cleanup::Scanning { .. }, Reply::Entry(Some(Err(e)))) => Progress::Done(
                Err(READ_ENTRY_FAILED.to_string().concat(e.as_str())),
            ),
            (Cleanup::Scanning { current }, Reply::Entry(Some(Ok(Some(name))))) => {
                let prefix = EXTENSION_LSP_NAME.to_string().concat("-");
                if starts_with(name.as_str(), prefix.as_str()) && name != current {
                    Progress::Ask(Cleanup::Inspecting { current, name })
                } else {
                    Progress::Ask(Cleanup::Scanning { current })
                }
            },
            (Cleanup::Scanning { current }, Reply::Entry(Some(Ok(None)))) => Progress::Ask(
                Cleanup::Scanning { current },
            ),
            (Cleanup::Inspecting { current, name }, Reply::Answer(is_dir)) => {
                if is_dir {
                    Progress::Ask(Cleanup::Removing { current, name })
                } else {
                    Progress::Ask(Cleanup::Scanning { current })
                }
            },
            (Cleanup::Removing { current, .. }, Reply::Outcome(Ok(()))) => Progress::Ask(
                Cleanup::Scanning { current },
            ),
            (Cleanup::Removing { current, name }, Reply::Outcome(Err(reason))) => Progress::Ask(
                Cleanup::Warning { current, name, reason },
            ),
            (Cleanup::Warning { current, .. }, Reply::Done) => Progress::Ask(
                Cleanup::Scanning { current },
            ),
            (machine, _) => Progress::Ask(machine),
        }
    }
}

/// An entry of the work directory, and how the host answers what may be asked about it.
pub struct Listed {
    /// Its name, where the name is valid text.
    pub name: Option<Seq<char>>,
    /// Whether it is a directory.
    pub is_dir: bool,
    /// What removing it comes to.
    pub removal: Result<(), Seq<char>>,
}

impl Listed {
    /// The entry is a directory whose name is stale.
    pub open spec fn to_remove(self, current: Seq<char>) -> bool {
        self.name is Some && is_stale(self.name->0, current) && self.is_dir
    }

    /// The host's replies about the entry.
    pub open spec fn replies(self, current: Seq<char>) -> Seq<ReplyModel> {
        let listed = seq![ReplyModel::Entry(Some(Ok(self.name)))];
        if self.name is Some && is_stale(self.name->0, current) {
            let inspected = listed + seq![ReplyModel::Answer(self.is_dir)];
            if !self.is_dir {
                inspected
            } else if self.removal is Ok {
                inspected + seq![ReplyModel::Outcome(self.removal)]
            } else {
                inspected + seq![ReplyModel::Outcome(self.removal), ReplyModel::Done]
            }
        } else {
            listed
        }
    }

    /// What the host is asked about the entry.
    pub open spec fn requests(self, current: Seq<char>) -> Seq<RequestModel> {
        let listed = seq![RequestModel::NextEntry];
        if self.name is Some && is_stale(self.name->0, current) {
            let path = entry_path(self.name->0);
            let inspected = listed + seq![RequestModel::IsDirectory(path)];
            match self.removal {
                _ if !self.is_dir => inspected,
                Ok(()) => inspected + seq![RequestModel::RemoveDirectory(path)],
                Err(reason) => inspected + seq![
                    RequestModel::RemoveDirectory(path),
                    RequestModel::Warn(remove_warning(self.name->0, reason)),
                ],
            }
        } else {
            listed
        }
    }
}

/// The host's replies about a listing.
pub open spec fn listing_replies(entries: Seq<Listed>, current: Seq<char>) -> Seq<ReplyModel>
    decreases entries.len(),
{
    if entries.len() == 0 {
        seq![]
    } else {
        entries.first().replies(current) + listing_replies(entries.drop_first(), current)
    }
}

/// What the host is asked about a listing.
pub open spec fn listing_requests(entries: Seq<Listed>, current: Seq<char>) -> Seq<RequestModel>
    decreases entries.len(),
{
    if entries.len() == 0 {
        seq![]
    } else {
        entries.first().requests(current) + listing_requests(entries.drop_first(), current)
    }
}

proof fn lemma_entry(entry: Listed, current: Seq<char>, rest: Seq<ReplyModel>)
    ensures
        ({
            let start = Progress::Ask(CleanupModel::Scanning { current });
            let replies = entry.replies(current) + rest;
            &&& run(start, replies) == run(start, rest)
            &&& asked(start, replies) == entry.requests(current) + asked(start, rest)
            &&& in_order(start, replies) <==> in_order(start, rest)
        }),
{
    reveal_with_fuel(run, 5);
    reveal_with_fuel(asked, 5);
    reveal_with_fuel(in_order, 5);
    let start = Progress::Ask(CleanupModel::Scanning { current });
    let replies = entry.replies(current) + rest;
    let after1 = replies.drop_first();
    let after2 = after1.drop_first();
    let after3 = after2.drop_first();
    let after4 = after3.drop_first();
    if entry.name is Some && is_stale(entry.name->0, current) {
        if !entry.is_dir {
            assert(after2 =~= rest);
        } else if entry.removal is Ok {
            assert(after3 =~= rest);
        } else {
            assert(after4 =~= rest);
        }
    } else {
        assert(after1 =~= rest);
    }
    assert(asked(start, replies) =~= entry.requests(current) + asked(start, rest));
}

proof fn lemma_listing(entries: Seq<Listed>, current: Seq<char>, rest: Seq<ReplyModel>)
    ensures
        ({
            let start = Progress::Ask(CleanupModel::Scanning { current });
            let replies = listing_replies(entries, current) + rest;
            &&& run(start, replies) == run(start, rest)
            &&& asked(start, replies) == listing_requests(entries, current) + asked(start, rest)
            &&& in_order(start, replies) <==> in_order(start, rest)
        }),
    decreases entries.len(),
{
    let start = Progress::Ask(CleanupModel::Scanning { current });
    let replies = listing_replies(entries, current) + rest;
    if entries.len() == 0 {
        assert(replies =~= rest);
        assert(listing_requests(entries, current) + asked(start, rest) =~= asked(start, rest));
    } else {
        let tail = listing_replies(entries.drop_first(), current) + rest;
        assert(replies =~= entries.first().replies(current) + tail);
        lemma_entry(entries.first(), current, tail);
        lemma_listing(entries.drop_first(), current, rest);
        assert(asked(start, replies) =~= listing_requests(entries, current) + asked(start, rest));
    }
}

/// A listing that can be read to its end is cleaned up, and that succeeds whatever becomes of the
/// removals: of each entry in turn the host is asked what [`Listed::requests`] says.
pub proof fn law_cleanup_covers_listing(entries: Seq<Listed>, current: Seq<char>)
    ensures
        ({
            let start = Progress::Ask(CleanupModel::Opening { current });
            let replies = seq![ReplyModel::Outcome(Ok(()))] + listing_replies(entries, current)
                + seq![ReplyModel::Entry(None)];
            &&& in_order(start, replies)
            &&& run(start, replies) == Progress::<CleanupModel, _>::Done(Ok::<_, Seq<char>>(()))
            &&& asked(start, replies) == seq![RequestModel::OpenDirectory(WORK_DIRECTORY@)]
                + listing_requests(entries, current) + seq![RequestModel::NextEntry]
        }),
{
    lemma_listing_ends(entries, current, None);
}

/// An entry that cannot be read ends the cleanup with an error; what came before it is cleaned up.
pub proof fn law_cleanup_stops_at_unreadable_entry(
    entries: Seq<Listed>,
    current: Seq<char>,
    error: Seq<char>,
)
    ensures
        ({
            let start = Progress::Ask(CleanupModel::Opening { current });
            let replies = seq![ReplyModel::Outcome(Ok(()))] + listing_replies(entries, current)
                + seq![ReplyModel::Entry(Some(Err(error)))];
            &&& in_order(start, replies)
            &&& run(start, replies) == Progress::<CleanupModel, _>::Done(
                Err::<(), _>(READ_ENTRY_FAILED@ + error),
            )
            &&& asked(start, replies) == seq![RequestModel::OpenDirectory(WORK_DIRECTORY@)]
                + listing_requests(entries, current) + seq![RequestModel::NextEntry]
        }),
{
    lemma_listing_ends(entries, current, Some(Err(error)));
}

proof fn lemma_listing_ends(
    entries: Seq<Listed>,
    current: Seq<char>,
    end: Option<Result<Option<Seq<char>>, Seq<char>>>,
)
    requires
        end is None || end->0 is Err,
    ensures
        ({
            let start = Progress::Ask(CleanupModel::Opening { current });
            let replies = seq![ReplyModel::Outcome(Ok(()))] + listing_replies(entries, current)
                + seq![ReplyModel::Entry(end)];
            &&& in_order(start, replies)
            &&& run(start, replies) == CleanupModel::Scanning { current }.step(
                ReplyModel::Entry(end),
            )
            &&& asked(start, replies) == seq![RequestModel::OpenDirectory(WORK_DIRECTORY@)]
                + listing_requests(entries, current) + seq![RequestModel::NextEntry]
        }),
{
    reveal_with_fuel(run, 2);
    reveal_with_fuel(asked, 2);
    reveal_with_fuel(in_order, 2);
    let start = Progress::Ask(CleanupModel::Opening { current });
    let scanning = Progress::Ask(CleanupModel::Scanning { current });
    let last = seq![ReplyModel::Entry(end)];
    let rest = listing_replies(entries, current) + last;
    let replies = seq![ReplyModel::Outcome(Ok(()))] + listing_replies(entries, current) + last;
    lemma_listing(entries, current, last);
    assert(replies.drop_first() =~= rest);
    assert(last.drop_first() =~= seq![]);
    assert(asked(scanning, last) =~= seq![RequestModel::NextEntry]);
    assert(asked(start, replies) =~= seq![RequestModel::OpenDirectory(WORK_DIRECTORY@)]
        + listing_requests(entries, current) + seq![RequestModel::NextEntry]);
}

/// Of a listing, exactly the directories with a stale name are removed.
pub proof fn law_cleanup_removes_every_stale_directory(
    entries: Seq<Listed>,
    current: Seq<char>,
    path: Seq<char>,
)
    ensures
        listing_requests(entries, current).contains(RequestModel::RemoveDirectory(path))
            <==> exists|i: int|
            0 <= i < entries.len() && (#[trigger] entries[i]).to_remove(current) && path
                == entry_path(entries[i].name->0),
    decreases entries.len(),
{
    let request = RequestModel::RemoveDirectory(path);
    let requests = listing_requests(entries, current);
    if entries.len() > 0 {
        let head = entries.first();
        let tail = entries.drop_first();
        law_cleanup_removes_every_stale_directory(tail, current, path);
        let heads = head.requests(current);
        let tails = listing_requests(tail, current);
        assert(heads.contains(request) <==> head.to_remove(current) && path == entry_path(
            head.name->0,
        )) by {
            if head.to_remove(current) {
                assert(heads[2] == RequestModel::RemoveDirectory(entry_path(head.name->0)));
            }
        }
        if requests.contains(request) {
            let k = choose|k: int| 0 <= k < requests.len() && requests[k] == request;
            if k < heads.len() {
                assert(heads[k] == request);
                assert(entries[0].to_remove(current));
            } else {
                assert(tails[k - heads.len()] == request);
                let i = choose|i: int|
                    0 <= i < tail.len() && (#[trigger] tail[i]).to_remove(current) && path
                        == entry_path(tail[i].name->0);
                assert(entries[i + 1] == tail[i]);
            }
        }
        if exists|i: int|
            0 <= i < entries.len() && (#[trigger] entries[i]).to_remove(current) && path
                == entry_path(entries[i].name->0) {
            let i = choose|i: int|
                0 <= i < entries.len() && (#[trigger] entries[i]).to_remove(current) && path
                    == entry_path(entries[i].name->0);
            if i == 0 {
                let k = choose|k: int| 0 <= k < heads.len() && heads[k] == request;
                assert(requests[k] == request);
            } else {
                assert(tail[i - 1] == entries[i]);
                let k = choose|k: int| 0 <= k < tails.len() && tails[k] == request;
                assert(requests[heads.len() + k] == request);
            }
        }
    }
}

/// Whatever the host replies, a cleanup only removes what is stale.
pub proof fn law_cleanup_removes_only_stale(
    machine: CleanupModel,
    replies: Seq<ReplyModel>,
    i: int,
)
    requires
        machine.wf(),
        0 <= i < asked(Progress::Ask(machine), replies).len(),
        asked(Progress::Ask(machine), replies)[i] is RemoveDirectory,
    ensures
        exists|name: Seq<char>|
            is_stale(name, machine.current()) && asked(Progress::Ask(machine), replies)[i]
                == RequestModel::RemoveDirectory(#[trigger] entry_path(name)),
    decreases replies.len(),
{
    reveal_with_fuel(asked, 2);
    let requests = asked(Progress::Ask(machine), replies);
    if i == 0 {
        let name = machine->Removing_name;
        assert(requests[0] == RequestModel::RemoveDirectory(entry_path(name)));
    } else {
        match machine.step(replies.first()) {
            Progress::Ask(next) => {
                assert(requests[i] == asked(Progress::Ask(next), replies.drop_first())[i - 1]);
                law_cleanup_removes_only_stale(next, replies.drop_first(), i - 1);
            },
            Progress::Done(_) => {},
        }
    }
}

/// A cleanup sets out to remove something only after the host has called it a directory.
pub proof fn law_cleanup_removes_only_directories(machine: CleanupModel, reply: ReplyModel)
    requires
        machine !is Removing,
        machine.step(reply) matches Progress::Ask(next) && next is Removing,
    ensures
        machine is Inspecting,
        machine.pending() == RequestModel::IsDirectory(entry_path(machine->Inspecting_name)),
        reply == ReplyModel::Answer(true),
        machine.step(reply)->Ask_0->Removing_name == machine->Inspecting_name,
{
}

/// A cleanup under way fails only when the work directory or an entry of it cannot be read; that a
/// directory cannot be removed is no failure.
pub proof fn law_cleanup_fails_only_on_listing(machine: CleanupModel, reply: ReplyModel)
    requires
        machine.step(reply) matches Progress::Done(outcome) && outcome is Err,
    ensures
        ({
            let error = machine.step(reply)->Done_0->Err_0;
            match (machine, reply) {
                (CleanupModel::Opening { .. }, ReplyModel::Outcome(Err(e))) => error
                    == READ_DIRECTORY_FAILED@ + e,
                (CleanupModel::Scanning { .. }, ReplyModel::Entry(Some(Err(e)))) => error
                    == READ_ENTRY_FAILED@ + e,
                _ => false,
            }
        }),
{
}

/// The directory of a version without `/` is spared by the cleanup made for it, and the directory
/// of every other version is stale to it.
pub proof fn law_cleanup_spares_current_version(version: Seq<char>, other: Seq<char>)
    requires
        !version.contains('/'),
        other != version,
    ensures
        cleanup(version_directory(version)) == Progress::<_, Result<(), Seq<char>>>::Ask(
            CleanupModel::Opening { current: version_directory(version) },
        ),
        !is_stale(version_directory(version), version_directory(version)),
        is_stale(version_directory(other), version_directory(version)),
{
    reveal_strlit("codebook-lsp");
    reveal_strlit("-");
    let dir = version_directory(version);
    assert(!dir.contains('/')) by {
        if dir.contains('/') {
            let i = choose|i: int| 0 <= i < dir.len() && dir[i] == '/';
            assert(i >= 13 && version[i - 13] == '/');
        }
    }
    assert(dir.len() >= 13);
    law_single_component_is_final(dir);
    let prefix = EXTENSION_LSP_NAME@ + "-"@;
    assert(prefix =~= version_directory(other).subrange(0, 13));
    law_version_directory_injective(version, other);
}

/// Different versions have different directories.
pub proof fn law_version_directory_injective(version1: Seq<char>, version2: Seq<char>)
    requires
        version1 != version2,
    ensures
        version_directory(version1) != version_directory(version2),
{
    let prefix = EXTENSION_LSP_NAME@ + "-"@;
    let n = prefix.len() as int;
    assert(version_directory(version1).skip(n) =~= version1);
    assert(version_directory(version2).skip(n) =~= version2);
}

/// Neither a development binary nor the version file is ever stale.
pub proof fn law_cleanup_spares_other_files(current: Seq<char>)
    ensures
        !is_stale(EXTENSION_LSP_NAME@, current),
        !is_stale(VERSION_FILE@, current),
{
    reveal_strlit("codebook-lsp");
    reveal_strlit("-");
    reveal_strlit(".version");
}

/// Whatever the host replies, the cleanup made for a version without `/` never removes that
/// version's directory.
pub proof fn law_cleanup_never_removes_current_version(
    version: Seq<char>,
    replies: Seq<ReplyModel>,
)
    requires
        !version.contains('/'),
    ensures
        !asked(cleanup(version_directory(version)), replies).contains(
            RequestModel::RemoveDirectory(entry_path(version_directory(version))),
        ),
{
    let dir = version_directory(version);
    let request = RequestModel::RemoveDirectory(entry_path(dir));
    let requests = asked(cleanup(dir), replies);
    law_cleanup_spares_current_version(version, version.push('0'));
    if requests.contains(request) {
        let i = choose|i: int| 0 <= i < requests.len() && requests[i] == request;
        law_cleanup_removes_only_stale(CleanupModel::Opening { current: dir }, replies, i);
        let name = choose|name: Seq<char>|
            is_stale(name, dir) && request == RequestModel::RemoveDirectory(
                #[trigger] entry_path(name),
            );
        lemma_entry_path_injective(name, dir);
    }
}

proof fn lemma_entry_path_injective(name1: Seq<char>, name2: Seq<char>)
    requires
        (EXTENSION_LSP_NAME@ + "-"@).is_prefix_of(name1),
        (EXTENSION_LSP_NAME@ + "-"@).is_prefix_of(name2),
        entry_path(name1) == entry_path(name2),
    ensures
        name1 == name2,
{
    reveal_strlit("codebook-lsp");
    reveal_strlit("-");
    reveal_strlit(".");
    let prefix = EXTENSION_LSP_NAME@ + "-"@;
    assert(name1[0] == prefix[0] && name2[0] == prefix[0]);
    assert(entry_path(name1).skip(2) =~= name1);
    assert(entry_path(name2).skip(2) =~= name2);
}

/// A name is stale if it starts with `codebook-lsp-` and is not the current one; its path is the
/// name in the work directory.
pub proof fn law_stale_names(name: Seq<char>, current: Seq<char>)
    ensures
        is_stale(name, current) <==> "codebook-lsp-"@.is_prefix_of(name) && name != current,
        "codebook-lsp-"@.is_prefix_of(name) ==> entry_path(name) == "./"@ + name,
{
    reveal_strlit("codebook-lsp");
    reveal_strlit("-");
    reveal_strlit("codebook-lsp-");
    reveal_strlit(".");
    reveal_strlit("./");
    assert("codebook-lsp"@ + "-"@ =~= "codebook-lsp-"@);
    if "codebook-lsp-"@.is_prefix_of(name) {
        assert(name[0] == name.subrange(0, 13)[0]);
        assert(entry_path(name) =~= "./"@ + name);
    }
}

/// A cleanup begins by opening the work directory, and spares what the directory given ends in; if
/// that has no name, or the work directory cannot be opened, it fails.
pub proof fn law_cleanup_begins(dir: Seq<char>, current: Seq<char>, e: Seq<char>)
    ensures
        final_component(dir) is None ==> cleanup(dir) == Progress::<CleanupModel, _>::Done(
            Err::<(), _>("Invalid version directory name"@),
        ),
        final_component(dir) == Some(current) ==> {
            &&& asked(cleanup(dir), seq![ReplyModel::Outcome(Ok(()))]) == seq![
                RequestModel::OpenDirectory("."@),
            ]
            &&& run(cleanup(dir), seq![ReplyModel::Outcome(Ok(()))]) == Progress::<
                _,
                Result<(), Seq<char>>,
            >::Ask(CleanupModel::Scanning { current })
            &&& run(cleanup(dir), seq![ReplyModel::Outcome(Err(e))]) == Progress::<
                CleanupModel,
                _,
            >::Done(Err::<(), _>("Failed to read directory: "@ + e))
        },
{
    if let Some(name) = final_component(dir) {
        let opening = CleanupModel::Opening { current: name };
        law_conversation_steps(opening, Ok(()), ReplyModel::Outcome(Ok(())), seq![]);
        law_conversation_steps(opening, Ok(()), ReplyModel::Outcome(Err(e)), seq![]);
    }
}

/// The listing ends the cleanup: with success after its last entry, and with an error at an entry
/// that cannot be read.
pub proof fn law_cleanup_ends(current: Seq<char>, e: Seq<char>)
    ensures
        ({
            let start = Progress::Ask(CleanupModel::Scanning { current });
            &&& asked(start, seq![ReplyModel::Entry(None)]) == seq![RequestModel::NextEntry]
            &&& run(start, seq![ReplyModel::Entry(None)]) == Progress::<CleanupModel, _>::Done(
                Ok::<_, Seq<char>>(()),
            )
            &&& run(start, seq![ReplyModel::Entry(Some(Err(e)))]) == Progress::<
                CleanupModel,
                _,
            >::Done(Err::<(), _>("Failed to read directory entry: "@ + e))
        }),
{
    let scanning = CleanupModel::Scanning { current };
    law_conversation_steps(scanning, Ok(()), ReplyModel::Entry(None), seq![]);
    law_conversation_steps(scanning, Ok(()), ReplyModel::Entry(Some(Err(e))), seq![]);
}

/// Nothing is asked about an entry whose name is not valid text, does not start with
/// `codebook-lsp-`, or is the current one.
pub proof fn law_cleanup_passes_over(current: Seq<char>, name: Seq<char>)
    ensures
        ({
            let start = Progress::Ask(CleanupModel::Scanning { current });
            &&& run(start, seq![ReplyModel::Entry(Some(Ok(None)))]) == Progress::<
                _,
                Result<(), Seq<char>>,
            >::Ask(CleanupModel::Scanning { current })
            &&& !"codebook-lsp-"@.is_prefix_of(name) || name == current ==> run(
                start,
                seq![ReplyModel::Entry(Some(Ok(Some(name))))],
            ) == Progress::<_, Result<(), Seq<char>>>::Ask(CleanupModel::Scanning { current })
        }),
{
    let scanning = CleanupModel::Scanning { current };
    law_stale_names(name, current);
    law_conversation_steps(scanning, Ok(()), ReplyModel::Entry(Some(Ok(None))), seq![]);
    law_conversation_steps(scanning, Ok(()), ReplyModel::Entry(Some(Ok(Some(name)))), seq![]);
}

/// Every other entry is removed if it is a directory; that it could not be removed is warned about;
/// and in any case the listing goes on.
pub proof fn law_cleanup_removes_directory(
    current: Seq<char>,
    name: Seq<char>,
    reason: Seq<char>,
)
    requires
        "codebook-lsp-"@.is_prefix_of(name),
        name != current,
    ensures
        ({
            let start = Progress::Ask(CleanupModel::Scanning { current });
            let listed = ReplyModel::Entry(Some(Ok(Some(name))));
            let file = seq![listed, ReplyModel::Answer(false)];
            let removed = seq![listed, ReplyModel::Answer(true), ReplyModel::Outcome(Ok(()))];
            let kept = seq![
                listed,
                ReplyModel::Answer(true),
                ReplyModel::Outcome(Err(reason)),
                ReplyModel::Done,
            ];
            &&& run(start, file) == start
            &&& asked(start, file) == seq![
                RequestModel::NextEntry,
                RequestModel::IsDirectory("./"@ + name),
            ]
            &&& run(start, removed) == start
            &&& asked(start, removed) == seq![
                RequestModel::NextEntry,
                RequestModel::IsDirectory("./"@ + name),
                RequestModel::RemoveDirectory("./"@ + name),
            ]
            &&& run(start, kept) == start
            &&& asked(start, kept) == seq![
                RequestModel::NextEntry,
                RequestModel::IsDirectory("./"@ + name),
                RequestModel::RemoveDirectory("./"@ + name),
                RequestModel::Warn(
                    "Warning: Failed to remove old version directory "@ + name + ": "@ + reason,
                ),
            ]
        }),
{
    reveal_with_fuel(run, 5);
    reveal_with_fuel(asked, 5);
    law_stale_names(name, current);
    let start = Progress::Ask(CleanupModel::Scanning { current });
    let listed = ReplyModel::Entry(Some(Ok(Some(name))));
    let file = seq![listed, ReplyModel::Answer(false)];
    let removed = seq![listed, ReplyModel::Answer(true), ReplyModel::Outcome(Ok(()))];
    let kept = seq![
        listed,
        ReplyModel::Answer(true),
        ReplyModel::Outcome(Err(reason)),
        ReplyModel::Done,
    ];
    assert(asked(start, file) =~= seq![
        RequestModel::NextEntry,
        RequestModel::IsDirectory("./"@ + name),
    ]);
    assert(asked(start, removed) =~= seq![
        RequestModel::NextEntry,
        RequestModel::IsDirectory("./"@ + name),
        RequestModel::RemoveDirectory("./"@ + name),
    ]);
    assert(asked(start, kept) =~= seq![
        RequestModel::NextEntry,
        RequestModel::IsDirectory("./"@ + name),
        RequestModel::RemoveDirectory("./"@ + name),
        RequestModel::Warn(
            "Warning: Failed to remove old version directory "@ + name + ": "@ + reason,
        ),
    ]);
}

/// A reply of the wrong kind changes nothing.
pub proof fn law_cleanup_ignores_stray_replies(cleanup: CleanupModel, reply: ReplyModel)
    requires
        cleanup is Opening || cleanup is Removing ==> reply !is Outcome,
        cleanup is Scanning ==> reply !is Entry,
        cleanup is Inspecting ==> reply !is Answer,
        cleanup is Warning ==> reply !is Done,
    ensures
        cleanup.step(reply) == Progress::<_, Result<(), Seq<char>>>::Ask(cleanup),
{
}

} // verus!

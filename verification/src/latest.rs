//! Making sure that the latest release is installed.

use vstd::prelude::*;

use crate::binary::{law_released_binary, BinaryModel, CodebookBinary};
use crate::existing::{
    binary_path, law_lookup, law_lookup_finds_recorded_version, lookup_outcome, lookup_replies,
    Lookup, LookupModel,
};
use crate::extension::{CodebookExtension, VERSION_FILE};
use crate::host::{
    asked, in_order, law_conversation_splits, result_view, run, InstallationStatus, Machine,
    Progress, ReadFailureModel, Reply, ReplyModel, Request, RequestModel, StatusModel,
};
use crate::install::{
    law_install_stays_with_release, platform_is, Delivery, DeliveryModel, InstallModel,
    INSTALL_FAILED,
};
use crate::platform::{Architecture, Os};
use crate::release::{GithubRelease, ReleaseModel};
use crate::text::{is_trimmed, law_trim_fixed_points, trimmed};
use crate::update::{
    answered, failed_requests, law_first_answer_decides, law_last_error_reported,
    law_recorded_version_is_current, release_request, unanswered, update_check, UpdateCheck,
    UpdateCheckModel, MAX_ATTEMPTS,
};

verus! {

/// What precedes the reason why GitHub could not be asked, when nothing is installed either.
pub const UPDATE_CHECK_FAILED: &'static str =
    "Could not contact GitHub to check for the latest release \
    and no cached binary is available. Check that github.com \
    is reachable. Underlying error: ";

/// The way to the latest binary, waiting for the host.
#[derive(Debug, PartialEq, Eq)]
pub enum Latest {
    /// For the editor to show that updates are looked for.
    Announcing,
    /// For what `check` waits for.
    Checking { check: UpdateCheck },
    /// For the editor to show that `release` is being downloaded.
    Preparing { release: GithubRelease },
    /// For what `delivery` waits for.
    Delivering { delivery: Delivery },
    /// For what `lookup` waits for; `update_error` is why the check for updates failed, if it did.
    Loading { lookup: Lookup, update_error: Option<String> },
    /// For the editor to show nothing any more.
    Settling { binary: CodebookBinary },
}

/// The delivery of `release`, at its beginning.
pub open spec fn delivery(release: ReleaseModel) -> DeliveryModel {
    DeliveryModel::Installing { install: InstallModel::Choosing { release } }
}

/// What a [`Latest`] stands for, apart from the extension's state.
pub enum LatestPhase {
    Announcing,
    Checking { check: UpdateCheckModel },
    Preparing { release: ReleaseModel },
    Delivering { delivery: DeliveryModel },
    Loading { lookup: LookupModel, update_error: Option<Seq<char>> },
    Settling { binary: BinaryModel },
}

/// What a [`Latest`] and the extension's state stand for.
pub struct LatestModel {
    /// Path of the binary that was found last.
    pub cache: Option<Seq<char>>,
    pub phase: LatestPhase,
}

impl DeepView for Latest {
    type V = LatestPhase;

    open spec fn deep_view(&self) -> LatestPhase {
        match self {
            Latest::Announcing => LatestPhase::Announcing,
            Latest::Checking { check } => LatestPhase::Checking { check: check.deep_view() },
            Latest::Preparing { release } => LatestPhase::Preparing {
                release: release.deep_view(),
            },
            Latest::Delivering { delivery } => LatestPhase::Delivering {
                delivery: delivery.deep_view(),
            },
            Latest::Loading { lookup, update_error } => LatestPhase::Loading {
                lookup: lookup.deep_view(),
                update_error: update_error.deep_view(),
            },
            Latest::Settling { binary } => LatestPhase::Settling { binary: binary.deep_view() },
        }
    }
}

/// What the search comes to: the state that the extension is left in, and the result.
pub type LatestOutcome = (Option<Seq<char>>, Result<BinaryModel, Seq<char>>);

/// What progress and the extension's state stand for.
pub open spec fn latest_view(
    extension: CodebookExtension,
    progress: Progress<Latest, Result<CodebookBinary, String>>,
) -> Progress<LatestModel, LatestOutcome> {
    match progress {
        Progress::Ask(machine) => Progress::Ask(machine.model(extension)),
        Progress::Done(outcome) => Progress::Done((extension.deep_view(), result_view(outcome))),
    }
}

/// A result ends the search; a binary is remembered, and the editor's status cleared first.
pub open spec fn settle(
    cache: Option<Seq<char>>,
    result: Result<BinaryModel, Seq<char>>,
) -> Progress<LatestModel, LatestOutcome> {
    match result {
        Ok(binary) => Progress::Ask(
            LatestModel { cache: Some(binary.path), phase: LatestPhase::Settling { binary } },
        ),
        Err(e) => Progress::Done((cache, Err(e))),
    }
}

/// How the search goes on when the check for updates has come to `check`: to the installation of
/// an update, or else to what is installed already.
pub open spec fn after_check(
    cache: Option<Seq<char>>,
    check: Progress<UpdateCheckModel, Result<Option<ReleaseModel>, Seq<char>>>,
) -> Progress<LatestModel, LatestOutcome> {
    let phase = match check {
        Progress::Ask(check) => LatestPhase::Checking { check },
        Progress::Done(Ok(Some(release))) => LatestPhase::Preparing { release },
        Progress::Done(Ok(None)) => LatestPhase::Loading {
            lookup: LookupModel::ReadingVersion,
            update_error: None,
        },
        Progress::Done(Err(e)) => LatestPhase::Loading {
            lookup: LookupModel::ReadingVersion,
            update_error: Some(e),
        },
    };
    Progress::Ask(LatestModel { cache, phase })
}

/// How the search goes on when the delivery of an update has come to `delivery`.
pub open spec fn after_delivery(
    cache: Option<Seq<char>>,
    delivery: Progress<DeliveryModel, Result<BinaryModel, Seq<char>>>,
) -> Progress<LatestModel, LatestOutcome> {
    match delivery {
        Progress::Ask(delivery) => Progress::Ask(
            LatestModel { cache, phase: LatestPhase::Delivering { delivery } },
        ),
        Progress::Done(result) => settle(cache, result),
    }
}

/// The result of loading what is installed, given where it was found: if it was not, then a failed
/// check for updates is what there is to complain about.
pub open spec fn loaded(
    path: Result<Seq<char>, Seq<char>>,
    update_error: Option<Seq<char>>,
) -> Result<BinaryModel, Seq<char>> {
    match (path, update_error) {
        (Ok(path), _) => Ok(BinaryModel::released(path)),
        (Err(_), Some(update_error)) => Err(UPDATE_CHECK_FAILED@ + update_error),
        (Err(e), None) => Err(e),
    }
}

/// How the search goes on when looking for what is installed has come to `lookup`.
pub open spec fn after_lookup(
    cache: Option<Seq<char>>,
    lookup: Progress<LookupModel, Result<Seq<char>, Seq<char>>>,
    update_error: Option<Seq<char>>,
) -> Progress<LatestModel, LatestOutcome> {
    match lookup {
        Progress::Ask(lookup) => Progress::Ask(
            LatestModel { cache, phase: LatestPhase::Loading { lookup, update_error } },
        ),
        Progress::Done(path) => settle(cache, loaded(path, update_error)),
    }
}

impl LatestPhase {
    /// What the search waits for.
    pub open spec fn pending(self) -> RequestModel {
        match self {
            LatestPhase::Announcing => RequestModel::SetStatus(StatusModel::CheckingForUpdate),
            LatestPhase::Checking { check } => check.pending(),
            LatestPhase::Preparing { .. } => RequestModel::SetStatus(StatusModel::Downloading),
            LatestPhase::Delivering { delivery } => delivery.pending(),
            LatestPhase::Loading { lookup, .. } => lookup.pending(),
            LatestPhase::Settling { .. } => RequestModel::SetStatus(StatusModel::Clear),
        }
    }
}

impl Machine for LatestModel {
    type Outcome = LatestOutcome;

    open spec fn pending(self) -> RequestModel {
        self.phase.pending()
    }

    open spec fn step(self, reply: ReplyModel) -> Progress<Self, Self::Outcome> {
        let cache = self.cache;
        match (self.phase, reply) {
            (LatestPhase::Announcing, ReplyModel::Done) => after_check(
                cache,
                Progress::Ask(update_check()),
            ),
            (LatestPhase::Checking { check }, reply) => after_check(cache, check.step(reply)),
            (LatestPhase::Preparing { release }, ReplyModel::Done) => after_delivery(
                cache,
                Progress::Ask(delivery(release)),
            ),
            (LatestPhase::Delivering { delivery }, reply) => after_delivery(
                cache,
                delivery.step(reply),
            ),
            (LatestPhase::Loading { lookup, update_error }, reply) => after_lookup(
                cache,
                lookup.step(reply),
                update_error,
            ),
            (LatestPhase::Settling { binary }, ReplyModel::Done) => Progress::Done(
                (cache, Ok(binary)),
            ),
            _ => Progress::Ask(self),
        }
    }
}

impl LatestModel {
    /// What is under way is well-formed, and a binary that is about to be returned is remembered.
    pub open spec fn wf(self) -> bool {
        match self.phase {
            LatestPhase::Checking { check } => check.wf(),
            LatestPhase::Delivering { delivery } => delivery.wf(),
            LatestPhase::Settling { binary } => self.cache == Some(binary.path),
            _ => true,
        }
    }
}

impl CodebookExtension {
    /// Begins to look for the latest binary: a newer release is installed; without one, or when
    /// GitHub cannot be asked, what is installed already is taken. A binary found this way is
    /// remembered.
    pub fn ensure_latest_binary(&self) -> (res: Latest)
        ensures
            res.deep_view() == LatestPhase::Announcing,
            res.wf(*self),
    {
        Latest::Announcing
    }

    /// Ends the search for the latest binary with `result`.
    fn settle(&mut self, result: Result<CodebookBinary, String>) -> (res: Progress<
        Latest,
        Result<CodebookBinary, String>,
    >)
        ensures
            latest_view(*final(self), res) == settle(old(self).deep_view(), result_view(result)),
    {
        match result {
            Ok(binary) => {
                self.binary_cache = Some(binary.path.clone());
                Progress::Ask(Latest::Settling { binary })
            },
            Err(e) => Progress::Done(Err(e)),
        }
    }
}

impl Latest {
    /// What the search and the extension's state stand for.
    pub open spec fn model(self, extension: CodebookExtension) -> LatestModel {
        LatestModel { cache: extension.deep_view(), phase: self.deep_view() }
    }

    /// What is under way is well-formed, and a binary that is about to be returned is remembered.
    pub open spec fn wf(self, extension: CodebookExtension) -> bool {
        self.model(extension).wf()
    }

    /// What the search waits for.
    pub fn pending(&self) -> (res: Request)
        ensures
            res.deep_view() == self.deep_view().pending(),
    {
        match self {
            Latest::Announcing => Request::SetStatus(InstallationStatus::CheckingForUpdate),
            Latest::Checking { check } => check.pending(),
            Latest::Preparing { .. } => Request::SetStatus(InstallationStatus::Downloading),
            Latest::Delivering { delivery } => delivery.pending(),
            Latest::Loading { lookup, .. } => lookup.pending(),
            Latest::Settling { .. } => Request::SetStatus(InstallationStatus::Clear),
        }
    }

    /// What the search makes of a reply.
    pub fn resume(self, extension: &mut CodebookExtension, reply: Reply) -> (res: Progress<
        Latest,
        Result<CodebookBinary, String>,
    >)
        requires
            self.wf(*old(extension)),
        ensures
            latest_view(*final(extension), res) == self.model(*old(extension)).step(
                reply.deep_view(),
            ),
            res matches Progress::Ask(next) ==> next.wf(*final(extension)),
    {
        match (self, reply) {
            (Latest::Announcing, Reply::Done) => {
                let check = extension.check_for_update();
                Progress::Ask(Latest::Checking { check })
            },
            (Latest::Checking { check }, reply) => match check.resume(extension, reply) {
                Progress::Ask(check) => Progress::Ask(Latest::Checking { check }),
                Progress::Done(Ok(Some(release))) => Progress::Ask(Latest::Preparing { release }),
                Progress::Done(Ok(None)) => {
                    let lookup = extension.get_cached_binary_path();
                    Progress::Ask(Latest::Loading { lookup, update_error: None })
                },
                Progress::Done(Err(update_err)) => {
                    let lookup = extension.get_cached_binary_path();
                    Progress::Ask(Latest::Loading { lookup, update_error: Some(update_err) })
                },
            },
            (Latest::Preparing { release }, Reply::Done) => {
                let delivery = extension.download_and_install_binary(release);
                Progress::Ask(Latest::Delivering { delivery })
            },
            (Latest::Delivering { delivery }, reply) => match delivery.resume(extension, reply) {
                Progress::Ask(delivery) => Progress::Ask(Latest::Delivering { delivery }),
                Progress::Done(result) => extension.settle(result),
            },
            (Latest::Loading { lookup, update_error }, reply) => {
                match lookup.resume(extension, reply) {
                    Progress::Ask(lookup) => Progress::Ask(Latest::Loading { lookup, update_error }),
                    Progress::Done(path) => {
                        let result = match (extension.load_existing_binary(path), update_error) {
                            (Ok(binary), _) => Ok(binary),
                            (Err(_), Some(update_err)) => Err(
                                UPDATE_CHECK_FAILED.to_string().concat(update_err.as_str()),
                            ),
                            (Err(e), None) => Err(e),
                        };
                        extension.settle(result)
                    },
                }
            },
            (Latest::Settling { binary }, Reply::Done) => Progress::Done(Ok(binary)),
            (machine, _) => Progress::Ask(machine),
        }
    }
}

/// A check for updates within the search goes as it goes alone.
proof fn lemma_checking(
    cache: Option<Seq<char>>,
    check: UpdateCheckModel,
    replies: Seq<ReplyModel>,
)
    requires
        in_order(Progress::Ask(check), replies),
    ensures
        ({
            let start = after_check(cache, Progress::Ask(check));
            &&& in_order(start, replies)
            &&& run(start, replies) == after_check(cache, run(Progress::Ask(check), replies))
            &&& asked(start, replies) == asked(Progress::Ask(check), replies)
        }),
    decreases replies.len(),
{
    if replies.len() > 0 {
        reveal_with_fuel(run, 2);
        reveal_with_fuel(asked, 2);
        reveal_with_fuel(in_order, 2);
        match check.step(replies.first()) {
            Progress::Ask(next) => {
                lemma_checking(cache, next, replies.drop_first());
            },
            Progress::Done(_) => {
                assert(replies.drop_first() =~= seq![]);
            },
        }
    }
}

/// A delivery within the search goes as it goes alone.
proof fn lemma_delivering(
    cache: Option<Seq<char>>,
    delivery: DeliveryModel,
    replies: Seq<ReplyModel>,
)
    requires
        in_order(Progress::Ask(delivery), replies),
    ensures
        ({
            let start = after_delivery(cache, Progress::Ask(delivery));
            &&& in_order(start, replies)
            &&& run(start, replies) == after_delivery(cache, run(Progress::Ask(delivery), replies))
            &&& asked(start, replies) == asked(Progress::Ask(delivery), replies)
        }),
    decreases replies.len(),
{
    if replies.len() > 0 {
        reveal_with_fuel(run, 2);
        reveal_with_fuel(asked, 2);
        reveal_with_fuel(in_order, 2);
        match delivery.step(replies.first()) {
            Progress::Ask(next) => {
                lemma_delivering(cache, next, replies.drop_first());
            },
            Progress::Done(_) => {
                assert(replies.drop_first() =~= seq![]);
            },
        }
    }
}

/// Looking for what is installed goes within the search as it goes alone.
proof fn lemma_loading(
    cache: Option<Seq<char>>,
    lookup: LookupModel,
    update_error: Option<Seq<char>>,
    replies: Seq<ReplyModel>,
)
    requires
        in_order(Progress::Ask(lookup), replies),
    ensures
        ({
            let start = after_lookup(cache, Progress::Ask(lookup), update_error);
            &&& in_order(start, replies)
            &&& run(start, replies) == after_lookup(
                cache,
                run(Progress::Ask(lookup), replies),
                update_error,
            )
            &&& asked(start, replies) == asked(Progress::Ask(lookup), replies)
        }),
    decreases replies.len(),
{
    if replies.len() > 0 {
        reveal_with_fuel(run, 2);
        reveal_with_fuel(asked, 2);
        reveal_with_fuel(in_order, 2);
        match lookup.step(replies.first()) {
            Progress::Ask(next) => {
                lemma_loading(cache, next, update_error, replies.drop_first());
            },
            Progress::Done(_) => {
                assert(replies.drop_first() =~= seq![]);
            },
        }
    }
}

/// The replies that end the search once its result is known: to clearing the editor's status, if
/// there is a binary.
pub open spec fn settled_replies(result: Result<BinaryModel, Seq<char>>) -> Seq<ReplyModel> {
    if result is Ok {
        seq![ReplyModel::Done]
    } else {
        seq![]
    }
}

/// What the host is asked once the result of the search is known.
pub open spec fn settled_requests(result: Result<BinaryModel, Seq<char>>) -> Seq<RequestModel> {
    if result is Ok {
        seq![RequestModel::SetStatus(StatusModel::Clear)]
    } else {
        seq![]
    }
}

/// What is remembered when the search has come to `result`.
pub open spec fn remembered(
    cache: Option<Seq<char>>,
    result: Result<BinaryModel, Seq<char>>,
) -> Option<Seq<char>> {
    match result {
        Ok(binary) => Some(binary.path),
        Err(_) => cache,
    }
}

proof fn lemma_settle(cache: Option<Seq<char>>, result: Result<BinaryModel, Seq<char>>)
    ensures
        ({
            let start = settle(cache, result);
            let replies = settled_replies(result);
            &&& in_order(start, replies)
            &&& run(start, replies) == Progress::<LatestModel, _>::Done(
                (remembered(cache, result), result),
            )
            &&& asked(start, replies) == settled_requests(result)
        }),
{
    reveal_with_fuel(run, 2);
    reveal_with_fuel(asked, 2);
    reveal_with_fuel(in_order, 2);
    let replies = settled_replies(result);
    if result is Ok {
        assert(replies.drop_first() =~= seq![]);
    }
    assert(asked(settle(cache, result), replies) =~= settled_requests(result));
}

/// The search at its beginning.
pub open spec fn latest(cache: Option<Seq<char>>) -> Progress<LatestModel, LatestOutcome> {
    Progress::Ask(LatestModel { cache, phase: LatestPhase::Announcing })
}

/// The search shows that updates are looked for, and then goes as the check for updates goes.
proof fn lemma_announced(cache: Option<Seq<char>>, checked: Seq<ReplyModel>)
    requires
        in_order(Progress::Ask(update_check()), checked),
    ensures
        ({
            let replies = seq![ReplyModel::Done] + checked;
            &&& in_order(latest(cache), replies)
            &&& run(latest(cache), replies) == after_check(
                cache,
                run(Progress::Ask(update_check()), checked),
            )
            &&& asked(latest(cache), replies) == seq![
                RequestModel::SetStatus(StatusModel::CheckingForUpdate),
            ] + asked(Progress::Ask(update_check()), checked)
        }),
{
    lemma_checking(cache, update_check(), checked);
    let replies = seq![ReplyModel::Done] + checked;
    assert(replies.drop_first() =~= checked);
}

/// What the check for updates comes to when no update is to be installed: nothing, or an error.
pub open spec fn no_update(checked: Result<Option<ReleaseModel>, Seq<char>>) -> bool {
    checked is Ok ==> checked->Ok_0 is None
}

/// Why GitHub could not be asked.
pub open spec fn update_error(checked: Result<Option<ReleaseModel>, Seq<char>>) -> Option<
    Seq<char>,
> {
    match checked {
        Ok(_) => None,
        Err(e) => Some(e),
    }
}

/// Without an update, whether because there is none or because GitHub cannot be asked, the search
/// comes to what is installed. If nothing is, then a failure to ask GitHub is what is reported.
pub proof fn law_latest_without_update(
    cache: Option<Seq<char>>,
    checked: Seq<ReplyModel>,
    outcome: Result<Option<ReleaseModel>, Seq<char>>,
    contents: Result<Seq<char>, ReadFailureModel>,
    os: Os,
    arch: Architecture,
    present: bool,
)
    requires
        in_order(Progress::Ask(update_check()), checked),
        run(Progress::Ask(update_check()), checked) == Progress::<UpdateCheckModel, _>::Done(
            outcome,
        ),
        no_update(outcome),
    ensures
        ({
            let result = loaded(lookup_outcome(contents, os, present), update_error(outcome));
            let lookup = lookup_replies(contents, os, arch, present);
            let replies = seq![ReplyModel::Done] + checked + lookup + settled_replies(result);
            &&& in_order(latest(cache), replies)
            &&& run(latest(cache), replies) == Progress::<LatestModel, _>::Done(
                (remembered(cache, result), result),
            )
            &&& asked(latest(cache), replies) == seq![
                RequestModel::SetStatus(StatusModel::CheckingForUpdate),
            ] + asked(Progress::Ask(update_check()), checked) + asked(
                Progress::Ask(LookupModel::ReadingVersion),
                lookup,
            ) + settled_requests(result)
        }),
{
    let failure = update_error(outcome);
    let path = lookup_outcome(contents, os, present);
    let result = loaded(path, failure);
    let lookup = lookup_replies(contents, os, arch, present);
    let first = seq![ReplyModel::Done] + checked;
    lemma_announced(cache, checked);
    law_lookup(contents, os, arch, present);
    lemma_loading(cache, LookupModel::ReadingVersion, failure, lookup);
    law_conversation_splits(latest(cache), first, lookup);
    lemma_settle(cache, result);
    law_conversation_splits(latest(cache), first + lookup, settled_replies(result));
}

/// When every attempt to ask GitHub fails, the search still comes to what is installed; if nothing
/// is, it fails with GitHub's last error, and not with what is wrong with the version file.
pub proof fn law_latest_offline(
    cache: Option<Seq<char>>,
    errors: Seq<Seq<char>>,
    contents: Result<Seq<char>, ReadFailureModel>,
    os: Os,
    arch: Architecture,
    present: bool,
)
    requires
        errors.len() == MAX_ATTEMPTS,
    ensures
        ({
            let result = match lookup_outcome(contents, os, present) {
                Ok(path) => Ok(BinaryModel::released(path)),
                Err(_) => Err(UPDATE_CHECK_FAILED@ + errors.last()),
            };
            let replies = seq![ReplyModel::Done] + unanswered(errors.drop_last(), errors.last())
                + lookup_replies(contents, os, arch, present) + settled_replies(result);
            &&& in_order(latest(cache), replies)
            &&& run(latest(cache), replies) == Progress::<LatestModel, _>::Done(
                (remembered(cache, result), result),
            )
        }),
{
    law_last_error_reported(errors);
    law_latest_without_update(
        cache,
        unanswered(errors.drop_last(), errors.last()),
        Err(errors.last()),
        contents,
        os,
        arch,
        present,
    );
}

/// An update is delivered, after the editor has been told of the download, and the search comes to
/// what the delivery comes to.
pub proof fn law_latest_with_update(
    cache: Option<Seq<char>>,
    checked: Seq<ReplyModel>,
    release: ReleaseModel,
    delivered: Seq<ReplyModel>,
    result: Result<BinaryModel, Seq<char>>,
)
    requires
        in_order(Progress::Ask(update_check()), checked),
        run(Progress::Ask(update_check()), checked) == Progress::<UpdateCheckModel, _>::Done(
            Ok::<_, Seq<char>>(Some(release)),
        ),
        in_order(Progress::Ask(delivery(release)), delivered),
        run(Progress::Ask(delivery(release)), delivered) == Progress::<DeliveryModel, _>::Done(
            result,
        ),
    ensures
        ({
            let replies = seq![ReplyModel::Done] + checked + seq![ReplyModel::Done] + delivered
                + settled_replies(result);
            &&& in_order(latest(cache), replies)
            &&& run(latest(cache), replies) == Progress::<LatestModel, _>::Done(
                (remembered(cache, result), result),
            )
            &&& asked(latest(cache), replies) == seq![
                RequestModel::SetStatus(StatusModel::CheckingForUpdate),
            ] + asked(Progress::Ask(update_check()), checked) + seq![
                RequestModel::SetStatus(StatusModel::Downloading),
            ] + asked(Progress::Ask(delivery(release)), delivered) + settled_requests(result)
        }),
{
    reveal_with_fuel(run, 2);
    reveal_with_fuel(asked, 2);
    reveal_with_fuel(in_order, 2);
    let first = seq![ReplyModel::Done] + checked;
    let second = seq![ReplyModel::Done];
    let preparing = Progress::Ask(
        LatestModel { cache, phase: LatestPhase::Preparing { release } },
    );
    lemma_announced(cache, checked);
    law_conversation_splits(latest(cache), first, second);
    assert(second.drop_first() =~= seq![]);
    assert(asked(preparing, second) =~= seq![RequestModel::SetStatus(StatusModel::Downloading)]);
    lemma_delivering(cache, delivery(release), delivered);
    law_conversation_splits(latest(cache), first + second, delivered);
    lemma_settle(cache, result);
    law_conversation_splits(
        latest(cache),
        first + second + delivered,
        settled_replies(result),
    );
}

/// After `release` was installed, and its version recorded, it is found again: GitHub naming it as
/// the latest leads to its binary, without a download, provided that the version neither starts
/// nor ends with white space.
pub proof fn law_installed_release_is_found_again(
    cache: Option<Seq<char>>,
    errors: Seq<Seq<char>>,
    release: ReleaseModel,
    os: Os,
    arch: Architecture,
)
    requires
        errors.len() < MAX_ATTEMPTS,
        is_trimmed(release.version),
    ensures
        ({
            let contents = Ok::<_, ReadFailureModel>(release.version);
            let binary = BinaryModel::released(binary_path(release.version, os));
            let replies = seq![ReplyModel::Done] + answered(errors, release, contents)
                + lookup_replies(contents, os, arch, true) + seq![ReplyModel::Done];
            &&& in_order(latest(cache), replies)
            &&& run(latest(cache), replies) == Progress::<LatestModel, _>::Done(
                (Some(binary.path), Ok::<_, Seq<char>>(binary)),
            )
            &&& asked(latest(cache), replies) == seq![
                RequestModel::SetStatus(StatusModel::CheckingForUpdate),
            ] + failed_requests(1, errors.len()) + seq![
                release_request(),
                RequestModel::ReadFile(VERSION_FILE@),
                RequestModel::ReadFile(VERSION_FILE@),
                RequestModel::CurrentPlatform,
                RequestModel::PathExists(binary.path),
                RequestModel::SetStatus(StatusModel::Clear),
            ]
        }),
{
    let contents = Ok::<Seq<char>, ReadFailureModel>(release.version);
    law_trim_fixed_points(release.version);
    law_first_answer_decides(errors, release, contents);
    law_recorded_version_is_current(release);
    law_lookup(contents, os, arch, true);
    law_latest_without_update(
        cache,
        answered(errors, release, contents),
        Ok(None),
        contents,
        os,
        arch,
        true,
    );
    let binary = BinaryModel::released(binary_path(release.version, os));
    let replies = seq![ReplyModel::Done] + answered(errors, release, contents)
        + lookup_replies(contents, os, arch, true) + seq![ReplyModel::Done];
    assert(asked(latest(cache), replies) =~= seq![
        RequestModel::SetStatus(StatusModel::CheckingForUpdate),
    ] + failed_requests(1, errors.len()) + seq![
        release_request(),
        RequestModel::ReadFile(VERSION_FILE@),
        RequestModel::ReadFile(VERSION_FILE@),
        RequestModel::CurrentPlatform,
        RequestModel::PathExists(binary.path),
        RequestModel::SetStatus(StatusModel::Clear),
    ]);
}

/// Where a release was installed is where the version that was recorded for it leads, on the same
/// platform, provided that the version neither starts nor ends with white space.
pub proof fn law_recorded_version_leads_to_installed_binary(
    release: ReleaseModel,
    replies: Seq<ReplyModel>,
    os: Os,
    arch: Architecture,
)
    requires
        is_trimmed(release.version),
        platform_is(replies, os, arch),
    ensures
        run(Progress::Ask(InstallModel::Choosing { release }), replies) matches Progress::Done(
            Ok(path),
        ) ==> lookup_outcome(Ok(release.version), os, true) == Ok::<_, Seq<char>>(path),
{
    law_trim_fixed_points(release.version);
    law_install_stays_with_release(InstallModel::Choosing { release }, replies, release, os, arch);
}

/// Whatever the host replies, the search remembers exactly the binary that it comes to, which is
/// one as users run it; without one, it leaves the extension's state as it was.
pub proof fn law_latest_remembers(
    machine: LatestModel,
    cache: Option<Seq<char>>,
    replies: Seq<ReplyModel>,
)
    requires
        machine.remembers(cache),
    ensures
        run(Progress::Ask(machine), replies) matches Progress::Done((after, result)) ==> {
            &&& after == remembered(cache, result)
            &&& result matches Ok(binary) ==> binary == BinaryModel::released(binary.path)
        },
    decreases replies.len(),
{
    reveal_with_fuel(run, 2);
    if replies.len() > 0 {
        match machine.step(replies.first()) {
            Progress::Ask(next) => {
                law_latest_remembers(next, cache, replies.drop_first());
            },
            Progress::Done(_) => {},
        }
    }
}

impl LatestModel {
    /// Only a binary that is about to be returned is remembered in place of `cache`.
    pub open spec fn remembers(self, cache: Option<Seq<char>>) -> bool {
        match self.phase {
            LatestPhase::Settling { binary } => {
                &&& self.cache == Some(binary.path)
                &&& binary == BinaryModel::released(binary.path)
            },
            _ => self.cache == cache,
        }
    }
}

/// The editor's status is left clear when there is a binary, and left showing why when the
/// installation of an update has failed.
pub proof fn law_latest_leaves_status(machine: LatestModel, replies: Seq<ReplyModel>)
    requires
        in_order(Progress::Ask(machine), replies),
    ensures
        run(Progress::Ask(machine), replies) matches Progress::Done((_, result)) ==> {
            let last = asked(Progress::Ask(machine), replies).last();
            &&& result is Ok ==> last == RequestModel::SetStatus(StatusModel::Clear)
            &&& result is Err && (machine.phase is Delivering || machine.phase is Preparing)
                ==> last == RequestModel::SetStatus(
                StatusModel::Failed(INSTALL_FAILED@ + result->Err_0),
            )
        },
    decreases replies.len(),
{
    reveal_with_fuel(run, 2);
    reveal_with_fuel(asked, 2);
    reveal_with_fuel(in_order, 2);
    if replies.len() > 0 {
        let rest = replies.drop_first();
        match machine.step(replies.first()) {
            Progress::Ask(next) => {
                law_latest_leaves_status(next, rest);
                if run(Progress::Ask(machine), replies) is Done {
                    assert(rest.len() > 0);
                    assert(asked(Progress::Ask(machine), replies).last() == asked(
                        Progress::Ask(next),
                        rest,
                    ).last());
                }
            },
            Progress::Done(_) => {},
        }
    }
}

/// When there is no update, or GitHub cannot be asked, the binary of the version recorded is taken
/// if it is there: it is the result, as users run it, and its path is remembered.
pub proof fn law_latest_takes_installed_binary(
    cache: Option<Seq<char>>,
    checked: Seq<ReplyModel>,
    outcome: Result<Option<ReleaseModel>, Seq<char>>,
    text: Seq<char>,
    os: Os,
    arch: Architecture,
)
    requires
        in_order(Progress::Ask(update_check()), checked),
        run(Progress::Ask(update_check()), checked) == Progress::<UpdateCheckModel, _>::Done(
            outcome,
        ),
        outcome matches Ok(update) ==> update is None,
    ensures
        ({
            let path = binary_path(trimmed(text), os);
            let replies = seq![ReplyModel::Done] + checked + seq![
                ReplyModel::Contents(Ok(text)),
                ReplyModel::Platform(os, arch),
                ReplyModel::Answer(true),
                ReplyModel::Done,
            ];
            &&& in_order(latest(cache), replies)
            &&& run(latest(cache), replies) == Progress::<LatestModel, _>::Done(
                (
                    Some(path),
                    Ok::<_, Seq<char>>(BinaryModel { path, env: seq![("RUST_LOG"@, "info"@)] }),
                ),
            )
            &&& asked(latest(cache), replies) == seq![
                RequestModel::SetStatus(StatusModel::CheckingForUpdate),
            ] + asked(Progress::Ask(update_check()), checked) + seq![
                RequestModel::ReadFile(".version"@),
                RequestModel::CurrentPlatform,
                RequestModel::PathExists(path),
                RequestModel::SetStatus(StatusModel::Clear),
            ]
        }),
{
    let path = binary_path(trimmed(text), os);
    law_latest_without_update(cache, checked, outcome, Ok(text), os, arch, true);
    law_lookup_finds_recorded_version(text, os, arch, true);
    law_released_binary(path);
    assert(seq![ReplyModel::Done] + checked + lookup_replies(Ok(text), os, arch, true) + seq![
        ReplyModel::Done,
    ] =~= seq![ReplyModel::Done] + checked + seq![
        ReplyModel::Contents(Ok(text)),
        ReplyModel::Platform(os, arch),
        ReplyModel::Answer(true),
        ReplyModel::Done,
    ]);
    let before = seq![RequestModel::SetStatus(StatusModel::CheckingForUpdate)] + asked(
        Progress::Ask(update_check()),
        checked,
    );
    assert(before + seq![
        RequestModel::ReadFile(".version"@),
        RequestModel::CurrentPlatform,
        RequestModel::PathExists(path),
    ] + seq![RequestModel::SetStatus(StatusModel::Clear)] =~= before + seq![
        RequestModel::ReadFile(".version"@),
        RequestModel::CurrentPlatform,
        RequestModel::PathExists(path),
        RequestModel::SetStatus(StatusModel::Clear),
    ]);
}

/// When there is neither an update nor the binary of the version recorded, the result says why:
/// that GitHub cannot be asked, if that is so, and otherwise what is missing. What was remembered
/// stays.
pub proof fn law_latest_without_binary(
    cache: Option<Seq<char>>,
    checked: Seq<ReplyModel>,
    outcome: Result<Option<ReleaseModel>, Seq<char>>,
    contents: Result<Seq<char>, ReadFailureModel>,
    os: Os,
    arch: Architecture,
)
    requires
        in_order(Progress::Ask(update_check()), checked),
        run(Progress::Ask(update_check()), checked) == Progress::<UpdateCheckModel, _>::Done(
            outcome,
        ),
        outcome matches Ok(update) ==> update is None,
    ensures
        ({
            let missing = match contents {
                Ok(text) => "Binary not found at expected path: "@ + binary_path(trimmed(text), os),
                Err(ReadFailureModel::NotFound) => "no cached binary yet"@,
                Err(ReadFailureModel::Other(reason)) => "Failed to read version file: "@ + reason,
            };
            let error = match outcome {
                Ok(_) => missing,
                Err(unreachable) => "Could not contact GitHub to check for the latest release and \
                    no cached binary is available. Check that github.com is reachable. Underlying \
                    error: "@ + unreachable,
            };
            let replies = seq![ReplyModel::Done] + checked + (if contents is Ok {
                seq![
                    ReplyModel::Contents(contents),
                    ReplyModel::Platform(os, arch),
                    ReplyModel::Answer(false),
                ]
            } else {
                seq![ReplyModel::Contents(contents)]
            });
            &&& in_order(latest(cache), replies)
            &&& run(latest(cache), replies) == Progress::<LatestModel, _>::Done(
                (cache, Err::<BinaryModel, _>(error)),
            )
            &&& asked(latest(cache), replies).len() == 1 + asked(
                Progress::Ask(update_check()),
                checked,
            ).len() + (if contents is Ok {
                3int
            } else {
                1int
            })
        }),
{
    law_latest_without_update(cache, checked, outcome, contents, os, arch, false);
    law_lookup(contents, os, arch, false);
    let replies = seq![ReplyModel::Done] + checked + lookup_replies(contents, os, arch, false);
    assert(replies + seq![] =~= replies);
}

/// An update that is delivered is the result, and its path is remembered; the editor has been told
/// of the check, of the download, and at the end of nothing.
pub proof fn law_latest_takes_update(
    cache: Option<Seq<char>>,
    checked: Seq<ReplyModel>,
    release: ReleaseModel,
    delivered: Seq<ReplyModel>,
    binary: BinaryModel,
)
    requires
        in_order(Progress::Ask(update_check()), checked),
        run(Progress::Ask(update_check()), checked) == Progress::<UpdateCheckModel, _>::Done(
            Ok::<_, Seq<char>>(Some(release)),
        ),
        in_order(
            Progress::Ask(
                DeliveryModel::Installing { install: InstallModel::Choosing { release } },
            ),
            delivered,
        ),
        run(
            Progress::Ask(
                DeliveryModel::Installing { install: InstallModel::Choosing { release } },
            ),
            delivered,
        ) == Progress::<DeliveryModel, _>::Done(Ok::<_, Seq<char>>(binary)),
    ensures
        ({
            let replies = seq![ReplyModel::Done] + checked + seq![ReplyModel::Done] + delivered
                + seq![ReplyModel::Done];
            &&& in_order(latest(cache), replies)
            &&& run(latest(cache), replies) == Progress::<LatestModel, _>::Done(
                (Some(binary.path), Ok::<_, Seq<char>>(binary)),
            )
            &&& asked(latest(cache), replies) == seq![
                RequestModel::SetStatus(StatusModel::CheckingForUpdate),
            ] + asked(Progress::Ask(update_check()), checked) + seq![
                RequestModel::SetStatus(StatusModel::Downloading),
            ] + asked(
                Progress::Ask(
                    DeliveryModel::Installing { install: InstallModel::Choosing { release } },
                ),
                delivered,
            ) + seq![RequestModel::SetStatus(StatusModel::Clear)]
        }),
{
    law_latest_with_update(cache, checked, release, delivered, Ok(binary));
}

/// An update that cannot be delivered ends the search with the delivery's error; what was
/// remembered stays, and the host is asked nothing more.
pub proof fn law_latest_fails_with_update(
    cache: Option<Seq<char>>,
    checked: Seq<ReplyModel>,
    release: ReleaseModel,
    delivered: Seq<ReplyModel>,
    error: Seq<char>,
)
    requires
        in_order(Progress::Ask(update_check()), checked),
        run(Progress::Ask(update_check()), checked) == Progress::<UpdateCheckModel, _>::Done(
            Ok::<_, Seq<char>>(Some(release)),
        ),
        in_order(
            Progress::Ask(
                DeliveryModel::Installing { install: InstallModel::Choosing { release } },
            ),
            delivered,
        ),
        run(
            Progress::Ask(
                DeliveryModel::Installing { install: InstallModel::Choosing { release } },
            ),
            delivered,
        ) == Progress::<DeliveryModel, _>::Done(Err::<BinaryModel, _>(error)),
    ensures
        in_order(
            latest(cache),
            seq![ReplyModel::Done] + checked + seq![ReplyModel::Done] + delivered,
        ),
        run(
            latest(cache),
            seq![ReplyModel::Done] + checked + seq![ReplyModel::Done] + delivered,
        ) == Progress::<LatestModel, _>::Done((cache, Err::<BinaryModel, _>(error))),
{
    law_latest_with_update(cache, checked, release, delivered, Err(error));
    let replies = seq![ReplyModel::Done] + checked + seq![ReplyModel::Done] + delivered;
    assert(replies + seq![] =~= replies);
}

/// A reply of the wrong kind changes nothing.
pub proof fn law_latest_ignores_stray_replies(machine: LatestModel, reply: ReplyModel)
    requires
        machine.phase is Announcing || machine.phase is Preparing || machine.phase is Settling
            ==> reply !is Done,
        machine.phase matches LatestPhase::Checking { check } ==> check.step(reply) == Progress::<
            _,
            Result<Option<ReleaseModel>, Seq<char>>,
        >::Ask(check),
        machine.phase matches LatestPhase::Delivering { delivery } ==> delivery.step(reply)
            == Progress::<_, Result<BinaryModel, Seq<char>>>::Ask(delivery),
        machine.phase matches LatestPhase::Loading { lookup, .. } ==> lookup.step(reply)
            == Progress::<_, Result<Seq<char>, Seq<char>>>::Ask(lookup),
    ensures
        machine.step(reply) == Progress::<_, LatestOutcome>::Ask(machine),
{
}

} // verus!

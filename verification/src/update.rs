//! Finding out whether there is a newer release than the one installed.

use vstd::prelude::*;

use crate::extension::{version_read, CodebookExtension, VERSION_FILE};
use crate::host::{
    asked, in_order, progress_view, run, Machine, Progress, ReadFailureModel, Reply, ReplyModel,
    Request, RequestModel,
};
use crate::release::{GithubRelease, GithubReleaseOptions, ReleaseModel};
use crate::text::{is_trimmed, law_trim_fixed_points, trimmed};

verus! {

/// Owner of the repository that releases are taken from.
pub const GITHUB_REPO_OWNER: &'static str = "cloned-doy";

/// Name of the repository that releases are taken from.
pub const GITHUB_REPO_NAME: &'static str = "codebook";

/// Whether pre-releases count.
pub const GET_PRE_RELEASE: bool = false;

/// How often GitHub is asked before giving up.
pub const MAX_ATTEMPTS: u32 = 3;

/// By how many milliseconds each wait between attempts is longer than the one before.
pub const BACKOFF_MILLIS: u64 = 500;

/// The check for an update, waiting for the host.
#[derive(Debug, PartialEq, Eq)]
pub enum UpdateCheck {
    /// For GitHub, for the `attempt`-th time.
    Fetching { attempt: u32 },
    /// For time to pass after the `attempt`-th failure.
    BackingOff { attempt: u32 },
    /// For the version file, to compare `release` with.
    Comparing { release: GithubRelease },
}

/// What an [`UpdateCheck`] stands for.
pub enum UpdateCheckModel {
    Fetching { attempt: u32 },
    BackingOff { attempt: u32 },
    Comparing { release: ReleaseModel },
}

impl DeepView for UpdateCheck {
    type V = UpdateCheckModel;

    open spec fn deep_view(&self) -> UpdateCheckModel {
        match self {
            UpdateCheck::Fetching { attempt } => UpdateCheckModel::Fetching { attempt: *attempt },
            UpdateCheck::BackingOff { attempt } => UpdateCheckModel::BackingOff {
                attempt: *attempt,
            },
            UpdateCheck::Comparing { release } => UpdateCheckModel::Comparing {
                release: release.deep_view(),
            },
        }
    }
}

/// The repository that releases are taken from.
pub open spec fn repository() -> Seq<char> {
    GITHUB_REPO_OWNER@ + "/"@ + GITHUB_REPO_NAME@
}

/// The question that GitHub is asked.
pub open spec fn release_request() -> RequestModel {
    RequestModel::LatestRelease(
        repository(),
        GithubReleaseOptions { require_assets: true, pre_release: GET_PRE_RELEASE },
    )
}

/// `release`, unless the version file names it.
pub open spec fn newer_release(
    release: ReleaseModel,
    contents: Result<Seq<char>, ReadFailureModel>,
) -> Option<ReleaseModel> {
    if version_read(contents) == Ok::<Seq<char>, Seq<char>>(release.version) {
        None
    } else {
        Some(release)
    }
}

impl Machine for UpdateCheckModel {
    type Outcome = Result<Option<ReleaseModel>, Seq<char>>;

    open spec fn pending(self) -> RequestModel {
        match self {
            UpdateCheckModel::Fetching { .. } => release_request(),
            UpdateCheckModel::BackingOff { attempt } => RequestModel::Sleep(
                (BACKOFF_MILLIS * attempt) as u64,
            ),
            UpdateCheckModel::Comparing { .. } => RequestModel::ReadFile(VERSION_FILE@),
        }
    }

    open spec fn step(self, reply: ReplyModel) -> Progress<Self, Self::Outcome> {
        match (self, reply) {
            (UpdateCheckModel::Fetching { .. }, ReplyModel::Release(Ok(release))) => Progress::Ask(
                UpdateCheckModel::Comparing { release },
            ),
            (UpdateCheckModel::Fetching { attempt }, ReplyModel::Release(Err(e))) => if attempt
                < MAX_ATTEMPTS {
                Progress::Ask(UpdateCheckModel::BackingOff { attempt })
            } else {
                Progress::Done(Err(e))
            },
            (UpdateCheckModel::BackingOff { attempt }, ReplyModel::Done) => Progress::Ask(
                UpdateCheckModel::Fetching { attempt: (attempt + 1) as u32 },
            ),
            (UpdateCheckModel::Comparing { release }, ReplyModel::Contents(contents)) =>
                Progress::Done(Ok(newer_release(release, contents))),
            (machine, _) => Progress::Ask(machine),
        }
    }
}

/// The check at its beginning.
pub open spec fn update_check() -> UpdateCheckModel {
    UpdateCheckModel::Fetching { attempt: 1 }
}

impl CodebookExtension {
    /// Begins to look for a release other than the one installed. The check comes to the
    /// release, to nothing if it is installed already, or to why GitHub could not be asked.
    pub fn check_for_update(&self) -> (res: UpdateCheck)
        ensures
            res.deep_view() == update_check(),
            res.wf(),
    {
        UpdateCheck::Fetching { attempt: 1 }
    }
}

impl UpdateCheckModel {
    /// Attempts are numbered from one, and no wait follows the last.
    pub open spec fn wf(self) -> bool {
        match self {
            UpdateCheckModel::Fetching { attempt } => 1 <= attempt <= MAX_ATTEMPTS,
            UpdateCheckModel::BackingOff { attempt } => 1 <= attempt < MAX_ATTEMPTS,
            UpdateCheckModel::Comparing { .. } => true,
        }
    }
}

impl UpdateCheck {
    /// Attempts are numbered from one, and no wait follows the last.
    pub open spec fn wf(self) -> bool {
        self.deep_view().wf()
    }

    /// What the check waits for.
    pub fn pending(&self) -> (res: Request)
        ensures
            res.deep_view() == self.deep_view().pending(),
    {
        match self {
            UpdateCheck::Fetching { .. } => Request::LatestRelease(
                GITHUB_REPO_OWNER.to_string().concat("/").concat(GITHUB_REPO_NAME),
                GithubReleaseOptions { require_assets: true, pre_release: GET_PRE_RELEASE },
            ),
            UpdateCheck::BackingOff { attempt } => {
                Request::Sleep(BACKOFF_MILLIS * (*attempt as u64))
            },
            UpdateCheck::Comparing { .. } => Request::ReadFile(VERSION_FILE.to_string()),
        }
    }

    /// What the check makes of a reply.
    pub fn resume(self, extension: &CodebookExtension, reply: Reply) -> (res: Progress<
        UpdateCheck,
        Result<Option<GithubRelease>, String>,
    >)
        requires
            self.wf(),
        ensures
            progress_view(res) == self.deep_view().step(reply.deep_view()),
            res matches Progress::Ask(next) ==> next.wf(),
    {
        match (self, reply) {
            (UpdateCheck::Fetching { .. }, Reply::Release(Ok(release))) => Progress::Ask(
                UpdateCheck::Comparing { release },
            ),
            (UpdateCheck::Fetching { attempt }, Reply::Release(Err(e))) => {
                if attempt < MAX_ATTEMPTS {
                    Progress::Ask(UpdateCheck::BackingOff { attempt })
                } else {
                    Progress::Done(Err(e))
                }
            },
            (UpdateCheck::BackingOff { attempt }, Reply::Done) => Progress::Ask(
                UpdateCheck::Fetching { attempt: attempt + 1 },
            ),
            (UpdateCheck::Comparing { release }, Reply::Contents(contents)) => {
                if let Ok(current_version) = extension.read_version_file(contents) {
                    if current_version == release.version {
                        return Progress::Done(Ok(None));
                    }
                }
                Progress::Done(Ok(Some(release)))
            },
            (machine, _) => Progress::Ask(machine),
        }
    }
}

/// What the host replies while GitHub cannot be asked, attempt after attempt.
pub open spec fn failed_attempts(errors: Seq<Seq<char>>) -> Seq<ReplyModel>
    decreases errors.len(),
{
    if errors.len() == 0 {
        seq![]
    } else {
        seq![ReplyModel::Release(Err(errors.first())), ReplyModel::Done] + failed_attempts(
            errors.drop_first(),
        )
    }
}

/// What the host replies when GitHub answers after some failed attempts.
pub open spec fn answered(
    errors: Seq<Seq<char>>,
    release: ReleaseModel,
    contents: Result<Seq<char>, ReadFailureModel>,
) -> Seq<ReplyModel> {
    failed_attempts(errors) + seq![
        ReplyModel::Release(Ok(release)),
        ReplyModel::Contents(contents),
    ]
}

/// What the host replies when the attempt after some failed ones is the last and fails too.
pub open spec fn unanswered(errors: Seq<Seq<char>>, last: Seq<char>) -> Seq<ReplyModel> {
    failed_attempts(errors) + seq![ReplyModel::Release(Err(last))]
}

/// What the host is asked during `count` failed attempts of which the first is the `attempt`-th:
/// each is followed by a wait that is longer than the one before.
pub open spec fn failed_requests(attempt: nat, count: nat) -> Seq<RequestModel>
    decreases count,
{
    if count == 0 {
        seq![]
    } else {
        seq![release_request(), RequestModel::Sleep((BACKOFF_MILLIS * attempt) as u64)]
            + failed_requests(attempt + 1, (count - 1) as nat)
    }
}

/// Failures before the last attempt only move the check on to a later attempt.
proof fn lemma_failed_attempts(attempt: u32, errors: Seq<Seq<char>>, rest: Seq<ReplyModel>)
    requires
        1 <= attempt,
        attempt + errors.len() <= MAX_ATTEMPTS,
    ensures
        ({
            let start = Progress::Ask(UpdateCheckModel::Fetching { attempt });
            let next = Progress::Ask(
                UpdateCheckModel::Fetching { attempt: (attempt + errors.len()) as u32 },
            );
            &&& run(start, failed_attempts(errors) + rest) == run(next, rest)
            &&& asked(start, failed_attempts(errors) + rest) == failed_requests(
                attempt as nat,
                errors.len(),
            ) + asked(next, rest)
            &&& in_order(start, failed_attempts(errors) + rest) <==> in_order(next, rest)
        }),
    decreases errors.len(),
{
    reveal_with_fuel(run, 3);
    reveal_with_fuel(asked, 3);
    reveal_with_fuel(in_order, 3);
    let start = Progress::Ask(UpdateCheckModel::Fetching { attempt });
    let next = Progress::Ask(
        UpdateCheckModel::Fetching { attempt: (attempt + errors.len()) as u32 },
    );
    if errors.len() == 0 {
        assert(failed_attempts(errors) + rest =~= rest);
        assert(failed_requests(attempt as nat, 0) + asked(next, rest) =~= asked(next, rest));
    } else {
        let tail = failed_attempts(errors.drop_first()) + rest;
        let all = failed_attempts(errors) + rest;
        lemma_failed_attempts((attempt + 1) as u32, errors.drop_first(), rest);
        assert(all.first() == ReplyModel::Release(Err(errors.first())));
        assert(all.drop_first().first() == ReplyModel::Done);
        assert(all.drop_first().drop_first() =~= tail);
        assert(asked(start, all) =~= failed_requests(attempt as nat, errors.len()) + asked(
            next,
            rest,
        ));
    }
}

/// The first answer of GitHub decides: after any failures that leave an attempt, the check comes
/// to the release that GitHub names, unless the version file names it too. GitHub is asked once
/// per failure and once more, with waits of 500 and 1000 milliseconds in between.
pub proof fn law_first_answer_decides(
    errors: Seq<Seq<char>>,
    release: ReleaseModel,
    contents: Result<Seq<char>, ReadFailureModel>,
)
    requires
        errors.len() < MAX_ATTEMPTS,
    ensures
        ({
            let start = Progress::Ask(update_check());
            let replies = answered(errors, release, contents);
            &&& in_order(start, replies)
            &&& run(start, replies) == Progress::<UpdateCheckModel, _>::Done(
                Ok::<_, Seq<char>>(newer_release(release, contents)),
            )
            &&& asked(start, replies) == failed_requests(1, errors.len()) + seq![
                release_request(),
                RequestModel::ReadFile(VERSION_FILE@),
            ]
        }),
{
    reveal_with_fuel(run, 3);
    reveal_with_fuel(asked, 3);
    reveal_with_fuel(in_order, 3);
    let rest = seq![ReplyModel::Release(Ok(release)), ReplyModel::Contents(contents)];
    let next = Progress::Ask(UpdateCheckModel::Fetching { attempt: (1 + errors.len()) as u32 });
    lemma_failed_attempts(1, errors, rest);
    assert(rest.drop_first().drop_first() =~= seq![]);
    assert(asked(next, rest) =~= seq![release_request(), RequestModel::ReadFile(VERSION_FILE@)]);
}

/// When every attempt fails, the check comes to the last error, without a wait after it.
pub proof fn law_last_error_reported(errors: Seq<Seq<char>>)
    requires
        errors.len() == MAX_ATTEMPTS,
    ensures
        ({
            let start = Progress::Ask(update_check());
            let replies = unanswered(errors.drop_last(), errors.last());
            &&& in_order(start, replies)
            &&& run(start, replies) == Progress::<UpdateCheckModel, _>::Done(
                Err::<Option<ReleaseModel>, _>(errors.last()),
            )
            &&& asked(start, replies) == failed_requests(1, 2) + seq![release_request()]
        }),
{
    reveal_with_fuel(run, 2);
    reveal_with_fuel(asked, 2);
    reveal_with_fuel(in_order, 2);
    let rest = seq![ReplyModel::Release(Err(errors.last()))];
    let next = Progress::Ask(UpdateCheckModel::Fetching { attempt: 3 });
    lemma_failed_attempts(1, errors.drop_last(), rest);
    assert(rest.drop_first() =~= seq![]);
    assert(asked(next, rest) =~= seq![release_request()]);
}

/// How many replies a check can still take.
pub open spec fn replies_left(check: UpdateCheckModel) -> int {
    match check {
        UpdateCheckModel::Fetching { attempt } => 2 * (MAX_ATTEMPTS - attempt) + 2,
        UpdateCheckModel::BackingOff { attempt } => 2 * (MAX_ATTEMPTS - attempt) + 1,
        UpdateCheckModel::Comparing { .. } => 1,
    }
}

/// A check ends: it takes no more replies than its state allows for, six from the beginning.
pub proof fn law_update_check_ends(check: UpdateCheckModel, replies: Seq<ReplyModel>)
    requires
        check.wf(),
        in_order(Progress::Ask(check), replies),
    ensures
        replies.len() <= replies_left(check),
        replies_left(check) <= replies_left(update_check()) == 6,
    decreases replies.len(),
{
    if replies.len() > 0 {
        match check.step(replies.first()) {
            Progress::Ask(next) => law_update_check_ends(next, replies.drop_first()),
            Progress::Done(_) => {},
        }
    }
}

/// A check that has ended is one of those that [`law_first_answer_decides`] and
/// [`law_last_error_reported`] speak of.
pub proof fn law_update_check_conversations(replies: Seq<ReplyModel>)
    requires
        in_order(Progress::Ask(update_check()), replies),
        run(Progress::Ask(update_check()), replies) is Done,
    ensures
        is_answered_conversation(1, replies) || is_failed_conversation(1, replies),
{
    lemma_conversations(1, replies);
}

/// GitHub answers, after failures that leave an attempt when the first is the `attempt`-th.
pub open spec fn is_answered_conversation(attempt: u32, replies: Seq<ReplyModel>) -> bool {
    exists|
        errors: Seq<Seq<char>>,
        release: ReleaseModel,
        contents: Result<Seq<char>, ReadFailureModel>,
    |
        attempt + errors.len() <= MAX_ATTEMPTS && replies == #[trigger] answered(
            errors,
            release,
            contents,
        )
}

/// GitHub never answers, from the `attempt`-th attempt on.
pub open spec fn is_failed_conversation(attempt: u32, replies: Seq<ReplyModel>) -> bool {
    exists|errors: Seq<Seq<char>>, last: Seq<char>|
        attempt + errors.len() == MAX_ATTEMPTS && replies == #[trigger] unanswered(errors, last)
}

proof fn lemma_conversations(attempt: u32, replies: Seq<ReplyModel>)
    requires
        1 <= attempt <= MAX_ATTEMPTS,
        in_order(Progress::Ask(UpdateCheckModel::Fetching { attempt }), replies),
        run(Progress::Ask(UpdateCheckModel::Fetching { attempt }), replies) is Done,
    ensures
        is_answered_conversation(attempt, replies) || is_failed_conversation(attempt, replies),
    decreases replies.len(),
{
    reveal_with_fuel(run, 3);
    reveal_with_fuel(in_order, 3);
    let none: Seq<Seq<char>> = seq![];
    match replies.first()->Release_0 {
        Ok(release) => {
            let contents = replies[1]->Contents_0;
            assert(replies =~= answered(none, release, contents));
        },
        Err(e) => {
            if attempt == MAX_ATTEMPTS {
                assert(replies =~= unanswered(none, e));
            } else {
                let rest = replies.drop_first().drop_first();
                assert(replies =~= seq![ReplyModel::Release(Err(e)), ReplyModel::Done] + rest);
                lemma_conversations((attempt + 1) as u32, rest);
                if is_answered_conversation((attempt + 1) as u32, rest) {
                    let (errors, release, contents) = choose|
                        errors: Seq<Seq<char>>,
                        release: ReleaseModel,
                        contents: Result<Seq<char>, ReadFailureModel>,
                    |
                        attempt + 1 + errors.len() <= MAX_ATTEMPTS && rest
                            == #[trigger] answered(errors, release, contents);
                    assert((seq![e] + errors).drop_first() =~= errors);
                    assert(failed_attempts(seq![e] + errors) =~= seq![
                        ReplyModel::Release(Err(e)),
                        ReplyModel::Done,
                    ] + failed_attempts(errors));
                    assert(replies =~= answered(seq![e] + errors, release, contents));
                } else {
                    let (errors, last) = choose|errors: Seq<Seq<char>>, last: Seq<char>|
                        attempt + 1 + errors.len() == MAX_ATTEMPTS && rest
                            == #[trigger] unanswered(errors, last);
                    assert((seq![e] + errors).drop_first() =~= errors);
                    assert(failed_attempts(seq![e] + errors) =~= seq![
                        ReplyModel::Release(Err(e)),
                        ReplyModel::Done,
                    ] + failed_attempts(errors));
                    assert(replies =~= unanswered(seq![e] + errors, last));
                }
            }
        },
    }
}

/// A release whose version is recorded in the version file is no update, exactly when the version
/// neither starts nor ends with white space.
pub proof fn law_recorded_version_is_current(release: ReleaseModel)
    ensures
        newer_release(release, Ok(release.version)) is None <==> is_trimmed(release.version),
{
    law_trim_fixed_points(release.version);
}

/// Without a version file that can be read, every release is an update.
pub proof fn law_unreadable_version_is_outdated(release: ReleaseModel, failure: ReadFailureModel)
    ensures
        newer_release(release, Err(failure)) == Some(release),
{
}

/// For every release and every version file that can be read, after any failures that leave an
/// attempt: the release is an update whenever the file names another version, and none exactly
/// when the file names its very version, apart from white space around it.
pub proof fn law_update_unless_version_is_recorded(
    errors: Seq<Seq<char>>,
    release: ReleaseModel,
    text: Seq<char>,
)
    requires
        errors.len() <= 2,
    ensures
        ({
            let outcome = run(
                Progress::Ask(update_check()),
                failed_attempts(errors) + seq![
                    ReplyModel::Release(Ok(release)),
                    ReplyModel::Contents(Ok(text)),
                ],
            );
            &&& trimmed(text) != release.version ==> outcome == Progress::<
                UpdateCheckModel,
                _,
            >::Done(Ok::<_, Seq<char>>(Some(release)))
            &&& trimmed(text) == release.version ==> outcome == Progress::<
                UpdateCheckModel,
                _,
            >::Done(Ok::<_, Seq<char>>(None::<ReleaseModel>))
        }),
{
    law_first_answer_decides(errors, release, Ok(text));
}

/// Two version files that name different versions cannot both make the same release current.
pub proof fn law_one_version_is_current(
    release: ReleaseModel,
    text1: Seq<char>,
    text2: Seq<char>,
)
    requires
        trimmed(text1) != trimmed(text2),
    ensures
        newer_release(release, Ok(text1)) == Some(release) || newer_release(release, Ok(text2))
            == Some(release),
{
}

/// For every release and every version file that cannot be read, after any failures that leave an
/// attempt, the release is an update.
pub proof fn law_update_when_version_is_unreadable(
    errors: Seq<Seq<char>>,
    release: ReleaseModel,
    failure: ReadFailureModel,
)
    requires
        errors.len() <= 2,
    ensures
        run(
            Progress::Ask(update_check()),
            failed_attempts(errors) + seq![
                ReplyModel::Release(Ok(release)),
                ReplyModel::Contents(Err(failure)),
            ],
        ) == Progress::<UpdateCheckModel, _>::Done(Ok::<_, Seq<char>>(Some(release))),
{
    law_first_answer_decides(errors, release, Err(failure));
}

/// The question to GitHub is for the latest full release, with assets, of `cloned-doy/codebook`.
pub proof fn law_release_request()
    ensures
        release_request() == RequestModel::LatestRelease(
            "cloned-doy/codebook"@,
            GithubReleaseOptions { require_assets: true, pre_release: false },
        ),
{
    reveal_strlit("cloned-doy");
    reveal_strlit("/");
    reveal_strlit("codebook");
    reveal_strlit("cloned-doy/codebook");
    assert(repository() =~= "cloned-doy/codebook"@);
}

/// A failed attempt is an error of GitHub, and then a wait: of half a second after the first, and
/// of a second after the second.
pub proof fn law_failed_attempts_listed(first: Seq<char>, second: Seq<char>)
    ensures
        failed_attempts(seq![]) == Seq::<ReplyModel>::empty(),
        failed_attempts(seq![first]) == seq![ReplyModel::Release(Err(first)), ReplyModel::Done],
        failed_attempts(seq![first, second]) == seq![
            ReplyModel::Release(Err(first)),
            ReplyModel::Done,
            ReplyModel::Release(Err(second)),
            ReplyModel::Done,
        ],
        failed_requests(1, 0) == Seq::<RequestModel>::empty(),
        failed_requests(1, 1) == seq![release_request(), RequestModel::Sleep(500)],
        failed_requests(1, 2) == seq![
            release_request(),
            RequestModel::Sleep(500),
            release_request(),
            RequestModel::Sleep(1000),
        ],
{
    reveal_with_fuel(failed_attempts, 3);
    reveal_with_fuel(failed_requests, 3);
    let none = Seq::<Seq<char>>::empty();
    assert(seq![first].drop_first() =~= none);
    assert(seq![first, second].drop_first() =~= seq![second]);
    assert(seq![second].drop_first() =~= none);
    assert(failed_attempts(seq![first]) =~= seq![
        ReplyModel::Release(Err(first)),
        ReplyModel::Done,
    ]);
    assert(failed_attempts(seq![first, second]) =~= seq![
        ReplyModel::Release(Err(first)),
        ReplyModel::Done,
        ReplyModel::Release(Err(second)),
        ReplyModel::Done,
    ]);
    assert(failed_requests(1, 1) =~= seq![release_request(), RequestModel::Sleep(500)]);
    assert(failed_requests(1, 2) =~= seq![
        release_request(),
        RequestModel::Sleep(500),
        release_request(),
        RequestModel::Sleep(1000),
    ]);
}

/// Three failures in a row end the check with the third error; GitHub is asked three times, with
/// waits of half a second and of a second in between, and nothing else is asked.
pub proof fn law_third_failure_ends_check(
    first: Seq<char>,
    second: Seq<char>,
    third: Seq<char>,
)
    ensures
        ({
            let start = Progress::Ask(update_check());
            let github = RequestModel::LatestRelease(
                "cloned-doy/codebook"@,
                GithubReleaseOptions { require_assets: true, pre_release: false },
            );
            let replies = seq![
                ReplyModel::Release(Err(first)),
                ReplyModel::Done,
                ReplyModel::Release(Err(second)),
                ReplyModel::Done,
                ReplyModel::Release(Err(third)),
            ];
            &&& run(start, replies) == Progress::<UpdateCheckModel, _>::Done(
                Err::<Option<ReleaseModel>, _>(third),
            )
            &&& asked(start, replies) == seq![
                github,
                RequestModel::Sleep(500),
                github,
                RequestModel::Sleep(1000),
                github,
            ]
        }),
{
    let errors = seq![first, second, third];
    law_last_error_reported(errors);
    law_failed_attempts_listed(first, second);
    law_release_request();
    assert(errors.drop_last() =~= seq![first, second]);
    let replies = seq![
        ReplyModel::Release(Err(first)),
        ReplyModel::Done,
        ReplyModel::Release(Err(second)),
        ReplyModel::Done,
        ReplyModel::Release(Err(third)),
    ];
    assert(unanswered(seq![first, second], third) =~= replies);
    assert(failed_requests(1, 2) + seq![release_request()] =~= seq![
        release_request(),
        RequestModel::Sleep(500),
        release_request(),
        RequestModel::Sleep(1000),
        release_request(),
    ]);
}

/// What a check asks when GitHub answers after failures that leave an attempt: GitHub as often as
/// there are answers of it, and then for the version file.
pub proof fn law_answered_check_requests(
    errors: Seq<Seq<char>>,
    release: ReleaseModel,
    contents: Result<Seq<char>, ReadFailureModel>,
)
    requires
        errors.len() <= 2,
    ensures
        asked(
            Progress::Ask(update_check()),
            failed_attempts(errors) + seq![
                ReplyModel::Release(Ok(release)),
                ReplyModel::Contents(contents),
            ],
        ) == failed_requests(1, errors.len()) + seq![
            release_request(),
            RequestModel::ReadFile(".version"@),
        ],
{
    law_first_answer_decides(errors, release, contents);
}

/// A reply of the wrong kind changes nothing.
pub proof fn law_check_ignores_stray_replies(check: UpdateCheckModel, reply: ReplyModel)
    requires
        check is Fetching ==> reply !is Release,
        check is BackingOff ==> reply !is Done,
        check is Comparing ==> reply !is Contents,
    ensures
        check.step(reply) == Progress::<_, Result<Option<ReleaseModel>, Seq<char>>>::Ask(check),
{
}

} // verus!

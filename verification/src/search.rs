//! Finding the language server binary.

use vstd::prelude::*;

use crate::binary::{
    law_development_binary, law_released_binary, BinaryModel, CodebookBinary, EXTENSION_LSP_NAME,
};
use crate::extension::CodebookExtension;
use crate::host::{
    asked, in_order, law_conversation_splits, result_view, run, Machine, Progress, Reply,
    ReplyModel, Request, RequestModel,
};
use crate::latest::{
    latest, law_latest_remembers, Latest, LatestModel, LatestOutcome, LatestPhase,
};

verus! {

/// The search for a binary, waiting for the host.
#[derive(Debug, PartialEq, Eq)]
pub enum Search {
    /// To be told whether there is a development binary.
    Development,
    /// To be told where on the `PATH` there is a binary.
    System,
    /// To be told whether the binary that was found last is still at `path`.
    Cached { path: String },
    /// For what `latest` waits for.
    Latest { latest: Latest },
}

/// What a [`Search`] stands for, apart from the extension's state.
pub enum SearchPhase {
    Development,
    System,
    Cached { path: Seq<char> },
    Latest { latest: LatestPhase },
}

/// What a [`Search`] and the extension's state stand for.
pub struct SearchModel {
    /// Path of the binary that was found last.
    pub cache: Option<Seq<char>>,
    pub phase: SearchPhase,
}

impl DeepView for Search {
    type V = SearchPhase;

    open spec fn deep_view(&self) -> SearchPhase {
        match self {
            Search::Development => SearchPhase::Development,
            Search::System => SearchPhase::System,
            Search::Cached { path } => SearchPhase::Cached { path: path@ },
            Search::Latest { latest } => SearchPhase::Latest { latest: latest.deep_view() },
        }
    }
}

/// What progress and the extension's state stand for.
pub open spec fn search_view(
    extension: CodebookExtension,
    progress: Progress<Search, Result<CodebookBinary, String>>,
) -> Progress<SearchModel, LatestOutcome> {
    match progress {
        Progress::Ask(machine) => Progress::Ask(machine.model(extension)),
        Progress::Done(outcome) => Progress::Done((extension.deep_view(), result_view(outcome))),
    }
}

/// How the search goes on when the search for the latest binary has come to `latest`.
pub open spec fn after_latest(latest: Progress<LatestModel, LatestOutcome>) -> Progress<
    SearchModel,
    LatestOutcome,
> {
    match latest {
        Progress::Ask(latest) => Progress::Ask(
            SearchModel {
                cache: latest.cache,
                phase: SearchPhase::Latest { latest: latest.phase },
            },
        ),
        Progress::Done(outcome) => Progress::Done(outcome),
    }
}

impl SearchPhase {
    /// What the search waits for.
    pub open spec fn pending(self) -> RequestModel {
        match self {
            SearchPhase::Development => RequestModel::PathExists(EXTENSION_LSP_NAME@),
            SearchPhase::System => RequestModel::Which(EXTENSION_LSP_NAME@),
            SearchPhase::Cached { path } => RequestModel::PathExists(path),
            SearchPhase::Latest { latest } => latest.pending(),
        }
    }
}

impl Machine for SearchModel {
    type Outcome = LatestOutcome;

    open spec fn pending(self) -> RequestModel {
        self.phase.pending()
    }

    open spec fn step(self, reply: ReplyModel) -> Progress<Self, Self::Outcome> {
        let cache = self.cache;
        let latest = after_latest(
            Progress::Ask(LatestModel { cache, phase: LatestPhase::Announcing }),
        );
        match (self.phase, reply) {
            (SearchPhase::Development, ReplyModel::Answer(present)) => if present {
                Progress::Done((cache, Ok(BinaryModel::development())))
            } else {
                Progress::Ask(SearchModel { cache, phase: SearchPhase::System })
            },
            (SearchPhase::System, ReplyModel::Found(found)) => match (found, cache) {
                (Some(path), _) => Progress::Done((cache, Ok(BinaryModel::released(path)))),
                (None, Some(path)) => Progress::Ask(
                    SearchModel { cache, phase: SearchPhase::Cached { path } },
                ),
                (None, None) => latest,
            },
            (SearchPhase::Cached { path }, ReplyModel::Answer(present)) => if present {
                Progress::Done((cache, Ok(BinaryModel::released(path))))
            } else {
                latest
            },
            (SearchPhase::Latest { latest }, reply) => after_latest(
                LatestModel { cache, phase: latest }.step(reply),
            ),
            _ => Progress::Ask(self),
        }
    }
}

impl SearchModel {
    /// What is under way is well-formed, and a path that is probed is the one remembered.
    pub open spec fn wf(self) -> bool {
        match self.phase {
            SearchPhase::Cached { path } => self.cache == Some(path),
            SearchPhase::Latest { latest } => (LatestModel {
                cache: self.cache,
                phase: latest,
            }).wf(),
            _ => true,
        }
    }

    /// The search at its beginning.
    pub open spec fn new(cache: Option<Seq<char>>) -> SearchModel {
        SearchModel { cache, phase: SearchPhase::Development }
    }
}

impl CodebookExtension {
    /// Begins to look for a binary: a development binary comes first, then one on the `PATH`, then
    /// the one that was found last, and then the latest release.
    pub fn get_binary(&self) -> (res: Search)
        ensures
            res.model(*self) == SearchModel::new(self.deep_view()),
            res.wf(*self),
    {
        Search::Development
    }
}

impl Search {
    /// What the search and the extension's state stand for.
    pub open spec fn model(self, extension: CodebookExtension) -> SearchModel {
        SearchModel { cache: extension.deep_view(), phase: self.deep_view() }
    }

    /// What is under way is well-formed, and a path that is probed is the one remembered.
    pub open spec fn wf(self, extension: CodebookExtension) -> bool {
        self.model(extension).wf()
    }

    /// What the search waits for.
    pub fn pending(&self) -> (res: Request)
        ensures
            res.deep_view() == self.deep_view().pending(),
    {
        match self {
            Search::Development => Request::PathExists(EXTENSION_LSP_NAME.to_string()),
            Search::System => Request::Which(EXTENSION_LSP_NAME.to_string()),
            Search::Cached { path } => Request::PathExists(path.clone()),
            Search::Latest { latest } => latest.pending(),
        }
    }

    /// What the search makes of a reply.
    pub fn resume(self, extension: &mut CodebookExtension, reply: Reply) -> (res: Progress<
        Search,
        Result<CodebookBinary, String>,
    >)
        requires
            self.wf(*old(extension)),
        ensures
            search_view(*final(extension), res) == self.model(*old(extension)).step(
                reply.deep_view(),
            ),
            res matches Progress::Ask(next) ==> next.wf(*final(extension)),
    {
        match (self, reply) {
            (Search::Development, Reply::Answer(present)) => {
                match extension.find_development_binary(present) {
                    Ok(Some(binary)) => Progress::Done(Ok(binary)),
                    Ok(None) => Progress::Ask(Search::System),
                    Err(e) => Progress::Done(Err(e)),
                }
            },
            (Search::System, Reply::Found(found)) => {
                match extension.find_system_binary(found) {
                    Ok(Some(binary)) => Progress::Done(Ok(binary)),
                    Ok(None) => match &extension.binary_cache {
                        Some(path) => Progress::Ask(Search::Cached { path: path.clone() }),
                        None => {
                            let latest = extension.ensure_latest_binary();
                            Progress::Ask(Search::Latest { latest })
                        },
                    },
                    Err(e) => Progress::Done(Err(e)),
                }
            },
            (Search::Cached { .. }, Reply::Answer(present)) => {
                match extension.get_cached_binary(present) {
                    Ok(Some(binary)) => Progress::Done(Ok(binary)),
                    Ok(None) => {
                        let latest = extension.ensure_latest_binary();
                        Progress::Ask(Search::Latest { latest })
                    },
                    Err(e) => Progress::Done(Err(e)),
                }
            },
            (Search::Latest { latest }, reply) => match latest.resume(extension, reply) {
                Progress::Ask(latest) => Progress::Ask(Search::Latest { latest }),
                Progress::Done(result) => Progress::Done(result),
            },
            (machine, _) => Progress::Ask(machine),
        }
    }
}

/// A development binary wins over everything else, and nothing else is asked for.
pub proof fn law_development_binary_first(cache: Option<Seq<char>>)
    ensures
        ({
            let start = Progress::Ask(SearchModel::new(cache));
            let replies = seq![ReplyModel::Answer(true)];
            &&& in_order(start, replies)
            &&& run(start, replies) == Progress::<SearchModel, _>::Done(
                (cache, Ok::<_, Seq<char>>(BinaryModel::development())),
            )
            &&& asked(start, replies) == seq![RequestModel::PathExists(EXTENSION_LSP_NAME@)]
        }),
{
    reveal_with_fuel(run, 2);
    reveal_with_fuel(asked, 2);
    reveal_with_fuel(in_order, 2);
    let start = Progress::Ask(SearchModel::new(cache));
    let replies = seq![ReplyModel::Answer(true)];
    assert(replies.drop_first() =~= seq![]);
    assert(asked(start, replies) =~= seq![RequestModel::PathExists(EXTENSION_LSP_NAME@)]);
}

/// Without a development binary, one on the `PATH` wins, and nothing else is asked for.
pub proof fn law_system_binary_second(cache: Option<Seq<char>>, path: Seq<char>)
    ensures
        ({
            let start = Progress::Ask(SearchModel::new(cache));
            let replies = seq![ReplyModel::Answer(false), ReplyModel::Found(Some(path))];
            &&& in_order(start, replies)
            &&& run(start, replies) == Progress::<SearchModel, _>::Done(
                (cache, Ok::<_, Seq<char>>(BinaryModel::released(path))),
            )
            &&& asked(start, replies) == seq![
                RequestModel::PathExists(EXTENSION_LSP_NAME@),
                RequestModel::Which(EXTENSION_LSP_NAME@),
            ]
        }),
{
    reveal_with_fuel(run, 3);
    reveal_with_fuel(asked, 3);
    reveal_with_fuel(in_order, 3);
    let start = Progress::Ask(SearchModel::new(cache));
    let replies = seq![ReplyModel::Answer(false), ReplyModel::Found(Some(path))];
    assert(asked(start, replies) =~= seq![
        RequestModel::PathExists(EXTENSION_LSP_NAME@),
        RequestModel::Which(EXTENSION_LSP_NAME@),
    ]);
}

/// Without either, the binary that was found last is taken if it is still there, and nothing else
/// is asked for.
pub proof fn law_cached_binary_third(path: Seq<char>)
    ensures
        ({
            let start = Progress::Ask(SearchModel::new(Some(path)));
            let replies = seq![
                ReplyModel::Answer(false),
                ReplyModel::Found(None),
                ReplyModel::Answer(true),
            ];
            &&& in_order(start, replies)
            &&& run(start, replies) == Progress::<SearchModel, _>::Done(
                (Some(path), Ok::<_, Seq<char>>(BinaryModel::released(path))),
            )
            &&& asked(start, replies) == seq![
                RequestModel::PathExists(EXTENSION_LSP_NAME@),
                RequestModel::Which(EXTENSION_LSP_NAME@),
                RequestModel::PathExists(path),
            ]
        }),
{
    reveal_with_fuel(run, 4);
    reveal_with_fuel(asked, 4);
    reveal_with_fuel(in_order, 4);
    let start = Progress::Ask(SearchModel::new(Some(path)));
    let replies = seq![
        ReplyModel::Answer(false),
        ReplyModel::Found(None),
        ReplyModel::Answer(true),
    ];
    assert(asked(start, replies) =~= seq![
        RequestModel::PathExists(EXTENSION_LSP_NAME@),
        RequestModel::Which(EXTENSION_LSP_NAME@),
        RequestModel::PathExists(path),
    ]);
}

/// The host's replies when there is neither a development binary, nor one on the `PATH`, nor the
/// one that was found last.
pub open spec fn nothing_found(cache: Option<Seq<char>>) -> Seq<ReplyModel> {
    if cache is Some {
        seq![ReplyModel::Answer(false), ReplyModel::Found(None), ReplyModel::Answer(false)]
    } else {
        seq![ReplyModel::Answer(false), ReplyModel::Found(None)]
    }
}

/// Without any of these, the search goes as the search for the latest binary goes.
pub proof fn law_latest_binary_last(cache: Option<Seq<char>>, replies: Seq<ReplyModel>)
    requires
        in_order(latest(cache), replies),
    ensures
        ({
            let start = Progress::Ask(SearchModel::new(cache));
            let first = nothing_found(cache);
            &&& in_order(start, first + replies)
            &&& run(start, first + replies) == after_latest(run(latest(cache), replies))
            &&& asked(start, first + replies) == seq![
                RequestModel::PathExists(EXTENSION_LSP_NAME@),
                RequestModel::Which(EXTENSION_LSP_NAME@),
                RequestModel::PathExists(cache->0),
            ].take(first.len() as int) + asked(latest(cache), replies)
        }),
{
    reveal_with_fuel(run, 4);
    reveal_with_fuel(asked, 4);
    reveal_with_fuel(in_order, 4);
    let start = Progress::Ask(SearchModel::new(cache));
    let first = nothing_found(cache);
    law_conversation_splits(start, first, replies);
    lemma_latest(latest(cache), replies);
    assert(asked(start, first) =~= seq![
        RequestModel::PathExists(EXTENSION_LSP_NAME@),
        RequestModel::Which(EXTENSION_LSP_NAME@),
        RequestModel::PathExists(cache->0),
    ].take(first.len() as int));
}

/// The search for the latest binary goes within the search as it goes alone.
proof fn lemma_latest(latest: Progress<LatestModel, LatestOutcome>, replies: Seq<ReplyModel>)
    requires
        in_order(latest, replies),
    ensures
        in_order(after_latest(latest), replies),
        run(after_latest(latest), replies) == after_latest(run(latest, replies)),
        asked(after_latest(latest), replies) == asked(latest, replies),
    decreases replies.len(),
{
    if replies.len() > 0 {
        lemma_latest(latest->Ask_0.step(replies.first()), replies.drop_first());
    }
}

impl SearchModel {
    /// Only a binary that is about to be returned is remembered in place of `cache`.
    pub open spec fn remembers(self, cache: Option<Seq<char>>) -> bool {
        match self.phase {
            SearchPhase::Latest { latest } => (LatestModel {
                cache: self.cache,
                phase: latest,
            }).remembers(cache),
            _ => self.cache == cache,
        }
    }
}

/// Whatever the host replies: a search that fails leaves the extension's state as it was, one that
/// succeeds leaves it as it was or remembers the binary, and only a development binary is not one
/// as users run it.
pub proof fn law_search_remembers(
    machine: SearchModel,
    cache: Option<Seq<char>>,
    replies: Seq<ReplyModel>,
)
    requires
        machine.remembers(cache),
    ensures
        run(Progress::Ask(machine), replies) matches Progress::Done((after, result))
            ==> match result {
            Ok(binary) => {
                &&& after == cache || after == Some(binary.path)
                &&& binary == BinaryModel::development() || binary == BinaryModel::released(
                    binary.path,
                )
            },
            Err(_) => after == cache,
        },
    decreases replies.len(),
{
    reveal_with_fuel(run, 2);
    if replies.len() > 0 {
        match machine.step(replies.first()) {
            Progress::Ask(next) => {
                law_search_remembers(next, cache, replies.drop_first());
            },
            Progress::Done(_) => {
                if let SearchPhase::Latest { latest } = machine.phase {
                    law_latest_remembers(
                        LatestModel { cache: machine.cache, phase: latest },
                        cache,
                        replies.take(1),
                    );
                }
            },
        }
    }
}

/// A binary that the search for the latest came to is found again by the next search, as long as
/// it is there and nothing takes precedence, without asking GitHub.
pub proof fn law_found_binary_is_reused(cache: Option<Seq<char>>, replies: Seq<ReplyModel>)
    ensures
        run(latest(cache), replies) matches Progress::Done((after, Ok(binary))) ==> run(
            Progress::Ask(SearchModel::new(after)),
            seq![ReplyModel::Answer(false), ReplyModel::Found(None), ReplyModel::Answer(true)],
        ) == Progress::<SearchModel, LatestOutcome>::Done((after, Ok(binary))),
{
    law_latest_remembers(latest(cache)->Ask_0, cache, replies);
    if let Progress::Done((after, Ok(binary))) = run(latest(cache), replies) {
        law_cached_binary_third(binary.path);
    }
}

/// For every path that the host finds on the `PATH`, the search comes to the binary at that very
/// path, which logs at `info`; what was remembered stays.
pub proof fn law_system_binary_is_at_its_path(cache: Option<Seq<char>>, path: Seq<char>)
    ensures
        ({
            let start = Progress::Ask(SearchModel::new(cache));
            let replies = seq![ReplyModel::Answer(false), ReplyModel::Found(Some(path))];
            &&& run(start, replies) == Progress::<SearchModel, _>::Done(
                (
                    cache,
                    Ok::<_, Seq<char>>(BinaryModel { path, env: seq![("RUST_LOG"@, "info"@)] }),
                ),
            )
            &&& asked(start, replies) == seq![
                RequestModel::PathExists("codebook-lsp"@),
                RequestModel::Which("codebook-lsp"@),
            ]
        }),
{
    law_system_binary_second(cache, path);
    law_released_binary(path);
}

/// The development binary is `codebook-lsp` itself, and logs at `debug`, with backtraces; what was
/// remembered stays.
pub proof fn law_development_binary_is_next_to_extension(cache: Option<Seq<char>>)
    ensures
        ({
            let start = Progress::Ask(SearchModel::new(cache));
            let replies = seq![ReplyModel::Answer(true)];
            &&& run(start, replies) == Progress::<SearchModel, _>::Done(
                (
                    cache,
                    Ok::<_, Seq<char>>(
                        BinaryModel {
                            path: "codebook-lsp"@,
                            env: seq![("RUST_LOG"@, "debug"@), ("RUST_BACKTRACE"@, "1"@)],
                        },
                    ),
                ),
            )
            &&& asked(start, replies) == seq![RequestModel::PathExists("codebook-lsp"@)]
        }),
{
    law_development_binary_first(cache);
    law_development_binary();
}

/// For every path remembered, the search looks for a binary at that very path, and comes to it,
/// logging at `info`.
pub proof fn law_cached_binary_is_at_its_path(path: Seq<char>)
    ensures
        ({
            let start = Progress::Ask(SearchModel::new(Some(path)));
            let replies = seq![
                ReplyModel::Answer(false),
                ReplyModel::Found(None),
                ReplyModel::Answer(true),
            ];
            &&& run(start, replies) == Progress::<SearchModel, _>::Done(
                (
                    Some(path),
                    Ok::<_, Seq<char>>(BinaryModel { path, env: seq![("RUST_LOG"@, "info"@)] }),
                ),
            )
            &&& asked(start, replies) == seq![
                RequestModel::PathExists("codebook-lsp"@),
                RequestModel::Which("codebook-lsp"@),
                RequestModel::PathExists(path),
            ]
        }),
{
    law_cached_binary_third(path);
    law_released_binary(path);
}

/// When nothing is found and nothing is remembered, or what is remembered is not there any more,
/// the search comes to what the search for the latest binary comes to.
pub proof fn law_search_ends_with_latest(
    path: Seq<char>,
    replies: Seq<ReplyModel>,
    outcome: LatestOutcome,
)
    ensures
        in_order(latest(None), replies) && run(latest(None), replies) == Progress::<
            LatestModel,
            _,
        >::Done(outcome) ==> {
            let start = Progress::Ask(SearchModel::new(None));
            let all = seq![ReplyModel::Answer(false), ReplyModel::Found(None)] + replies;
            &&& in_order(start, all)
            &&& run(start, all) == Progress::<SearchModel, _>::Done(outcome)
            &&& asked(start, all) == seq![
                RequestModel::PathExists("codebook-lsp"@),
                RequestModel::Which("codebook-lsp"@),
            ] + asked(latest(None), replies)
        },
        in_order(latest(Some(path)), replies) && run(latest(Some(path)), replies) == Progress::<
            LatestModel,
            _,
        >::Done(outcome) ==> {
            let start = Progress::Ask(SearchModel::new(Some(path)));
            let all = seq![
                ReplyModel::Answer(false),
                ReplyModel::Found(None),
                ReplyModel::Answer(false),
            ] + replies;
            &&& in_order(start, all)
            &&& run(start, all) == Progress::<SearchModel, _>::Done(outcome)
            &&& asked(start, all) == seq![
                RequestModel::PathExists("codebook-lsp"@),
                RequestModel::Which("codebook-lsp"@),
                RequestModel::PathExists(path),
            ] + asked(latest(Some(path)), replies)
        },
{
    let requests = seq![
        RequestModel::PathExists("codebook-lsp"@),
        RequestModel::Which("codebook-lsp"@),
        RequestModel::PathExists(path),
    ];
    assert(requests.take(3) =~= requests);
    if in_order(latest(None), replies) {
        law_latest_binary_last(None, replies);
        assert(seq![
            RequestModel::PathExists("codebook-lsp"@),
            RequestModel::Which("codebook-lsp"@),
            RequestModel::PathExists(None::<Seq<char>>->0),
        ].take(2) =~= seq![
            RequestModel::PathExists("codebook-lsp"@),
            RequestModel::Which("codebook-lsp"@),
        ]);
    }
    if in_order(latest(Some(path)), replies) {
        law_latest_binary_last(Some(path), replies);
    }
}

/// A reply of the wrong kind changes nothing.
pub proof fn law_search_ignores_stray_replies(machine: SearchModel, reply: ReplyModel)
    requires
        machine.phase is Development || machine.phase is Cached ==> reply !is Answer,
        machine.phase is System ==> reply !is Found,
        machine.phase matches SearchPhase::Latest { latest } ==> {
            let inner = LatestModel { cache: machine.cache, phase: latest };
            inner.step(reply) == Progress::<_, LatestOutcome>::Ask(inner)
        },
    ensures
        machine.step(reply) == Progress::<_, LatestOutcome>::Ask(machine),
{
}

} // verus!

//! The command that starts the language server.

use vstd::prelude::*;

use crate::binary::{BinaryModel, CodebookBinary};
use crate::extension::CodebookExtension;
use crate::host::{
    asked, in_order, law_conversation_splits, result_view, run, Machine, Progress, Reply,
    ReplyModel, Request, RequestModel,
};
use crate::latest::LatestOutcome;
use crate::search::{law_search_remembers, Search, SearchModel, SearchPhase};

verus! {

/// What precedes the reason why there is no binary.
pub const LOAD_FAILED: &'static str =
    "Failed to load binary! This could be due to no internet connection, \
    or running on an unsupported platform. \n\n                \
    Please check that github.com is accessible and try again. \n\n                \
    Error: ";

/// The option that tells the language server where the project is.
pub const ROOT_OPTION: &'static str = "--root=";

/// The language server's subcommand.
pub const SERVE: &'static str = "serve";

/// A command to run.
#[derive(Debug, PartialEq, Eq)]
pub struct Command {
    pub command: String,
    pub args: Vec<String>,
    pub env: Vec<(String, String)>,
}

/// What a [`Command`] stands for.
pub struct CommandModel {
    pub command: Seq<char>,
    pub args: Seq<Seq<char>>,
    pub env: Seq<(Seq<char>, Seq<char>)>,
}

impl DeepView for Command {
    type V = CommandModel;

    open spec fn deep_view(&self) -> CommandModel {
        CommandModel {
            command: self.command@,
            args: self.args.deep_view(),
            env: self.env.deep_view(),
        }
    }
}

/// The command that runs `binary` on the project at `root`.
pub open spec fn server_command(binary: BinaryModel, root: Seq<char>) -> CommandModel {
    CommandModel {
        command: binary.path,
        args: seq![ROOT_OPTION@ + root, SERVE@],
        env: binary.env,
    }
}

/// The way to the command, waiting for the host.
#[derive(Debug, PartialEq, Eq)]
pub enum Launch {
    /// For what `search` waits for.
    Searching { search: Search },
    /// For the project's root, on which to run `binary`.
    Rooting { binary: CodebookBinary },
}

/// What a [`Launch`] stands for, apart from the extension's state.
pub enum LaunchPhase {
    Searching { search: SearchPhase },
    Rooting { binary: BinaryModel },
}

/// What a [`Launch`] and the extension's state stand for.
pub struct LaunchModel {
    /// Path of the binary that was found last.
    pub cache: Option<Seq<char>>,
    pub phase: LaunchPhase,
}

impl DeepView for Launch {
    type V = LaunchPhase;

    open spec fn deep_view(&self) -> LaunchPhase {
        match self {
            Launch::Searching { search } => LaunchPhase::Searching { search: search.deep_view() },
            Launch::Rooting { binary } => LaunchPhase::Rooting { binary: binary.deep_view() },
        }
    }
}

/// What a launch comes to: the state that the extension is left in, and the result.
pub type LaunchOutcome = (Option<Seq<char>>, Result<CommandModel, Seq<char>>);

/// What progress and the extension's state stand for.
pub open spec fn launch_view(
    extension: CodebookExtension,
    progress: Progress<Launch, Result<Command, String>>,
) -> Progress<LaunchModel, LaunchOutcome> {
    match progress {
        Progress::Ask(machine) => Progress::Ask(machine.model(extension)),
        Progress::Done(outcome) => Progress::Done((extension.deep_view(), result_view(outcome))),
    }
}

/// How a launch goes on when its search has come to `search`.
pub open spec fn after_search(search: Progress<SearchModel, LatestOutcome>) -> Progress<
    LaunchModel,
    LaunchOutcome,
> {
    match search {
        Progress::Ask(search) => Progress::Ask(
            LaunchModel {
                cache: search.cache,
                phase: LaunchPhase::Searching { search: search.phase },
            },
        ),
        Progress::Done((cache, Ok(binary))) => Progress::Ask(
            LaunchModel { cache, phase: LaunchPhase::Rooting { binary } },
        ),
        Progress::Done((cache, Err(e))) => Progress::Done((cache, Err(LOAD_FAILED@ + e))),
    }
}

impl LaunchPhase {
    /// What the launch waits for.
    pub open spec fn pending(self) -> RequestModel {
        match self {
            LaunchPhase::Searching { search } => search.pending(),
            LaunchPhase::Rooting { .. } => RequestModel::WorktreeRoot,
        }
    }
}

impl Machine for LaunchModel {
    type Outcome = LaunchOutcome;

    open spec fn pending(self) -> RequestModel {
        self.phase.pending()
    }

    open spec fn step(self, reply: ReplyModel) -> Progress<Self, Self::Outcome> {
        let cache = self.cache;
        match (self.phase, reply) {
            (LaunchPhase::Searching { search }, reply) => after_search(
                SearchModel { cache, phase: search }.step(reply),
            ),
            (LaunchPhase::Rooting { binary }, ReplyModel::Root(root)) => Progress::Done(
                (cache, Ok(server_command(binary, root))),
            ),
            _ => Progress::Ask(self),
        }
    }
}

impl LaunchModel {
    /// The search is well-formed.
    pub open spec fn wf(self) -> bool {
        match self.phase {
            LaunchPhase::Searching { search } => (SearchModel {
                cache: self.cache,
                phase: search,
            }).wf(),
            LaunchPhase::Rooting { .. } => true,
        }
    }

    /// The launch at its beginning.
    pub open spec fn new(cache: Option<Seq<char>>) -> LaunchModel {
        LaunchModel {
            cache,
            phase: LaunchPhase::Searching { search: SearchModel::new(cache).phase },
        }
    }
}

impl CodebookExtension {
    /// Begins to work out the command that starts the language server. The launch comes to the
    /// command, or to a message that says why there is none.
    pub fn language_server_command(&self) -> (res: Launch)
        ensures
            res.model(*self) == LaunchModel::new(self.deep_view()),
            res.wf(*self),
    {
        Launch::Searching { search: self.get_binary() }
    }
}

impl Launch {
    /// What the launch and the extension's state stand for.
    pub open spec fn model(self, extension: CodebookExtension) -> LaunchModel {
        LaunchModel { cache: extension.deep_view(), phase: self.deep_view() }
    }

    /// The search is well-formed.
    pub open spec fn wf(self, extension: CodebookExtension) -> bool {
        self.model(extension).wf()
    }

    /// What the launch waits for.
    pub fn pending(&self) -> (res: Request)
        ensures
            res.deep_view() == self.deep_view().pending(),
    {
        match self {
            Launch::Searching { search } => search.pending(),
            Launch::Rooting { .. } => Request::WorktreeRoot,
        }
    }

    /// What the launch makes of a reply.
    pub fn resume(self, extension: &mut CodebookExtension, reply: Reply) -> (res: Progress<
        Launch,
        Result<Command, String>,
    >)
        requires
            self.wf(*old(extension)),
        ensures
            launch_view(*final(extension), res) == self.model(*old(extension)).step(
                reply.deep_view(),
            ),
            res matches Progress::Ask(next) ==> next.wf(*final(extension)),
            self matches Launch::Rooting { binary } ==> reply matches Reply::Root(root) ==> {
                &&& res matches Progress::Done(Ok(command))
                &&& command.command == binary.path
                &&& command.args@.len() == 2
                &&& command.args@[0]@ == "--root="@ + root@
                &&& command.args@[1]@ == "serve"@
                &&& command.env == binary.env
            },
    {
        match (self, reply) {
            (Launch::Searching { search }, reply) => match search.resume(extension, reply) {
                Progress::Ask(search) => Progress::Ask(Launch::Searching { search }),
                Progress::Done(Ok(binary)) => Progress::Ask(Launch::Rooting { binary }),
                Progress::Done(Err(e)) => Progress::Done(
                    Err(LOAD_FAILED.to_string().concat(e.as_str())),
                ),
            },
            (Launch::Rooting { binary }, Reply::Root(root)) => {
                let mut args: Vec<String> = Vec::new();
                args.push(ROOT_OPTION.to_string().concat(root.as_str()));
                args.push(SERVE.to_string());
                assert(args.deep_view() =~= seq![ROOT_OPTION@ + root@, SERVE@]);
                Progress::Done(Ok(Command { command: binary.path, args, env: binary.env }))
            },
            (machine, _) => Progress::Ask(machine),
        }
    }
}

/// A search within a launch goes as it goes alone.
proof fn lemma_searching(search: SearchModel, replies: Seq<ReplyModel>)
    requires
        in_order(Progress::Ask(search), replies),
    ensures
        ({
            let start = after_search(Progress::Ask(search));
            &&& in_order(start, replies)
            &&& run(start, replies) == after_search(run(Progress::Ask(search), replies))
            &&& asked(start, replies) == asked(Progress::Ask(search), replies)
        }),
    decreases replies.len(),
{
    if replies.len() > 0 {
        reveal_with_fuel(run, 2);
        reveal_with_fuel(asked, 2);
        reveal_with_fuel(in_order, 2);
        match search.step(replies.first()) {
            Progress::Ask(next) => {
                lemma_searching(next, replies.drop_first());
            },
            Progress::Done(_) => {
                assert(replies.drop_first() =~= seq![]);
            },
        }
    }
}

/// A binary is run on the project's root, with its own environment; for the root alone the host is
/// asked once the binary is found.
pub proof fn law_launch_runs_binary(
    cache: Option<Seq<char>>,
    replies: Seq<ReplyModel>,
    after: Option<Seq<char>>,
    binary: BinaryModel,
    root: Seq<char>,
)
    requires
        in_order(Progress::Ask(SearchModel::new(cache)), replies),
        run(Progress::Ask(SearchModel::new(cache)), replies) == Progress::<SearchModel, _>::Done(
            (after, Ok::<_, Seq<char>>(binary)),
        ),
    ensures
        ({
            let start = Progress::Ask(LaunchModel::new(cache));
            let all = replies + seq![ReplyModel::Root(root)];
            &&& in_order(start, all)
            &&& run(start, all) == Progress::<LaunchModel, _>::Done(
                (after, Ok::<_, Seq<char>>(server_command(binary, root))),
            )
            &&& asked(start, all) == asked(Progress::Ask(SearchModel::new(cache)), replies).push(
                RequestModel::WorktreeRoot,
            )
        }),
{
    reveal_with_fuel(run, 2);
    reveal_with_fuel(asked, 2);
    reveal_with_fuel(in_order, 2);
    let start = Progress::Ask(LaunchModel::new(cache));
    let last = seq![ReplyModel::Root(root)];
    let rooting = Progress::Ask(
        LaunchModel { cache: after, phase: LaunchPhase::Rooting { binary } },
    );
    lemma_searching(SearchModel::new(cache), replies);
    law_conversation_splits(start, replies, last);
    assert(last.drop_first() =~= seq![]);
    assert(asked(rooting, last) =~= seq![RequestModel::WorktreeRoot]);
    assert(asked(start, replies + last) =~= asked(
        Progress::Ask(SearchModel::new(cache)),
        replies,
    ).push(RequestModel::WorktreeRoot));
}

/// When no binary is found, the launch fails with the reason, and the host is asked nothing more.
pub proof fn law_launch_explains_failure(
    cache: Option<Seq<char>>,
    replies: Seq<ReplyModel>,
    after: Option<Seq<char>>,
    error: Seq<char>,
)
    requires
        in_order(Progress::Ask(SearchModel::new(cache)), replies),
        run(Progress::Ask(SearchModel::new(cache)), replies) == Progress::<SearchModel, _>::Done(
            (after, Err::<BinaryModel, _>(error)),
        ),
    ensures
        ({
            let start = Progress::Ask(LaunchModel::new(cache));
            &&& in_order(start, replies)
            &&& run(start, replies) == Progress::<LaunchModel, _>::Done(
                (after, Err::<CommandModel, _>(LOAD_FAILED@ + error)),
            )
            &&& asked(start, replies) == asked(Progress::Ask(SearchModel::new(cache)), replies)
        }),
{
    lemma_searching(SearchModel::new(cache), replies);
}

/// Whatever the host replies, what a launch fails with starts with the general explanation, and a
/// launch that fails leaves the extension's state as it was.
pub proof fn law_launch_failure(cache: Option<Seq<char>>, replies: Seq<ReplyModel>)
    ensures
        run(Progress::Ask(LaunchModel::new(cache)), replies) matches Progress::Done(
            (after, Err(e)),
        ) ==> {
            &&& LOAD_FAILED@.is_prefix_of(e)
            &&& after == cache
        },
{
    lemma_launch_failure(LaunchModel::new(cache), cache, replies);
}

proof fn lemma_launch_failure(
    machine: LaunchModel,
    cache: Option<Seq<char>>,
    replies: Seq<ReplyModel>,
)
    requires
        machine.phase matches LaunchPhase::Searching { search } ==> (SearchModel {
            cache: machine.cache,
            phase: search,
        }).remembers(cache),
    ensures
        run(Progress::Ask(machine), replies) matches Progress::Done((after, Err(e))) ==> {
            &&& LOAD_FAILED@.is_prefix_of(e)
            &&& after == cache
        },
    decreases replies.len(),
{
    reveal_with_fuel(run, 2);
    if replies.len() > 0 {
        match machine.step(replies.first()) {
            Progress::Ask(next) => {
                lemma_launch_failure(next, cache, replies.drop_first());
            },
            Progress::Done((_, Err(e))) => {
                let search = machine.phase->Searching_search;
                law_search_remembers(
                    SearchModel { cache: machine.cache, phase: search },
                    cache,
                    replies.take(1),
                );
                assert(LOAD_FAILED@ =~= e.subrange(0, LOAD_FAILED@.len() as int));
            },
            Progress::Done(_) => {},
        }
    }
}

/// For every binary and every root, the command has exactly two arguments: `--root=` followed by
/// the whole root, and `serve`. It runs the binary's path in the binary's environment.
pub proof fn law_server_command(binary: BinaryModel, root: Seq<char>)
    ensures
        server_command(binary, root).command == binary.path,
        server_command(binary, root).args.len() == 2,
        server_command(binary, root).args[0] == "--root="@ + root,
        server_command(binary, root).args[1] == "serve"@,
        server_command(binary, root).env == binary.env,
{
}

/// Different roots lead to different commands.
pub proof fn law_server_command_keeps_root(
    binary: BinaryModel,
    root1: Seq<char>,
    root2: Seq<char>,
)
    requires
        root1 != root2,
    ensures
        server_command(binary, root1) != server_command(binary, root2),
{
    let args1 = server_command(binary, root1).args;
    let args2 = server_command(binary, root2).args;
    if args1 == args2 {
        let n = "--root="@.len() as int;
        assert(("--root="@ + root1).skip(n) =~= root1);
        assert(("--root="@ + root2).skip(n) =~= root2);
        assert(args1[0] == args2[0]);
    }
}

/// A launch that has found a binary comes, for every root, to the command that runs the binary's
/// path, in the binary's environment, with `--root=` and the whole root, and with `serve`.
pub proof fn law_launch_comes_to_command(
    cache: Option<Seq<char>>,
    replies: Seq<ReplyModel>,
    after: Option<Seq<char>>,
    binary: BinaryModel,
    root: Seq<char>,
)
    requires
        in_order(Progress::Ask(SearchModel::new(cache)), replies),
        run(Progress::Ask(SearchModel::new(cache)), replies) == Progress::<SearchModel, _>::Done(
            (after, Ok::<_, Seq<char>>(binary)),
        ),
    ensures
        ({
            let start = Progress::Ask(LaunchModel::new(cache));
            let all = replies + seq![ReplyModel::Root(root)];
            &&& run(start, all) == Progress::<LaunchModel, _>::Done(
                (
                    after,
                    Ok::<_, Seq<char>>(
                        CommandModel {
                            command: binary.path,
                            args: seq!["--root="@ + root, "serve"@],
                            env: binary.env,
                        },
                    ),
                ),
            )
            &&& asked(start, all) == asked(Progress::Ask(SearchModel::new(cache)), replies).push(
                RequestModel::WorktreeRoot,
            )
        }),
{
    law_launch_runs_binary(cache, replies, after, binary, root);
    law_server_command(binary, root);
    assert(server_command(binary, root).args =~= seq!["--root="@ + root, "serve"@]);
}

/// A launch whose search fails says so in full, with the search's error at the end.
pub proof fn law_launch_failure_message(
    cache: Option<Seq<char>>,
    replies: Seq<ReplyModel>,
    after: Option<Seq<char>>,
    error: Seq<char>,
)
    requires
        in_order(Progress::Ask(SearchModel::new(cache)), replies),
        run(Progress::Ask(SearchModel::new(cache)), replies) == Progress::<SearchModel, _>::Done(
            (after, Err::<BinaryModel, _>(error)),
        ),
    ensures
        run(Progress::Ask(LaunchModel::new(cache)), replies) == Progress::<LaunchModel, _>::Done(
            (
                after,
                Err::<CommandModel, _>(
                    "Failed to load binary! This could be due to no internet connection, or \
                    running on an unsupported platform. \n\n                Please check that \
                    github.com is accessible and try again. \n\n                Error: "@ + error,
                ),
            ),
        ),
{
    law_launch_explains_failure(cache, replies, after, error);
}

/// A reply of the wrong kind changes nothing.
pub proof fn law_launch_ignores_stray_replies(machine: LaunchModel, reply: ReplyModel)
    requires
        machine.phase is Rooting ==> reply !is Root,
        machine.phase matches LaunchPhase::Searching { search } ==> {
            let inner = SearchModel { cache: machine.cache, phase: search };
            inner.step(reply) == Progress::<_, LatestOutcome>::Ask(inner)
        },
    ensures
        machine.step(reply) == Progress::<_, LaunchOutcome>::Ask(machine),
{
}

} // verus!

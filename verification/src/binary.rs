//! The language server binary and the environment it is started with.

use vstd::prelude::*;

verus! {

/// Name of the language server executable, and stem of everything that is named after it.
pub const EXTENSION_LSP_NAME: &'static str = "codebook-lsp";

/// Environment variable that selects the log level.
pub const ENV_RUST_LOG: &'static str = "RUST_LOG";

/// Environment variable that switches backtraces on.
pub const ENV_RUST_BACKTRACE: &'static str = "RUST_BACKTRACE";

/// Log level of a development binary.
pub const LOG_LEVEL_DEBUG: &'static str = "debug";

/// Log level of every other binary.
pub const LOG_LEVEL_INFO: &'static str = "info";

/// A language server binary that can be started.
#[derive(Debug, PartialEq, Eq)]
pub struct CodebookBinary {
    /// Where the binary is.
    pub path: String,
    /// The environment variables to start it with, in order.
    pub env: Vec<(String, String)>,
}

/// What a [`CodebookBinary`] stands for.
pub struct BinaryModel {
    pub path: Seq<char>,
    pub env: Seq<(Seq<char>, Seq<char>)>,
}

impl DeepView for CodebookBinary {
    type V = BinaryModel;

    open spec fn deep_view(&self) -> BinaryModel {
        BinaryModel { path: self.path@, env: self.env.deep_view() }
    }
}

impl BinaryModel {
    /// The binary at `path`, logging at `log_level`.
    pub open spec fn new(path: Seq<char>, log_level: Seq<char>) -> BinaryModel {
        BinaryModel { path, env: seq![(ENV_RUST_LOG@, log_level)] }
    }

    /// The binary with one more environment variable.
    pub open spec fn with_env(self, name: Seq<char>, value: Seq<char>) -> BinaryModel {
        BinaryModel { path: self.path, env: self.env.push((name, value)) }
    }

    /// The binary that a developer has put into the extension's directory.
    pub open spec fn development() -> BinaryModel {
        BinaryModel::new(EXTENSION_LSP_NAME@, LOG_LEVEL_DEBUG@).with_env(ENV_RUST_BACKTRACE@, "1"@)
    }

    /// A binary as users run it.
    pub open spec fn released(path: Seq<char>) -> BinaryModel {
        BinaryModel::new(path, LOG_LEVEL_INFO@)
    }
}

impl Clone for CodebookBinary {
    fn clone(&self) -> (res: Self)
        ensures
            res.deep_view() == self.deep_view(),
    {
        let mut env: Vec<(String, String)> = Vec::new();
        let mut i: usize = 0;
        while i < self.env.len()
            invariant
                i <= self.env.len(),
                env.deep_view() == self.env.deep_view().take(i as int),
            decreases self.env.len() - i,
        {
            let ghost before = env.deep_view();
            let (name, value) = &self.env[i];
            env.push((name.clone(), value.clone()));
            assert(env.deep_view() =~= before.push(self.env.deep_view()[i as int]));
            i = i + 1;
            assert(env.deep_view() =~= self.env.deep_view().take(i as int));
        }
        assert(self.env.deep_view().take(i as int) =~= self.env.deep_view());
        CodebookBinary { path: self.path.clone(), env }
    }
}

impl CodebookBinary {
    /// The binary at `path`, logging at `log_level`.
    pub fn new(path: String, log_level: &str) -> (res: Self)
        ensures
            res.deep_view() == BinaryModel::new(path@, log_level@),
            res.path@ == path@,
            res.env@.len() == 1,
            res.env@[0].0@ == "RUST_LOG"@,
            res.env@[0].1@ == log_level@,
    {
        let mut env: Vec<(String, String)> = Vec::new();
        env.push((ENV_RUST_LOG.to_string(), log_level.to_string()));
        let res = CodebookBinary { path, env };
        assert(res.env.deep_view() =~= seq![(ENV_RUST_LOG@, log_level@)]);
        res
    }
}

/// A binary has the path and the log level that it was made for, and no other environment variable.
pub proof fn law_binary_has_path_and_log_level(path: Seq<char>, log_level: Seq<char>)
    ensures
        BinaryModel::new(path, log_level).path == path,
        BinaryModel::new(path, log_level).env.len() == 1,
        BinaryModel::new(path, log_level).env[0] == ("RUST_LOG"@, log_level),
{
}

/// A further environment variable comes last, and changes nothing else.
pub proof fn law_environment_grows(
    binary: BinaryModel,
    name: Seq<char>,
    value: Seq<char>,
    i: int,
)
    ensures
        binary.with_env(name, value).path == binary.path,
        binary.with_env(name, value).env.len() == binary.env.len() + 1,
        binary.with_env(name, value).env[binary.env.len() as int] == (name, value),
        0 <= i < binary.env.len() ==> binary.with_env(name, value).env[i] == binary.env[i],
{
}

/// A binary as users run it logs at `info`, wherever it is.
pub proof fn law_released_binary(path: Seq<char>)
    ensures
        BinaryModel::released(path).path == path,
        BinaryModel::released(path).env == seq![("RUST_LOG"@, "info"@)],
{
}

/// The development binary is the file next to the extension; it logs at `debug`, with backtraces.
pub proof fn law_development_binary()
    ensures
        BinaryModel::development().path == "codebook-lsp"@,
        BinaryModel::development().env == seq![
            ("RUST_LOG"@, "debug"@),
            ("RUST_BACKTRACE"@, "1"@),
        ],
{
    assert(BinaryModel::development().env =~= seq![
        ("RUST_LOG"@, "debug"@),
        ("RUST_BACKTRACE"@, "1"@),
    ]);
}

} // verus!

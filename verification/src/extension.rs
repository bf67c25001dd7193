//! The extension's state and the decisions that need a single answer of the host.

use vstd::prelude::*;

use crate::binary::{
    BinaryModel, CodebookBinary, ENV_RUST_BACKTRACE, EXTENSION_LSP_NAME, LOG_LEVEL_DEBUG,
    LOG_LEVEL_INFO,
};
use crate::host::{result_view, ReadFailure, ReadFailureModel};
use crate::platform::{
    architecture_name, asset_file_name, binary_file_name, law_asset_file_name, law_platform_names,
    platform_descriptor, Architecture, Os, X86_NOT_SUPPORTED,
};
use crate::release::{
    first_named, law_first_named, AssetModel, GithubRelease, GithubReleaseAsset, ReleaseModel,
};
use crate::text::{is_white_space, law_trim_keeps_the_middle, trimmed};

verus! {

/// The file that records which version is installed.
pub const VERSION_FILE: &'static str = ".version";

/// What is said when no version has been installed yet.
pub const NO_CACHED_BINARY: &'static str = "no cached binary yet";

/// What precedes the reason why the version file could not be read.
pub const READ_VERSION_FAILED: &'static str = "Failed to read version file: ";

/// What precedes the reason why the version file could not be written.
pub const WRITE_VERSION_FAILED: &'static str = "Failed to write version file: ";

/// What precedes the platform for which a release has no asset.
pub const NO_COMPATIBLE_BINARY: &'static str = "No compatible binary found for ";

/// The state that the extension keeps between calls.
#[derive(Debug, PartialEq, Eq)]
pub struct CodebookExtension {
    /// Path of the binary that was installed or loaded last.
    pub binary_cache: Option<String>,
}

impl DeepView for CodebookExtension {
    type V = Option<Seq<char>>;

    open spec fn deep_view(&self) -> Option<Seq<char>> {
        self.binary_cache.deep_view()
    }
}

/// The directory of `version`.
pub open spec fn version_directory(version: Seq<char>) -> Seq<char> {
    EXTENSION_LSP_NAME@ + "-"@ + version
}

/// What reading the version file comes to.
pub open spec fn version_read(contents: Result<Seq<char>, ReadFailureModel>) -> Result<
    Seq<char>,
    Seq<char>,
> {
    match contents {
        Ok(text) => Ok(trimmed(text)),
        Err(ReadFailureModel::NotFound) => Err(NO_CACHED_BINARY@),
        Err(ReadFailureModel::Other(reason)) => Err(READ_VERSION_FAILED@ + reason),
    }
}

/// The asset of `release` for a platform.
pub open spec fn compatible_asset(release: ReleaseModel, os: Os, arch: Architecture) -> Result<
    AssetModel,
    Seq<char>,
> {
    match architecture_name(arch) {
        None => Err(X86_NOT_SUPPORTED@),
        Some(arch_name) => match first_named(release.assets, asset_file_name(arch_name, os)) {
            Some(asset) => Ok(asset),
            None => Err(NO_COMPATIBLE_BINARY@ + platform_descriptor(arch_name, os)),
        },
    }
}

impl CodebookExtension {
    /// An extension that has not found a binary yet.
    pub fn new() -> (res: Self)
        ensures
            res.binary_cache is None,
    {
        CodebookExtension { binary_cache: None }
    }

    /// The development binary; `exists` tells whether there is one in the extension's directory.
    pub fn find_development_binary(&self, exists: bool) -> (res: Result<
        Option<CodebookBinary>,
        String,
    >)
        ensures
            res matches Ok(binary) && binary.deep_view() == (if exists {
                Some(BinaryModel::development())
            } else {
                None
            }),
    {
        if exists {
            let mut binary = CodebookBinary::new(EXTENSION_LSP_NAME.to_string(), LOG_LEVEL_DEBUG);
            let ghost before = binary;
            binary.env.push((ENV_RUST_BACKTRACE.to_string(), "1".to_string()));
            assert(binary.env.deep_view() =~= before.env.deep_view().push(
                (ENV_RUST_BACKTRACE@, "1"@),
            ));
            Ok(Some(binary))
        } else {
            Ok(None)
        }
    }

    /// The binary on the system's `PATH`; `found` is where it is.
    pub fn find_system_binary(&self, found: Option<String>) -> (res: Result<
        Option<CodebookBinary>,
        String,
    >)
        ensures
            res matches Ok(binary) && binary.deep_view() == (match found {
                Some(path) => Some(BinaryModel::released(path@)),
                None => None,
            }),
    {
        if let Some(path) = found {
            Ok(Some(CodebookBinary::new(path, LOG_LEVEL_INFO)))
        } else {
            Ok(None)
        }
    }

    /// The binary that was found last; `exists` tells whether it is still there.
    pub fn get_cached_binary(&self, exists: bool) -> (res: Result<Option<CodebookBinary>, String>)
        ensures
            res matches Ok(binary) && binary.deep_view() == (match self.deep_view() {
                Some(path) if exists => Some(BinaryModel::released(path)),
                _ => None,
            }),
    {
        if let Some(path) = &self.binary_cache {
            if exists {
                return Ok(Some(CodebookBinary::new(path.clone(), LOG_LEVEL_INFO)));
            }
        }
        Ok(None)
    }

    /// The binary at the path that [`CodebookExtension::get_cached_binary_path`] came to.
    pub fn load_existing_binary(&self, path: Result<String, String>) -> (res: Result<
        CodebookBinary,
        String,
    >)
        ensures
            result_view(res) == (match path {
                Ok(path) => Ok(BinaryModel::released(path@)),
                Err(e) => Err(e@),
            }),
    {
        match path {
            Ok(path) => Ok(CodebookBinary::new(path, LOG_LEVEL_INFO)),
            Err(e) => Err(e),
        }
    }

    /// The version that the contents of the version file name.
    pub fn read_version_file(&self, contents: Result<String, ReadFailure>) -> (res: Result<
        String,
        String,
    >)
        ensures
            result_view(res) == version_read(result_view(contents)),
    {
        match contents {
            Ok(text) => Ok(text.as_str().trim().to_string()),
            Err(ReadFailure::NotFound) => Err(NO_CACHED_BINARY.to_string()),
            Err(ReadFailure::Other(reason)) => Err(
                READ_VERSION_FAILED.to_string().concat(reason.as_str()),
            ),
        }
    }

    /// What writing the version file comes to.
    pub fn write_version_file(&self, written: Result<(), String>) -> (res: Result<(), String>)
        ensures
            result_view(res) == (match written {
                Ok(()) => Ok(()),
                Err(e) => Err(WRITE_VERSION_FAILED@ + e@),
            }),
    {
        match written {
            Ok(()) => Ok(()),
            Err(e) => Err(WRITE_VERSION_FAILED.to_string().concat(e.as_str())),
        }
    }

    /// The directory that `version` is installed in.
    pub fn get_version_directory_path(&self, version: &str) -> (res: String)
        ensures
            res@ == version_directory(version@),
    {
        EXTENSION_LSP_NAME.to_string().concat("-").concat(version)
    }

    /// The file name of the executable on `platform`.
    pub fn get_binary_filename(&self, platform: Os) -> (res: String)
        ensures
            res@ == binary_file_name(platform),
    {
        let binary = EXTENSION_LSP_NAME.to_string();
        if platform == Os::Windows {
            binary.concat(".exe")
        } else {
            binary
        }
    }

    /// The asset's file name and the platform's descriptor; an error on 32-bit x86 only.
    pub fn asset_name(&self, platform: Os, arch: Architecture) -> (res: Result<
        (String, String),
        String,
    >)
        ensures
            match architecture_name(arch) {
                None => res matches Err(e) && e@ == X86_NOT_SUPPORTED@,
                Some(arch_name) => res matches Ok((name, descriptor)) && name@ == asset_file_name(
                    arch_name,
                    platform,
                ) && descriptor@ == platform_descriptor(arch_name, platform),
            },
    {
        let arch_name = match arch {
            Architecture::Aarch64 => "aarch64",
            Architecture::X8664 => "x86_64",
            Architecture::X86 => {
                return Err(X86_NOT_SUPPORTED.to_string());
            },
        };
        let (os_str, file_ext) = match platform {
            Os::Mac => ("apple-darwin", "tar.gz"),
            Os::Linux => ("unknown-linux-musl", "tar.gz"),
            Os::Windows => ("pc-windows-msvc", "zip"),
        };
        let descriptor = arch_name.to_string().concat("-").concat(os_str);
        let name = EXTENSION_LSP_NAME.to_string().concat("-").concat(descriptor.as_str()).concat(
            ".",
        ).concat(file_ext);
        Ok((name, descriptor))
    }

    /// The asset of `release` for the platform.
    pub fn find_compatible_asset<'a>(
        &self,
        platform: Os,
        arch: Architecture,
        release: &'a GithubRelease,
    ) -> (res: Result<&'a GithubReleaseAsset, String>)
        ensures
            result_view(res) == compatible_asset(release.deep_view(), platform, arch),
    {
        let (asset_name, descriptor) = match self.asset_name(platform, arch) {
            Ok(names) => names,
            Err(e) => {
                return Err(e);
            },
        };
        match release.find_asset(&asset_name) {
            Some(asset) => Ok(asset),
            None => Err(NO_COMPATIBLE_BINARY.to_string().concat(descriptor.as_str())),
        }
    }
}

/// The directory of a version is named after the language server and the version.
pub proof fn law_version_directory(version: Seq<char>)
    ensures
        version_directory(version) == "codebook-lsp-"@ + version,
{
    reveal_strlit("codebook-lsp");
    reveal_strlit("-");
    reveal_strlit("codebook-lsp-");
    assert("codebook-lsp"@ + "-"@ =~= "codebook-lsp-"@);
}

/// The version read is the whole text of the version file but for the white space around it; that
/// the file is missing is told apart from everything else that can go wrong.
pub proof fn law_version_read(
    before: Seq<char>,
    version: Seq<char>,
    after: Seq<char>,
    reason: Seq<char>,
)
    requires
        forall|i: int| 0 <= i < before.len() ==> is_white_space(#[trigger] before[i]),
        forall|i: int| 0 <= i < after.len() ==> is_white_space(#[trigger] after[i]),
        version.len() > 0 ==> !is_white_space(version[0]),
        version.len() > 0 ==> !is_white_space(version[version.len() - 1]),
    ensures
        version_read(Ok(before + version + after)) == Ok::<_, Seq<char>>(version),
        version_read(Err(ReadFailureModel::NotFound)) == Err::<Seq<char>, _>(
            "no cached binary yet"@,
        ),
        version_read(Err(ReadFailureModel::Other(reason))) == Err::<Seq<char>, _>(
            "Failed to read version file: "@ + reason,
        ),
{
    law_trim_keeps_the_middle(before, version, after);
}

/// The asset chosen is the first one in the release that is named after the very operating system
/// and architecture asked for. The choice fails on 32-bit x86, and otherwise exactly when the
/// release has no asset of that name; the error then names the platform.
pub proof fn law_compatible_asset(release: ReleaseModel, os: Os, arch: Architecture)
    ensures
        ({
            let platform = match (os, arch) {
                (Os::Mac, Architecture::Aarch64) => "aarch64-apple-darwin"@,
                (Os::Mac, _) => "x86_64-apple-darwin"@,
                (Os::Linux, Architecture::Aarch64) => "aarch64-unknown-linux-musl"@,
                (Os::Linux, _) => "x86_64-unknown-linux-musl"@,
                (Os::Windows, Architecture::Aarch64) => "aarch64-pc-windows-msvc"@,
                (Os::Windows, _) => "x86_64-pc-windows-msvc"@,
            };
            let name = "codebook-lsp-"@ + platform + (if os == Os::Windows {
                ".zip"@
            } else {
                ".tar.gz"@
            });
            let assets = release.assets;
            match compatible_asset(release, os, arch) {
                Ok(asset) => {
                    &&& arch != Architecture::X86
                    &&& asset.name == name
                    &&& exists|i: int|
                        0 <= i < assets.len() && #[trigger] assets[i] == asset && (forall|j: int|
                            0 <= j < i ==> (#[trigger] assets[j]).name != name)
                },
                Err(e) => if arch == Architecture::X86 {
                    e == "x86 architecture is not supported"@
                } else {
                    &&& e == "No compatible binary found for "@ + platform
                    &&& forall|j: int| 0 <= j < assets.len() ==> (#[trigger] assets[j]).name != name
                },
            }
        }),
{
    law_platform_names(os, arch);
    law_asset_file_name(os, arch);
    if let Some(arch_name) = architecture_name(arch) {
        law_first_named(release.assets, asset_file_name(arch_name, os));
    }
}

} // verus!

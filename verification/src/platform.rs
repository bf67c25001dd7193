//! Platforms, and the names that release assets have on them.

use vstd::prelude::*;

use crate::binary::EXTENSION_LSP_NAME;

verus! {

/// An operating system.
#[derive(Clone, Copy, Debug, PartialEq, Eq, Structural)]
pub enum Os {
    Mac,
    Linux,
    Windows,
}

/// A processor architecture.
#[derive(Clone, Copy, Debug, PartialEq, Eq, Structural)]
pub enum Architecture {
    Aarch64,
    X86,
    X8664,
}

/// How a downloaded archive is packed.
#[derive(Clone, Copy, Debug, PartialEq, Eq, Structural)]
pub enum DownloadedFileType {
    GzipTar,
    Zip,
}

/// What is said of a platform for which nothing is released.
pub const X86_NOT_SUPPORTED: &'static str = "x86 architecture is not supported";

/// The architecture as asset names spell it, where assets are built for it.
pub open spec fn architecture_name(arch: Architecture) -> Option<Seq<char>> {
    match arch {
        Architecture::Aarch64 => Some("aarch64"@),
        Architecture::X8664 => Some("x86_64"@),
        Architecture::X86 => None,
    }
}

/// The operating system as asset names spell it.
pub open spec fn os_name(os: Os) -> Seq<char> {
    match os {
        Os::Mac => "apple-darwin"@,
        Os::Linux => "unknown-linux-musl"@,
        Os::Windows => "pc-windows-msvc"@,
    }
}

/// How archives for `os` are packed.
pub open spec fn archive_type(os: Os) -> DownloadedFileType {
    match os {
        Os::Windows => DownloadedFileType::Zip,
        _ => DownloadedFileType::GzipTar,
    }
}

/// The extension of an archive's file name.
pub open spec fn archive_extension(file_type: DownloadedFileType) -> Seq<char> {
    match file_type {
        DownloadedFileType::Zip => "zip"@,
        DownloadedFileType::GzipTar => "tar.gz"@,
    }
}

/// The platform's name: architecture, then operating system.
pub open spec fn platform_descriptor(arch_name: Seq<char>, os: Os) -> Seq<char> {
    arch_name + "-"@ + os_name(os)
}

/// The file name of the release asset for a platform.
pub open spec fn asset_file_name(arch_name: Seq<char>, os: Os) -> Seq<char> {
    EXTENSION_LSP_NAME@ + "-"@ + platform_descriptor(arch_name, os) + "."@ + archive_extension(
        archive_type(os),
    )
}

/// The file name of the executable on `os`.
pub open spec fn binary_file_name(os: Os) -> Seq<char> {
    match os {
        Os::Windows => EXTENSION_LSP_NAME@ + ".exe"@,
        _ => EXTENSION_LSP_NAME@,
    }
}

/// How the archive for `platform` is packed.
pub fn downloaded_file_type(platform: Os) -> (res: DownloadedFileType)
    ensures
        res == archive_type(platform),
{
    if platform == Os::Windows {
        DownloadedFileType::Zip
    } else {
        DownloadedFileType::GzipTar
    }
}

/// Different platforms have different descriptors and different assets.
pub proof fn law_assets_tell_platforms_apart(
    arch1: Architecture,
    os1: Os,
    arch2: Architecture,
    os2: Os,
)
    requires
        architecture_name(arch1) is Some,
        architecture_name(arch2) is Some,
        arch1 != arch2 || os1 != os2,
    ensures
        platform_descriptor(architecture_name(arch1)->0, os1) != platform_descriptor(
            architecture_name(arch2)->0,
            os2,
        ),
        asset_file_name(architecture_name(arch1)->0, os1) != asset_file_name(
            architecture_name(arch2)->0,
            os2,
        ),
{
    reveal_strlit("aarch64");
    reveal_strlit("x86_64");
    reveal_strlit("-");
    reveal_strlit("apple-darwin");
    reveal_strlit("unknown-linux-musl");
    reveal_strlit("pc-windows-msvc");
    let d1 = platform_descriptor(architecture_name(arch1)->0, os1);
    let d2 = platform_descriptor(architecture_name(arch2)->0, os2);
    let at: int = if arch1 != arch2 {
        0
    } else if arch1 == Architecture::Aarch64 {
        8
    } else {
        7
    };
    assert(d1[at] != d2[at]);
    let n = EXTENSION_LSP_NAME@.len() + 1;
    assert(asset_file_name(architecture_name(arch1)->0, os1)[n + at] == d1[at]);
    assert(asset_file_name(architecture_name(arch2)->0, os2)[n + at] == d2[at]);
}

/// An asset's file name ends in the extension of the archive type it is unpacked as.
pub proof fn law_asset_extension_matches_archive(arch_name: Seq<char>, os: Os)
    ensures
        ("."@ + archive_extension(archive_type(os))).is_suffix_of(asset_file_name(arch_name, os)),
{
    let name = asset_file_name(arch_name, os);
    let suffix = "."@ + archive_extension(archive_type(os));
    assert(name.subrange(name.len() - suffix.len(), name.len() as int) =~= suffix);
}

/// The name of every platform for which there are assets.
pub proof fn law_platform_names(os: Os, arch: Architecture)
    ensures
        architecture_name(arch) is None <==> arch == Architecture::X86,
        architecture_name(arch) matches Some(name) ==> platform_descriptor(name, os) == (match (
            os,
            arch,
        ) {
            (Os::Mac, Architecture::Aarch64) => "aarch64-apple-darwin"@,
            (Os::Mac, _) => "x86_64-apple-darwin"@,
            (Os::Linux, Architecture::Aarch64) => "aarch64-unknown-linux-musl"@,
            (Os::Linux, _) => "x86_64-unknown-linux-musl"@,
            (Os::Windows, Architecture::Aarch64) => "aarch64-pc-windows-msvc"@,
            (Os::Windows, _) => "x86_64-pc-windows-msvc"@,
        }),
{
    reveal_strlit("aarch64");
    reveal_strlit("x86_64");
    reveal_strlit("-");
    reveal_strlit("apple-darwin");
    reveal_strlit("unknown-linux-musl");
    reveal_strlit("pc-windows-msvc");
    reveal_strlit("aarch64-apple-darwin");
    reveal_strlit("x86_64-apple-darwin");
    reveal_strlit("aarch64-unknown-linux-musl");
    reveal_strlit("x86_64-unknown-linux-musl");
    reveal_strlit("aarch64-pc-windows-msvc");
    reveal_strlit("x86_64-pc-windows-msvc");
    let a = "aarch64"@ + "-"@;
    let x = "x86_64"@ + "-"@;
    match os {
        Os::Mac => {
            assert(a + "apple-darwin"@ =~= "aarch64-apple-darwin"@);
            assert(x + "apple-darwin"@ =~= "x86_64-apple-darwin"@);
        },
        Os::Linux => {
            assert(a + "unknown-linux-musl"@ =~= "aarch64-unknown-linux-musl"@);
            assert(x + "unknown-linux-musl"@ =~= "x86_64-unknown-linux-musl"@);
        },
        Os::Windows => {
            assert(a + "pc-windows-msvc"@ =~= "aarch64-pc-windows-msvc"@);
            assert(x + "pc-windows-msvc"@ =~= "x86_64-pc-windows-msvc"@);
        },
    }
}

/// An asset is named after the language server and its platform, and packed as the platform has it:
/// as a ZIP file on Windows, and as a gzipped tar archive elsewhere.
pub proof fn law_asset_file_name(os: Os, arch: Architecture)
    ensures
        archive_type(os) == DownloadedFileType::Zip <==> os == Os::Windows,
        architecture_name(arch) matches Some(name) ==> asset_file_name(name, os) == "codebook-lsp-"@
            + platform_descriptor(name, os) + (if os == Os::Windows {
            ".zip"@
        } else {
            ".tar.gz"@
        }),
{
    reveal_strlit("codebook-lsp");
    reveal_strlit("-");
    reveal_strlit("codebook-lsp-");
    reveal_strlit(".");
    reveal_strlit("zip");
    reveal_strlit(".zip");
    reveal_strlit("tar.gz");
    reveal_strlit(".tar.gz");
    assert("codebook-lsp"@ + "-"@ =~= "codebook-lsp-"@);
    assert("."@ + "zip"@ =~= ".zip"@);
    assert("."@ + "tar.gz"@ =~= ".tar.gz"@);
    if let Some(name) = architecture_name(arch) {
        let descriptor = platform_descriptor(name, os);
        assert(asset_file_name(name, os) =~= "codebook-lsp-"@ + descriptor + ("."@
            + archive_extension(archive_type(os))));
    }
}

/// The executable has the extension `exe` on Windows, and none elsewhere.
pub proof fn law_binary_file_name()
    ensures
        binary_file_name(Os::Windows) == "codebook-lsp.exe"@,
        binary_file_name(Os::Mac) == "codebook-lsp"@,
        binary_file_name(Os::Linux) == "codebook-lsp"@,
{
    reveal_strlit("codebook-lsp");
    reveal_strlit(".exe");
    reveal_strlit("codebook-lsp.exe");
    assert("codebook-lsp"@ + ".exe"@ =~= "codebook-lsp.exe"@);
}

} // verus!

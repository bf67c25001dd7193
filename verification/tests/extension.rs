use std::path::Path;

use codebook_zed::binary::{CodebookBinary, ENV_RUST_LOG, LOG_LEVEL_DEBUG, LOG_LEVEL_INFO};
use codebook_zed::extension::CodebookExtension;
use codebook_zed::platform::{downloaded_file_type, Architecture, DownloadedFileType, Os};
use codebook_zed::release::{GithubRelease, GithubReleaseAsset};

#[test]
fn test_codebook_binary_new() {
    let path = String::from("/test/path/binary");
    let binary = CodebookBinary::new(path.clone(), LOG_LEVEL_DEBUG);

    assert_eq!(binary.path, path);
    assert_eq!(binary.env.len(), 1);
    assert_eq!(binary.env[0].0, ENV_RUST_LOG);
    assert_eq!(binary.env[0].1, LOG_LEVEL_DEBUG);
}

#[test]
fn test_codebook_binary_with_info_level() {
    let path = String::from("/usr/bin/codebook");
    let binary = CodebookBinary::new(path.clone(), LOG_LEVEL_INFO);

    assert_eq!(binary.path, path);
    assert_eq!(
        binary.env[0],
        (ENV_RUST_LOG.to_string(), LOG_LEVEL_INFO.to_string())
    );
}

#[test]
fn test_get_version_directory_path() {
    let extension = CodebookExtension::new();
    let version = "1.2.3";
    let path = extension.get_version_directory_path(version);

    assert_eq!(path, String::from("codebook-lsp-1.2.3"));
}

#[test]
fn test_get_version_directory_path_with_prerelease() {
    let extension = CodebookExtension::new();
    let version = "2.0.0-beta.1";
    let path = extension.get_version_directory_path(version);

    assert_eq!(path, String::from("codebook-lsp-2.0.0-beta.1"));
}

#[test]
fn test_windows_arm64_asset_name_includes_exe_variant() {
    let extension = CodebookExtension::new();
    let (name, descriptor) = extension
        .asset_name(Os::Windows, Architecture::Aarch64)
        .expect("expected candidates");

    assert_eq!(descriptor, "aarch64-pc-windows-msvc");
    assert_eq!(name, "codebook-lsp-aarch64-pc-windows-msvc.zip");
}

#[test]
fn test_macos_x86_asset_name_does_not_include_exe_variant() {
    let extension = CodebookExtension::new();
    let (name, descriptor) = extension
        .asset_name(Os::Mac, Architecture::X8664)
        .expect("expected candidates");

    assert_eq!(descriptor, "x86_64-apple-darwin");
    assert_eq!(name, "codebook-lsp-x86_64-apple-darwin.tar.gz");
}

#[test]
fn test_extension_new() {
    let extension = CodebookExtension::new();
    assert!(extension.binary_cache.is_none());
}

#[test]
fn test_get_cached_binary_no_cache() {
    let extension = CodebookExtension::new();
    let result = extension.get_cached_binary(false).unwrap();
    assert!(result.is_none());
}

#[test]
fn test_get_cached_binary_with_nonexistent_cache() {
    let mut extension = CodebookExtension::new();
    extension.binary_cache = Some(String::from("/nonexistent/path"));

    let exists = Path::new("/nonexistent/path").exists();
    let result = extension.get_cached_binary(exists).unwrap();
    assert!(result.is_none());
}

fn release(names: &[&str]) -> GithubRelease {
    GithubRelease {
        version: "1.2.3".to_string(),
        assets: names
            .iter()
            .enumerate()
            .map(|(i, name)| GithubReleaseAsset {
                name: name.to_string(),
                download_url: format!("https://example.com/{i}"),
            })
            .collect(),
    }
}

#[test]
fn every_platform_has_its_own_asset() {
    let extension = CodebookExtension::new();
    let expected = [
        (Os::Mac, Architecture::Aarch64, "aarch64-apple-darwin", "tar.gz"),
        (Os::Mac, Architecture::X8664, "x86_64-apple-darwin", "tar.gz"),
        (Os::Linux, Architecture::Aarch64, "aarch64-unknown-linux-musl", "tar.gz"),
        (Os::Linux, Architecture::X8664, "x86_64-unknown-linux-musl", "tar.gz"),
        (Os::Windows, Architecture::Aarch64, "aarch64-pc-windows-msvc", "zip"),
        (Os::Windows, Architecture::X8664, "x86_64-pc-windows-msvc", "zip"),
    ];
    for (os, arch, descriptor, ext) in expected {
        assert_eq!(
            extension.asset_name(os, arch),
            Ok((format!("codebook-lsp-{descriptor}.{ext}"), descriptor.to_string()))
        );
    }
}

#[test]
fn x86_is_not_supported() {
    let extension = CodebookExtension::new();
    for os in [Os::Mac, Os::Linux, Os::Windows] {
        assert_eq!(
            extension.asset_name(os, Architecture::X86),
            Err("x86 architecture is not supported".to_string())
        );
        assert_eq!(
            extension.find_compatible_asset(os, Architecture::X86, &release(&[])),
            Err("x86 architecture is not supported".to_string())
        );
    }
}

#[test]
fn the_first_compatible_asset_is_chosen() {
    let extension = CodebookExtension::new();
    let release = release(&[
        "codebook-lsp-x86_64-unknown-linux-musl.tar.gz",
        "codebook-lsp-aarch64-apple-darwin.tar.gz",
        "codebook-lsp-aarch64-apple-darwin.tar.gz",
    ]);
    let asset = extension
        .find_compatible_asset(Os::Mac, Architecture::Aarch64, &release)
        .unwrap();
    assert_eq!(asset.download_url, "https://example.com/1");
    assert_eq!(
        extension.find_compatible_asset(Os::Windows, Architecture::X8664, &release),
        Err("No compatible binary found for x86_64-pc-windows-msvc".to_string())
    );
}

#[test]
fn archives_are_zipped_on_windows_only() {
    assert_eq!(downloaded_file_type(Os::Windows), DownloadedFileType::Zip);
    assert_eq!(downloaded_file_type(Os::Mac), DownloadedFileType::GzipTar);
    assert_eq!(downloaded_file_type(Os::Linux), DownloadedFileType::GzipTar);
}

#[test]
fn executables_have_an_extension_on_windows_only() {
    let extension = CodebookExtension::new();
    assert_eq!(extension.get_binary_filename(Os::Windows), "codebook-lsp.exe");
    assert_eq!(extension.get_binary_filename(Os::Mac), "codebook-lsp");
    assert_eq!(extension.get_binary_filename(Os::Linux), "codebook-lsp");
}

#[test]
fn development_binary_logs_and_traces() {
    let extension = CodebookExtension::new();
    let binary = extension.find_development_binary(true).unwrap().unwrap();
    assert_eq!(binary.path, "codebook-lsp");
    assert_eq!(
        binary.env,
        vec![
            ("RUST_LOG".to_string(), "debug".to_string()),
            ("RUST_BACKTRACE".to_string(), "1".to_string()),
        ]
    );
    assert_eq!(binary.clone(), binary);
    assert_eq!(extension.find_development_binary(false), Ok(None));
}

#[test]
fn other_binaries_log_at_info() {
    let mut extension = CodebookExtension::new();
    let info = vec![("RUST_LOG".to_string(), "info".to_string())];

    let system = extension
        .find_system_binary(Some("/usr/bin/codebook-lsp".to_string()))
        .unwrap()
        .unwrap();
    assert_eq!(system.path, "/usr/bin/codebook-lsp");
    assert_eq!(system.env, info);
    assert_eq!(extension.find_system_binary(None), Ok(None));

    extension.binary_cache = Some("dir/codebook-lsp".to_string());
    let cached = extension.get_cached_binary(true).unwrap().unwrap();
    assert_eq!(cached.path, "dir/codebook-lsp");
    assert_eq!(cached.env, info);

    let loaded = extension
        .load_existing_binary(Ok("dir/codebook-lsp".to_string()))
        .unwrap();
    assert_eq!(loaded, cached);
    assert_eq!(
        extension.load_existing_binary(Err("no cached binary yet".to_string())),
        Err("no cached binary yet".to_string())
    );
}

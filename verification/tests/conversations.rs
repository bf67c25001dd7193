use codebook_zed::cleanup::Cleanup;
use codebook_zed::command::Command;
use codebook_zed::extension::CodebookExtension;
use codebook_zed::host::{InstallationStatus, Progress, ReadFailure, Reply, Request};
use codebook_zed::platform::{Architecture, DownloadedFileType, Os};
use codebook_zed::release::{GithubRelease, GithubReleaseAsset, GithubReleaseOptions};

fn text(s: &str) -> String {
    s.to_string()
}

/// Answers a launch with `replies`; gives what was asked, and the result if there is one.
fn launch(
    extension: &mut CodebookExtension,
    replies: Vec<Reply>,
) -> (Vec<Request>, Option<Result<Command, String>>) {
    let mut requests: Vec<Request> = Vec::new();
    let mut launch = extension.language_server_command();
    let mut replies = replies.into_iter();
    loop {
        let request = launch.pending();
        match replies.next() {
            Some(reply) => {
                requests.push(request);
                match launch.resume(extension, reply) {
                    Progress::Ask(next) => launch = next,
                    Progress::Done(result) => {
                        assert!(replies.next().is_none());
                        return (requests, Some(result));
                    }
                }
            }
            None => {
                requests.push(request);
                return (requests, None);
            }
        }
    }
}

fn failure(error: &str) -> String {
    format!(
        "Failed to load binary! This could be due to no internet connection, \
         or running on an unsupported platform. \n\n                Please check that github.com is accessible and try again. \n\n                Error: {error}"
    )
}

fn command(path: &str, root: &str) -> Command {
    Command {
        command: text(path),
        args: vec![format!("--root={root}"), text("serve")],
        env: vec![(text("RUST_LOG"), text("info"))],
    }
}

fn linux_release(version: &str) -> GithubRelease {
    GithubRelease {
        version: text(version),
        assets: vec![
            GithubReleaseAsset {
                name: text("codebook-lsp-aarch64-unknown-linux-musl.tar.gz"),
                download_url: text("https://example.com/arm"),
            },
            GithubReleaseAsset {
                name: text("codebook-lsp-x86_64-unknown-linux-musl.tar.gz"),
                download_url: text("https://example.com/intel"),
            },
        ],
    }
}

fn linux() -> Reply {
    Reply::Platform(Os::Linux, Architecture::X8664)
}

fn entry(name: &str) -> Reply {
    Reply::Entry(Some(Ok(Some(text(name)))))
}

fn no_local_binary() -> Vec<Reply> {
    vec![Reply::Answer(false), Reply::Found(None)]
}

fn local_requests() -> Vec<Request> {
    vec![
        Request::PathExists(text("codebook-lsp")),
        Request::Which(text("codebook-lsp")),
    ]
}

fn ask_github() -> Request {
    Request::LatestRelease(
        text("cloned-doy/codebook"),
        GithubReleaseOptions {
            require_assets: true,
            pre_release: false,
        },
    )
}

fn status(status: InstallationStatus) -> Request {
    Request::SetStatus(status)
}

#[test]
fn development_binary_comes_first() {
    let mut extension = CodebookExtension::new();
    extension.binary_cache = Some(text("old/codebook-lsp"));
    let (requests, result) = launch(
        &mut extension,
        vec![Reply::Answer(true), Reply::Root(text("/project"))],
    );
    assert_eq!(
        requests,
        vec![Request::PathExists(text("codebook-lsp")), Request::WorktreeRoot]
    );
    assert_eq!(
        result,
        Some(Ok(Command {
            command: text("codebook-lsp"),
            args: vec![text("--root=/project"), text("serve")],
            env: vec![
                (text("RUST_LOG"), text("debug")),
                (text("RUST_BACKTRACE"), text("1")),
            ],
        }))
    );
    assert_eq!(extension.binary_cache, Some(text("old/codebook-lsp")));
}

#[test]
fn system_binary_comes_second() {
    let mut extension = CodebookExtension::new();
    let (requests, result) = launch(
        &mut extension,
        vec![
            Reply::Answer(false),
            Reply::Found(Some(text("/usr/bin/codebook-lsp"))),
            Reply::Root(text("/p")),
        ],
    );
    let mut expected = local_requests();
    expected.push(Request::WorktreeRoot);
    assert_eq!(requests, expected);
    assert_eq!(result, Some(Ok(command("/usr/bin/codebook-lsp", "/p"))));
    assert_eq!(extension.binary_cache, None);
}

#[test]
fn cached_binary_comes_third() {
    let mut extension = CodebookExtension::new();
    extension.binary_cache = Some(text("codebook-lsp-1.0.0/codebook-lsp"));
    let (requests, result) = launch(
        &mut extension,
        vec![
            Reply::Answer(false),
            Reply::Found(None),
            Reply::Answer(true),
            Reply::Root(text("/p")),
        ],
    );
    let mut expected = local_requests();
    expected.push(Request::PathExists(text("codebook-lsp-1.0.0/codebook-lsp")));
    expected.push(Request::WorktreeRoot);
    assert_eq!(requests, expected);
    assert_eq!(result, Some(Ok(command("codebook-lsp-1.0.0/codebook-lsp", "/p"))));
}

#[test]
fn vanished_cached_binary_leads_to_github() {
    let mut extension = CodebookExtension::new();
    extension.binary_cache = Some(text("gone"));
    let (requests, result) = launch(
        &mut extension,
        vec![
            Reply::Answer(false),
            Reply::Found(None),
            Reply::Answer(false),
            Reply::Done,
        ],
    );
    let mut expected = local_requests();
    expected.push(Request::PathExists(text("gone")));
    expected.push(status(InstallationStatus::CheckingForUpdate));
    expected.push(ask_github());
    assert_eq!(requests, expected);
    assert_eq!(result, None);
}

#[test]
fn new_release_is_installed_and_old_ones_are_removed() {
    let mut extension = CodebookExtension::new();
    let mut replies = no_local_binary();
    replies.extend([
        Reply::Done,
        Reply::Release(Ok(linux_release("2.0.0"))),
        Reply::Contents(Ok(text("1.0.0\n"))),
        Reply::Done,
        linux(),
        linux(),
        Reply::Answer(false),
        linux(),
        Reply::Outcome(Ok(())),
        Reply::Outcome(Ok(())),
        Reply::Outcome(Ok(())),
        Reply::Outcome(Ok(())),
        entry(".version"),
        entry("codebook-lsp"),
        entry("codebook-lsp-2.0.0"),
        Reply::Entry(Some(Ok(None))),
        entry("codebook-lsp-1.0.0"),
        Reply::Answer(true),
        Reply::Outcome(Ok(())),
        entry("codebook-lsp-notes"),
        Reply::Answer(false),
        entry("codebook-lsp-0.9"),
        Reply::Answer(true),
        Reply::Outcome(Err(text("busy"))),
        Reply::Done,
        Reply::Entry(None),
        Reply::Done,
        Reply::Root(text("/p")),
    ]);
    let (requests, result) = launch(&mut extension, replies);
    let mut expected = local_requests();
    expected.extend([
        status(InstallationStatus::CheckingForUpdate),
        ask_github(),
        Request::ReadFile(text(".version")),
        status(InstallationStatus::Downloading),
        Request::CurrentPlatform,
        Request::CurrentPlatform,
        Request::PathExists(text("codebook-lsp-2.0.0/codebook-lsp")),
        Request::CurrentPlatform,
        Request::DownloadFile(
            text("https://example.com/intel"),
            text("codebook-lsp-2.0.0"),
            DownloadedFileType::GzipTar,
        ),
        Request::MakeExecutable(text("codebook-lsp-2.0.0/codebook-lsp")),
        Request::WriteFile(text(".version"), text("2.0.0")),
        Request::OpenDirectory(text(".")),
        Request::NextEntry,
        Request::NextEntry,
        Request::NextEntry,
        Request::NextEntry,
        Request::NextEntry,
        Request::IsDirectory(text("./codebook-lsp-1.0.0")),
        Request::RemoveDirectory(text("./codebook-lsp-1.0.0")),
        Request::NextEntry,
        Request::IsDirectory(text("./codebook-lsp-notes")),
        Request::NextEntry,
        Request::IsDirectory(text("./codebook-lsp-0.9")),
        Request::RemoveDirectory(text("./codebook-lsp-0.9")),
        Request::Warn(text(
            "Warning: Failed to remove old version directory codebook-lsp-0.9: busy",
        )),
        Request::NextEntry,
        status(InstallationStatus::Clear),
        Request::WorktreeRoot,
    ]);
    assert_eq!(requests, expected);
    assert_eq!(result, Some(Ok(command("codebook-lsp-2.0.0/codebook-lsp", "/p"))));
    assert_eq!(
        extension.binary_cache,
        Some(text("codebook-lsp-2.0.0/codebook-lsp"))
    );
    assert!(requests.len() <= 23 + 4 * 8);

    // The next launch finds the binary without GitHub.
    let (requests, result) = launch(
        &mut extension,
        vec![
            Reply::Answer(false),
            Reply::Found(None),
            Reply::Answer(true),
            Reply::Root(text("/q")),
        ],
    );
    assert_eq!(requests.len(), 4);
    assert_eq!(result, Some(Ok(command("codebook-lsp-2.0.0/codebook-lsp", "/q"))));
}

#[test]
fn installed_release_is_found_again() {
    let mut extension = CodebookExtension::new();
    let mut replies = no_local_binary();
    replies.extend([
        Reply::Done,
        Reply::Release(Ok(linux_release("2.0.0"))),
        Reply::Contents(Ok(text("2.0.0"))),
        Reply::Contents(Ok(text("2.0.0"))),
        Reply::Platform(Os::Windows, Architecture::Aarch64),
        Reply::Answer(true),
        Reply::Done,
        Reply::Root(text("C:/p")),
    ]);
    let (requests, result) = launch(&mut extension, replies);
    let mut expected = local_requests();
    expected.extend([
        status(InstallationStatus::CheckingForUpdate),
        ask_github(),
        Request::ReadFile(text(".version")),
        Request::ReadFile(text(".version")),
        Request::CurrentPlatform,
        Request::PathExists(text("codebook-lsp-2.0.0/codebook-lsp.exe")),
        status(InstallationStatus::Clear),
        Request::WorktreeRoot,
    ]);
    assert_eq!(requests, expected);
    assert_eq!(result, Some(Ok(command("codebook-lsp-2.0.0/codebook-lsp.exe", "C:/p"))));
    assert_eq!(
        extension.binary_cache,
        Some(text("codebook-lsp-2.0.0/codebook-lsp.exe"))
    );
}

#[test]
fn recorded_version_with_outer_white_space_is_offered_again() {
    let extension = CodebookExtension::new();
    let check = extension.check_for_update();
    let check = match check.resume(&extension, Reply::Release(Ok(linux_release(" 2.0.0")))) {
        Progress::Ask(check) => check,
        Progress::Done(_) => panic!("the version file has not been read"),
    };
    assert_eq!(
        check.resume(&extension, Reply::Contents(Ok(text(" 2.0.0")))),
        Progress::Done(Ok(Some(linux_release(" 2.0.0"))))
    );
}

#[test]
fn missing_version_file_makes_every_release_an_update() {
    let extension = CodebookExtension::new();
    for failure in [ReadFailure::NotFound, ReadFailure::Other(text("denied"))] {
        let check = extension.check_for_update();
        match check.resume(&extension, Reply::Release(Ok(linux_release("1")))) {
            Progress::Ask(check) => assert_eq!(
                check.resume(&extension, Reply::Contents(Err(failure))),
                Progress::Done(Ok(Some(linux_release("1"))))
            ),
            Progress::Done(_) => panic!("the version file has not been read"),
        }
    }
}

#[test]
fn github_is_asked_three_times() {
    let mut extension = CodebookExtension::new();
    extension.binary_cache = Some(text("gone"));
    let mut replies = no_local_binary();
    replies.extend([
        Reply::Answer(false),
        Reply::Done,
        Reply::Release(Err(text("first"))),
        Reply::Done,
        Reply::Release(Err(text("second"))),
        Reply::Done,
        Reply::Release(Err(text("third"))),
        Reply::Contents(Err(ReadFailure::NotFound)),
    ]);
    let (requests, result) = launch(&mut extension, replies);
    let mut expected = local_requests();
    expected.extend([
        Request::PathExists(text("gone")),
        status(InstallationStatus::CheckingForUpdate),
        ask_github(),
        Request::Sleep(500),
        ask_github(),
        Request::Sleep(1000),
        ask_github(),
        Request::ReadFile(text(".version")),
    ]);
    assert_eq!(requests, expected);
    assert_eq!(
        result,
        Some(Err(failure(
            "Could not contact GitHub to check for the latest release and no cached binary is \
             available. Check that github.com is reachable. Underlying error: third"
        )))
    );
    assert_eq!(extension.binary_cache, Some(text("gone")));
}

#[test]
fn second_attempt_can_succeed() {
    let extension = CodebookExtension::new();
    let replies = vec![
        Reply::Release(Err(text("dns"))),
        Reply::Done,
        Reply::Release(Ok(linux_release("3"))),
    ];
    let mut check = extension.check_for_update();
    for reply in replies {
        check = match check.resume(&extension, reply) {
            Progress::Ask(next) => next,
            Progress::Done(_) => panic!("the version file has not been read"),
        };
    }
    assert_eq!(
        check.resume(&extension, Reply::Contents(Ok(text("3\n")))),
        Progress::Done(Ok(None))
    );
}

#[test]
fn offline_falls_back_to_what_is_installed() {
    let mut extension = CodebookExtension::new();
    let mut replies = no_local_binary();
    replies.extend([
        Reply::Done,
        Reply::Release(Err(text("a"))),
        Reply::Done,
        Reply::Release(Err(text("b"))),
        Reply::Done,
        Reply::Release(Err(text("c"))),
        Reply::Contents(Ok(text("1.5\n"))),
        linux(),
        Reply::Answer(true),
        Reply::Done,
        Reply::Root(text("/p")),
    ]);
    let (_, result) = launch(&mut extension, replies);
    assert_eq!(result, Some(Ok(command("codebook-lsp-1.5/codebook-lsp", "/p"))));
}

#[test]
fn current_version_without_binary_is_an_error() {
    let mut extension = CodebookExtension::new();
    let mut replies = no_local_binary();
    replies.extend([
        Reply::Done,
        Reply::Release(Ok(linux_release("1.5"))),
        Reply::Contents(Ok(text("1.5"))),
        Reply::Contents(Ok(text("1.5"))),
        linux(),
        Reply::Answer(false),
    ]);
    let (_, result) = launch(&mut extension, replies);
    assert_eq!(
        result,
        Some(Err(failure(
            "Binary not found at expected path: codebook-lsp-1.5/codebook-lsp"
        )))
    );
    assert_eq!(extension.binary_cache, None);
}

/// Replies that lead to the installation of a release without a version file.
fn installing(version: &str) -> Vec<Reply> {
    let mut replies = no_local_binary();
    replies.extend([
        Reply::Done,
        Reply::Release(Ok(linux_release(version))),
        Reply::Contents(Err(ReadFailure::NotFound)),
        Reply::Done,
    ]);
    replies
}

/// What an installation fails with, given the host's replies to it.
fn install_failure(version: &str, replies: Vec<Reply>) -> (Request, String) {
    let mut extension = CodebookExtension::new();
    let mut all = installing(version);
    all.extend(replies);
    all.push(Reply::Done);
    let (mut requests, result) = launch(&mut extension, all);
    assert_eq!(extension.binary_cache, None);
    let shown = requests.pop().unwrap();
    match result {
        Some(Err(e)) => (shown, e),
        other => panic!("{other:?}"),
    }
}

#[test]
fn failed_installations_are_shown() {
    let before_download = || vec![linux(), linux(), Reply::Answer(false), linux()];
    let after = |more: Vec<Reply>| {
        let mut replies = before_download();
        replies.extend(more);
        replies
    };
    let ok = || Reply::Outcome(Ok(()));
    let bad = || Reply::Outcome(Err(text("oops")));
    let cases = [
        (
            "1",
            vec![Reply::Platform(Os::Linux, Architecture::X86)],
            "x86 architecture is not supported",
        ),
        (
            "1",
            vec![Reply::Platform(Os::Mac, Architecture::Aarch64)],
            "No compatible binary found for aarch64-apple-darwin",
        ),
        ("1", after(vec![bad()]), "Failed to download binary: oops"),
        ("1", after(vec![ok(), bad()]), "Failed to make binary executable: oops"),
        ("1", after(vec![ok(), ok(), bad()]), "Failed to write version file: oops"),
        ("1", after(vec![ok(), ok(), ok(), bad()]), "Failed to read directory: oops"),
        (
            "1",
            after(vec![ok(), ok(), ok(), ok(), Reply::Entry(Some(Err(text("oops"))))]),
            "Failed to read directory entry: oops",
        ),
        ("1/..", after(vec![ok(), ok(), ok()]), "Invalid version directory name"),
    ];
    for (version, replies, error) in cases {
        let (shown, result) = install_failure(version, replies);
        assert_eq!(
            shown,
            status(InstallationStatus::Failed(format!("Failed to install release: {error}")))
        );
        assert_eq!(result, failure(error));
    }
}

#[test]
fn present_binary_is_not_downloaded_again() {
    let mut extension = CodebookExtension::new();
    let mut replies = installing("1");
    replies.extend([
        linux(),
        linux(),
        Reply::Answer(true),
        Reply::Done,
        Reply::Root(text("/p")),
    ]);
    let (requests, result) = launch(&mut extension, replies);
    assert_eq!(result, Some(Ok(command("codebook-lsp-1/codebook-lsp", "/p"))));
    assert_eq!(
        requests[6..],
        [
            Request::CurrentPlatform,
            Request::CurrentPlatform,
            Request::PathExists(text("codebook-lsp-1/codebook-lsp")),
            status(InstallationStatus::Clear),
            Request::WorktreeRoot,
        ]
    );
}

#[test]
fn windows_archives_are_unzipped() {
    let extension = CodebookExtension::new();
    let asset = GithubReleaseAsset {
        name: text("a.zip"),
        download_url: text("https://example.com/zip"),
    };
    let download = extension.download_binary(&asset, "dir", "dir/codebook-lsp.exe");
    assert_eq!(download.pending(), Request::CurrentPlatform);
    match download.resume(Reply::Platform(Os::Windows, Architecture::X8664)) {
        Progress::Ask(download) => assert_eq!(
            download.pending(),
            Request::DownloadFile(
                text("https://example.com/zip"),
                text("dir"),
                DownloadedFileType::Zip,
            )
        ),
        Progress::Done(_) => panic!("nothing has been downloaded"),
    }
}

#[test]
fn cleanup_goes_by_the_last_component() {
    let extension = CodebookExtension::new();
    assert_eq!(
        extension.cleanup_old_versions("codebook-lsp-1.2.3"),
        Progress::Ask(Cleanup::Opening {
            current: text("codebook-lsp-1.2.3")
        })
    );
    assert_eq!(
        extension.cleanup_old_versions("codebook-lsp-a/b"),
        Progress::Ask(Cleanup::Opening { current: text("b") })
    );
    assert_eq!(
        extension.cleanup_old_versions("codebook-lsp-a/.."),
        Progress::Done(Err(text("Invalid version directory name")))
    );

    // The directory of a version with a slash in it is then taken for an old one.
    let cleanup = Cleanup::Scanning { current: text("b") };
    assert_eq!(
        cleanup.resume(entry("codebook-lsp-a")),
        Progress::Ask(Cleanup::Inspecting {
            current: text("b"),
            name: text("codebook-lsp-a")
        })
    );
}

#[test]
fn a_reply_to_something_else_changes_nothing() {
    let mut extension = CodebookExtension::new();
    let begun = extension.language_server_command();
    assert_eq!(
        begun.resume(&mut extension, Reply::Done),
        Progress::Ask(extension.language_server_command())
    );
    assert_eq!(extension, CodebookExtension::new());
}

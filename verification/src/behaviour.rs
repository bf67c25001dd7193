//! What users see: from what the host replies to the command that is run.
//!
//! Paths, arguments and messages are written out here as they appear outside.

use vstd::prelude::*;

use crate::binary::BinaryModel;
use crate::cleanup::{cleanup, CleanupModel};
use crate::command::{
    law_launch_comes_to_command, law_launch_failure_message, CommandModel, LaunchModel,
};
use crate::existing::{law_binary_path, law_lookup_finds_recorded_version, LookupModel};
use crate::extension::compatible_asset;
use crate::host::{
    asked, in_order, run, Progress, ReadFailureModel, ReplyModel, RequestModel, StatusModel,
};
use crate::install::{
    law_delivery_ends, law_install_ends_with_cleanup, law_install_requests, InstallModel,
};
use crate::latest::{
    latest, law_latest_takes_installed_binary, law_latest_takes_update, law_latest_without_binary,
};
use crate::platform::{Architecture, Os};
use crate::release::{GithubReleaseOptions, ReleaseModel};
use crate::search::{
    law_cached_binary_is_at_its_path, law_cached_binary_third, law_development_binary_first,
    law_development_binary_is_next_to_extension, law_search_ends_with_latest,
    law_system_binary_is_at_its_path, law_system_binary_second, SearchModel,
};
use crate::text::trimmed;
use crate::update::{
    answered, law_failed_attempts_listed, law_first_answer_decides, law_last_error_reported,
    law_release_request, law_update_unless_version_is_recorded,
    law_update_when_version_is_unreadable, unanswered,
};

verus! {

proof fn lemma_last_character(version: Seq<char>)
    requires
        !version.contains('/'),
    ensures
        version.len() == 0 || version[version.len() - 1] != '/',
{
    if version.len() > 0 {
        assert(version.contains(version[version.len() - 1]));
    }
}

/// A lookup looks in the directory of the version that is recorded for the executable as the
/// operating system calls it, and comes to that path: for every version and operating system.
pub proof fn law_lookup_path(
    text: Seq<char>,
    version: Seq<char>,
    os: Os,
    arch: Architecture,
)
    requires
        trimmed(text) == version,
        !version.contains('/'),
    ensures
        ({
            let path = "codebook-lsp-"@ + version + "/"@ + (match os {
                Os::Windows => "codebook-lsp.exe"@,
                Os::Mac => "codebook-lsp"@,
                Os::Linux => "codebook-lsp"@,
            });
            let start = Progress::Ask(LookupModel::ReadingVersion);
            let replies = seq![
                ReplyModel::Contents(Ok(text)),
                ReplyModel::Platform(os, arch),
                ReplyModel::Answer(true),
            ];
            &&& run(start, replies) == Progress::<LookupModel, _>::Done(Ok::<_, Seq<char>>(path))
            &&& asked(start, replies)[2] == RequestModel::PathExists(path)
        }),
{
    lemma_last_character(version);
    law_binary_path(version, os);
    law_lookup_finds_recorded_version(text, os, arch, true);
}

/// An installation looks in the version's directory for the executable as the operating system
/// calls it, makes the executable at that path executable, and comes to that path: for every
/// version and operating system.
pub proof fn law_install_path(
    release: ReleaseModel,
    os: Os,
    arch: Architecture,
    cleaned: Seq<ReplyModel>,
)
    requires
        !release.version.contains('/'),
        compatible_asset(release, os, arch) is Ok,
        in_order(cleanup("codebook-lsp-"@ + release.version), cleaned),
        run(cleanup("codebook-lsp-"@ + release.version), cleaned) == Progress::<
            CleanupModel,
            _,
        >::Done(Ok::<_, Seq<char>>(())),
    ensures
        ({
            let path = "codebook-lsp-"@ + release.version + "/"@ + (match os {
                Os::Windows => "codebook-lsp.exe"@,
                Os::Mac => "codebook-lsp"@,
                Os::Linux => "codebook-lsp"@,
            });
            let start = Progress::Ask(InstallModel::Choosing { release });
            let here = ReplyModel::Platform(os, arch);
            let found = seq![here, here, ReplyModel::Answer(true)];
            let fresh = seq![
                here,
                here,
                ReplyModel::Answer(false),
                here,
                ReplyModel::Outcome(Ok(())),
                ReplyModel::Outcome(Ok(())),
            ];
            let all = seq![
                here,
                here,
                ReplyModel::Answer(false),
                here,
                ReplyModel::Outcome(Ok(())),
                ReplyModel::Outcome(Ok(())),
                ReplyModel::Outcome(Ok(())),
            ] + cleaned;
            &&& asked(start, found)[2] == RequestModel::PathExists(path)
            &&& run(start, found) == Progress::<InstallModel, _>::Done(Ok::<_, Seq<char>>(path))
            &&& asked(start, fresh)[2] == RequestModel::PathExists(path)
            &&& asked(start, fresh)[5] == RequestModel::MakeExecutable(path)
            &&& run(start, all) == Progress::<InstallModel, _>::Done(Ok::<_, Seq<char>>(path))
        }),
{
    lemma_last_character(release.version);
    law_binary_path(release.version, os);
    law_install_requests(release, compatible_asset(release, os, arch)->Ok_0, os, arch);
    law_install_ends_with_cleanup(release, os, arch, cleaned, seq![]);
}

/// For every path on the `PATH` and every root, the command is that very path.
pub proof fn law_launch_from_path(cache: Option<Seq<char>>, path: Seq<char>, root: Seq<char>)
    ensures
        ({
            let start = Progress::Ask(LaunchModel::new(cache));
            let replies = seq![
                ReplyModel::Answer(false),
                ReplyModel::Found(Some(path)),
                ReplyModel::Root(root),
            ];
            &&& run(start, replies) == Progress::<LaunchModel, _>::Done(
                (
                    cache,
                    Ok::<_, Seq<char>>(
                        CommandModel {
                            command: path,
                            args: seq!["--root="@ + root, "serve"@],
                            env: seq![("RUST_LOG"@, "info"@)],
                        },
                    ),
                ),
            )
            &&& asked(start, replies) == seq![
                RequestModel::PathExists("codebook-lsp"@),
                RequestModel::Which("codebook-lsp"@),
                RequestModel::WorktreeRoot,
            ]
        }),
{
    law_system_binary_second(cache, path);
    law_system_binary_is_at_its_path(cache, path);
    let first = seq![ReplyModel::Answer(false), ReplyModel::Found(Some(path))];
    let binary = run(Progress::Ask(SearchModel::new(cache)), first)->Done_0.1->Ok_0;
    law_launch_comes_to_command(cache, first, cache, binary, root);
    assert(first + seq![ReplyModel::Root(root)] =~= seq![
        ReplyModel::Answer(false),
        ReplyModel::Found(Some(path)),
        ReplyModel::Root(root),
    ]);
    assert(asked(Progress::Ask(SearchModel::new(cache)), first).push(RequestModel::WorktreeRoot)
        =~= seq![
        RequestModel::PathExists("codebook-lsp"@),
        RequestModel::Which("codebook-lsp"@),
        RequestModel::WorktreeRoot,
    ]);
}

/// With a development binary, the command is `codebook-lsp`, for every root.
pub proof fn law_launch_from_development(cache: Option<Seq<char>>, root: Seq<char>)
    ensures
        ({
            let start = Progress::Ask(LaunchModel::new(cache));
            let replies = seq![ReplyModel::Answer(true), ReplyModel::Root(root)];
            &&& run(start, replies) == Progress::<LaunchModel, _>::Done(
                (
                    cache,
                    Ok::<_, Seq<char>>(
                        CommandModel {
                            command: "codebook-lsp"@,
                            args: seq!["--root="@ + root, "serve"@],
                            env: seq![("RUST_LOG"@, "debug"@), ("RUST_BACKTRACE"@, "1"@)],
                        },
                    ),
                ),
            )
            &&& asked(start, replies) == seq![
                RequestModel::PathExists("codebook-lsp"@),
                RequestModel::WorktreeRoot,
            ]
        }),
{
    law_development_binary_first(cache);
    law_development_binary_is_next_to_extension(cache);
    let first = seq![ReplyModel::Answer(true)];
    let binary = run(Progress::Ask(SearchModel::new(cache)), first)->Done_0.1->Ok_0;
    law_launch_comes_to_command(cache, first, cache, binary, root);
    assert(first + seq![ReplyModel::Root(root)] =~= seq![
        ReplyModel::Answer(true),
        ReplyModel::Root(root),
    ]);
    assert(asked(Progress::Ask(SearchModel::new(cache)), first).push(RequestModel::WorktreeRoot)
        =~= seq![RequestModel::PathExists("codebook-lsp"@), RequestModel::WorktreeRoot]);
}

/// For every path remembered and every root, the command is that very path if it is still there.
pub proof fn law_launch_from_memory(path: Seq<char>, root: Seq<char>)
    ensures
        ({
            let start = Progress::Ask(LaunchModel::new(Some(path)));
            let replies = seq![
                ReplyModel::Answer(false),
                ReplyModel::Found(None),
                ReplyModel::Answer(true),
                ReplyModel::Root(root),
            ];
            &&& run(start, replies) == Progress::<LaunchModel, _>::Done(
                (
                    Some(path),
                    Ok::<_, Seq<char>>(
                        CommandModel {
                            command: path,
                            args: seq!["--root="@ + root, "serve"@],
                            env: seq![("RUST_LOG"@, "info"@)],
                        },
                    ),
                ),
            )
            &&& asked(start, replies) == seq![
                RequestModel::PathExists("codebook-lsp"@),
                RequestModel::Which("codebook-lsp"@),
                RequestModel::PathExists(path),
                RequestModel::WorktreeRoot,
            ]
        }),
{
    law_cached_binary_third(path);
    law_cached_binary_is_at_its_path(path);
    let first = seq![
        ReplyModel::Answer(false),
        ReplyModel::Found(None),
        ReplyModel::Answer(true),
    ];
    let binary = run(Progress::Ask(SearchModel::new(Some(path))), first)->Done_0.1->Ok_0;
    law_launch_comes_to_command(Some(path), first, Some(path), binary, root);
    assert(first + seq![ReplyModel::Root(root)] =~= seq![
        ReplyModel::Answer(false),
        ReplyModel::Found(None),
        ReplyModel::Answer(true),
        ReplyModel::Root(root),
    ]);
    assert(asked(Progress::Ask(SearchModel::new(Some(path))), first).push(
        RequestModel::WorktreeRoot,
    ) =~= seq![
        RequestModel::PathExists("codebook-lsp"@),
        RequestModel::Which("codebook-lsp"@),
        RequestModel::PathExists(path),
        RequestModel::WorktreeRoot,
    ]);
}

/// The latest release is run without a download if its version is the one recorded and its binary
/// is there: for every release, operating system and root.
pub proof fn law_launch_from_installed_release(
    release: ReleaseModel,
    text: Seq<char>,
    os: Os,
    arch: Architecture,
    root: Seq<char>,
)
    requires
        trimmed(text) == release.version,
        !release.version.contains('/'),
    ensures
        ({
            let path = "codebook-lsp-"@ + release.version + "/"@ + (match os {
                Os::Windows => "codebook-lsp.exe"@,
                Os::Mac => "codebook-lsp"@,
                Os::Linux => "codebook-lsp"@,
            });
            let start = Progress::Ask(LaunchModel::new(None));
            let replies = seq![
                ReplyModel::Answer(false),
                ReplyModel::Found(None),
                ReplyModel::Done,
                ReplyModel::Release(Ok(release)),
                ReplyModel::Contents(Ok(text)),
                ReplyModel::Contents(Ok(text)),
                ReplyModel::Platform(os, arch),
                ReplyModel::Answer(true),
                ReplyModel::Done,
                ReplyModel::Root(root),
            ];
            &&& run(start, replies) == Progress::<LaunchModel, _>::Done(
                (
                    Some(path),
                    Ok::<_, Seq<char>>(
                        CommandModel {
                            command: path,
                            args: seq!["--root="@ + root, "serve"@],
                            env: seq![("RUST_LOG"@, "info"@)],
                        },
                    ),
                ),
            )
            &&& asked(start, replies) == seq![
                RequestModel::PathExists("codebook-lsp"@),
                RequestModel::Which("codebook-lsp"@),
                RequestModel::SetStatus(StatusModel::CheckingForUpdate),
                RequestModel::LatestRelease(
                    "cloned-doy/codebook"@,
                    GithubReleaseOptions { require_assets: true, pre_release: false },
                ),
                RequestModel::ReadFile(".version"@),
                RequestModel::ReadFile(".version"@),
                RequestModel::CurrentPlatform,
                RequestModel::PathExists(path),
                RequestModel::SetStatus(StatusModel::Clear),
                RequestModel::WorktreeRoot,
            ]
        }),
{
    lemma_last_character(release.version);
    law_binary_path(release.version, os);
    law_release_request();
    law_failed_attempts_listed(seq![], seq![]);
    let checked = answered(seq![], release, Ok(text));
    law_first_answer_decides(seq![], release, Ok(text));
    law_update_unless_version_is_recorded(seq![], release, text);
    law_latest_takes_installed_binary(None, checked, Ok(None), text, os, arch);
    let found = seq![ReplyModel::Done] + checked + seq![
        ReplyModel::Contents(Ok(text)),
        ReplyModel::Platform(os, arch),
        ReplyModel::Answer(true),
        ReplyModel::Done,
    ];
    let outcome = run(latest(None), found)->Done_0;
    law_search_ends_with_latest(seq![], found, outcome);
    let all = seq![ReplyModel::Answer(false), ReplyModel::Found(None)] + found;
    law_launch_comes_to_command(None, all, outcome.0, outcome.1->Ok_0, root);
    assert(all + seq![ReplyModel::Root(root)] =~= seq![
        ReplyModel::Answer(false),
        ReplyModel::Found(None),
        ReplyModel::Done,
        ReplyModel::Release(Ok(release)),
        ReplyModel::Contents(Ok(text)),
        ReplyModel::Contents(Ok(text)),
        ReplyModel::Platform(os, arch),
        ReplyModel::Answer(true),
        ReplyModel::Done,
        ReplyModel::Root(root),
    ]);
    let start = Progress::Ask(LaunchModel::new(None));
    assert(asked(start, all + seq![ReplyModel::Root(root)]) =~= seq![
        RequestModel::PathExists("codebook-lsp"@),
        RequestModel::Which("codebook-lsp"@),
        RequestModel::SetStatus(StatusModel::CheckingForUpdate),
        RequestModel::LatestRelease(
            "cloned-doy/codebook"@,
            GithubReleaseOptions { require_assets: true, pre_release: false },
        ),
        RequestModel::ReadFile(".version"@),
        RequestModel::ReadFile(".version"@),
        RequestModel::CurrentPlatform,
        RequestModel::PathExists(outcome.0->0),
        RequestModel::SetStatus(StatusModel::Clear),
        RequestModel::WorktreeRoot,
    ]);
}

/// The latest release is installed and run if the version recorded is another one, or none can be
/// read: for every release that has an asset for the platform, every operating system and every
/// root.
pub proof fn law_launch_from_new_release(
    release: ReleaseModel,
    contents: Result<Seq<char>, ReadFailureModel>,
    os: Os,
    arch: Architecture,
    cleaned: Seq<ReplyModel>,
    root: Seq<char>,
)
    requires
        contents matches Ok(text) ==> trimmed(text) != release.version,
        !release.version.contains('/'),
        compatible_asset(release, os, arch) is Ok,
        in_order(cleanup("codebook-lsp-"@ + release.version), cleaned),
        run(cleanup("codebook-lsp-"@ + release.version), cleaned) == Progress::<
            CleanupModel,
            _,
        >::Done(Ok::<_, Seq<char>>(())),
    ensures
        ({
            let path = "codebook-lsp-"@ + release.version + "/"@ + (match os {
                Os::Windows => "codebook-lsp.exe"@,
                Os::Mac => "codebook-lsp"@,
                Os::Linux => "codebook-lsp"@,
            });
            let replies = seq![
                ReplyModel::Answer(false),
                ReplyModel::Found(None),
                ReplyModel::Done,
                ReplyModel::Release(Ok(release)),
                ReplyModel::Contents(contents),
                ReplyModel::Done,
                ReplyModel::Platform(os, arch),
                ReplyModel::Platform(os, arch),
                ReplyModel::Answer(false),
                ReplyModel::Platform(os, arch),
                ReplyModel::Outcome(Ok(())),
                ReplyModel::Outcome(Ok(())),
                ReplyModel::Outcome(Ok(())),
            ] + cleaned + seq![ReplyModel::Done, ReplyModel::Root(root)];
            run(Progress::Ask(LaunchModel::new(None)), replies) == Progress::<
                LaunchModel,
                _,
            >::Done(
                (
                    Some(path),
                    Ok::<_, Seq<char>>(
                        CommandModel {
                            command: path,
                            args: seq!["--root="@ + root, "serve"@],
                            env: seq![("RUST_LOG"@, "info"@)],
                        },
                    ),
                ),
            )
        }),
{
    lemma_last_character(release.version);
    law_binary_path(release.version, os);
    law_failed_attempts_listed(seq![], seq![]);
    let checked = answered(seq![], release, contents);
    law_first_answer_decides(seq![], release, contents);
    match contents {
        Ok(text) => {
            law_update_unless_version_is_recorded(seq![], release, text);
        },
        Err(failure) => {
            law_update_when_version_is_unreadable(seq![], release, failure);
        },
    }
    let here = ReplyModel::Platform(os, arch);
    let delivered = seq![
        here,
        here,
        ReplyModel::Answer(false),
        here,
        ReplyModel::Outcome(Ok(())),
        ReplyModel::Outcome(Ok(())),
        ReplyModel::Outcome(Ok(())),
    ] + cleaned;
    law_install_ends_with_cleanup(release, os, arch, cleaned, seq![]);
    let install = InstallModel::Choosing { release };
    let path = run(Progress::Ask(install), delivered)->Done_0->Ok_0;
    law_delivery_ends(release, delivered, path, seq![]);
    let binary = BinaryModel { path, env: seq![("RUST_LOG"@, "info"@)] };
    law_latest_takes_update(None, checked, release, delivered, binary);
    let found = seq![ReplyModel::Done] + checked + seq![ReplyModel::Done] + delivered + seq![
        ReplyModel::Done,
    ];
    let outcome = run(latest(None), found)->Done_0;
    law_search_ends_with_latest(seq![], found, outcome);
    let all = seq![ReplyModel::Answer(false), ReplyModel::Found(None)] + found;
    law_launch_comes_to_command(None, all, outcome.0, outcome.1->Ok_0, root);
    assert(all + seq![ReplyModel::Root(root)] =~= seq![
        ReplyModel::Answer(false),
        ReplyModel::Found(None),
        ReplyModel::Done,
        ReplyModel::Release(Ok(release)),
        ReplyModel::Contents(contents),
        ReplyModel::Done,
        here,
        here,
        ReplyModel::Answer(false),
        here,
        ReplyModel::Outcome(Ok(())),
        ReplyModel::Outcome(Ok(())),
        ReplyModel::Outcome(Ok(())),
    ] + cleaned + seq![ReplyModel::Done, ReplyModel::Root(root)]);
}

/// When GitHub cannot be asked and nothing is installed, the launch fails with GitHub's last error,
/// for every three errors.
pub proof fn law_launch_offline(
    first: Seq<char>,
    second: Seq<char>,
    third: Seq<char>,
    failure: ReadFailureModel,
)
    ensures
        ({
            let replies = seq![
                ReplyModel::Answer(false),
                ReplyModel::Found(None),
                ReplyModel::Done,
                ReplyModel::Release(Err(first)),
                ReplyModel::Done,
                ReplyModel::Release(Err(second)),
                ReplyModel::Done,
                ReplyModel::Release(Err(third)),
                ReplyModel::Contents(Err(failure)),
            ];
            run(Progress::Ask(LaunchModel::new(None)), replies) == Progress::<
                LaunchModel,
                _,
            >::Done(
                (
                    None::<Seq<char>>,
                    Err::<CommandModel, _>(
                        "Failed to load binary! This could be due to no internet connection, or \
                        running on an unsupported platform. \n\n                Please check that \
                        github.com is accessible and try again. \n\n                Error: "@ + (
                        "Could not contact GitHub to check for the latest release and no cached \
                        binary is available. Check that github.com is reachable. Underlying \
                        error: "@ + third),
                    ),
                ),
            )
        }),
{
    let errors = seq![first, second, third];
    law_last_error_reported(errors);
    law_failed_attempts_listed(first, second);
    assert(errors.drop_last() =~= seq![first, second]);
    let checked = unanswered(seq![first, second], third);
    law_latest_without_binary(None, checked, Err(third), Err(failure), Os::Mac, Architecture::X86);
    let found = seq![ReplyModel::Done] + checked + seq![ReplyModel::Contents(Err(failure))];
    let outcome = run(latest(None), found)->Done_0;
    law_search_ends_with_latest(seq![], found, outcome);
    let all = seq![ReplyModel::Answer(false), ReplyModel::Found(None)] + found;
    law_launch_failure_message(None, all, outcome.0, outcome.1->Err_0);
    assert(all =~= seq![
        ReplyModel::Answer(false),
        ReplyModel::Found(None),
        ReplyModel::Done,
        ReplyModel::Release(Err(first)),
        ReplyModel::Done,
        ReplyModel::Release(Err(second)),
        ReplyModel::Done,
        ReplyModel::Release(Err(third)),
        ReplyModel::Contents(Err(failure)),
    ]);
}

} // verus!

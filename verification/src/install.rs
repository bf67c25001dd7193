//! Installing a release.

use vstd::prelude::*;

use crate::binary::{law_released_binary, BinaryModel, CodebookBinary, LOG_LEVEL_INFO};
use crate::cleanup::{cleanup, entry_path, is_stale, Cleanup, CleanupModel, WORK_DIRECTORY};
use crate::download::{download_outcome, download_replies, law_download, Download, DownloadModel};
use crate::existing::binary_path;
use crate::extension::{
    compatible_asset, law_version_directory, version_directory, CodebookExtension, VERSION_FILE,
    WRITE_VERSION_FAILED,
};
use crate::host::{
    asked, in_order, law_conversation_splits, progress_view, run, InstallationStatus, Machine,
    Progress, Reply, ReplyModel, Request, RequestModel, StatusModel,
};
use crate::path::{final_component, join};
use crate::platform::{archive_type, Architecture, DownloadedFileType, Os};
use crate::release::{AssetModel, GithubRelease, GithubReleaseAsset, ReleaseModel};

verus! {

/// What precedes the reason why a release could not be installed, in the editor's status.
pub const INSTALL_FAILED: &'static str = "Failed to install release: ";

/// The installation of a release, waiting for the host.
#[derive(Debug, PartialEq, Eq)]
pub enum Install {
    /// For the platform, to choose an asset of `release`.
    Choosing { release: GithubRelease },
    /// For the platform, to name the binary of `version`.
    Naming { version: String, asset: GithubReleaseAsset },
    /// To be told whether the binary is at `path` already.
    Probing { version: String, asset: GithubReleaseAsset, dir: String, path: String },
    /// For what `download` waits for.
    Downloading { version: String, dir: String, path: String, download: Download },
    /// For `version` to be recorded.
    Recording { version: String, dir: String, path: String },
    /// For what `cleanup` waits for.
    Cleaning { path: String, cleanup: Cleanup },
}

/// What an [`Install`] stands for.
pub enum InstallModel {
    Choosing { release: ReleaseModel },
    Naming { version: Seq<char>, asset: AssetModel },
    Probing { version: Seq<char>, asset: AssetModel, dir: Seq<char>, path: Seq<char> },
    Downloading { version: Seq<char>, dir: Seq<char>, path: Seq<char>, download: DownloadModel },
    Recording { version: Seq<char>, dir: Seq<char>, path: Seq<char> },
    Cleaning { path: Seq<char>, cleanup: CleanupModel },
}

impl DeepView for Install {
    type V = InstallModel;

    open spec fn deep_view(&self) -> InstallModel {
        match self {
            Install::Choosing { release } => InstallModel::Choosing {
                release: release.deep_view(),
            },
            Install::Naming { version, asset } => InstallModel::Naming {
                version: version@,
                asset: asset.deep_view(),
            },
            Install::Probing { version, asset, dir, path } => InstallModel::Probing {
                version: version@,
                asset: asset.deep_view(),
                dir: dir@,
                path: path@,
            },
            Install::Downloading { version, dir, path, download } => InstallModel::Downloading {
                version: version@,
                dir: dir@,
                path: path@,
                download: download.deep_view(),
            },
            Install::Recording { version, dir, path } => InstallModel::Recording {
                version: version@,
                dir: dir@,
                path: path@,
            },
            Install::Cleaning { path, cleanup } => InstallModel::Cleaning {
                path: path@,
                cleanup: cleanup.deep_view(),
            },
        }
    }
}

/// How an installation to `path` goes on when its download has come to `download`.
pub open spec fn after_download(
    version: Seq<char>,
    dir: Seq<char>,
    path: Seq<char>,
    download: Progress<DownloadModel, Result<(), Seq<char>>>,
) -> Progress<InstallModel, Result<Seq<char>, Seq<char>>> {
    match download {
        Progress::Ask(download) => Progress::Ask(
            InstallModel::Downloading { version, dir, path, download },
        ),
        Progress::Done(Ok(())) => Progress::Ask(InstallModel::Recording { version, dir, path }),
        Progress::Done(Err(e)) => Progress::Done(Err(e)),
    }
}

/// How an installation to `path` goes on when its cleanup has come to `cleanup`.
pub open spec fn after_cleanup(
    path: Seq<char>,
    cleanup: Progress<CleanupModel, Result<(), Seq<char>>>,
) -> Progress<InstallModel, Result<Seq<char>, Seq<char>>> {
    match cleanup {
        Progress::Ask(cleanup) => Progress::Ask(InstallModel::Cleaning { path, cleanup }),
        Progress::Done(Ok(())) => Progress::Done(Ok(path)),
        Progress::Done(Err(e)) => Progress::Done(Err(e)),
    }
}

impl Machine for InstallModel {
    type Outcome = Result<Seq<char>, Seq<char>>;

    open spec fn pending(self) -> RequestModel {
        match self {
            InstallModel::Choosing { .. } => RequestModel::CurrentPlatform,
            InstallModel::Naming { .. } => RequestModel::CurrentPlatform,
            InstallModel::Probing { path, .. } => RequestModel::PathExists(path),
            InstallModel::Downloading { download, .. } => download.pending(),
            InstallModel::Recording { version, .. } => RequestModel::WriteFile(
                VERSION_FILE@,
                version,
            ),
            InstallModel::Cleaning { cleanup, .. } => cleanup.pending(),
        }
    }

    open spec fn step(self, reply: ReplyModel) -> Progress<Self, Self::Outcome> {
        match (self, reply) {
            (InstallModel::Choosing { release }, ReplyModel::Platform(os, arch)) => {
                match compatible_asset(release, os, arch) {
                    Ok(asset) => Progress::Ask(
                        InstallModel::Naming { version: release.version, asset },
                    ),
                    Err(e) => Progress::Done(Err(e)),
                }
            },
            (InstallModel::Naming { version, asset }, ReplyModel::Platform(os, _)) => Progress::Ask(
                InstallModel::Probing {
                    version,
                    asset,
                    dir: version_directory(version),
                    path: binary_path(version, os),
                },
            ),
            (InstallModel::Probing { version, asset, dir, path }, ReplyModel::Answer(present)) =>
            if present {
                Progress::Done(Ok(path))
            } else {
                let download = DownloadModel::Selecting { url: asset.download_url, dir, path };
                Progress::Ask(InstallModel::Downloading { version, dir, path, download })
            },
            (InstallModel::Downloading { version, dir, path, download }, reply) => after_download(
                version,
                dir,
                path,
                download.step(reply),
            ),
            (InstallModel::Recording { dir, path, .. }, ReplyModel::Outcome(Ok(()))) =>
            after_cleanup(path, cleanup(dir)),
            (InstallModel::Recording { .. }, ReplyModel::Outcome(Err(e))) => Progress::Done(
                Err(WRITE_VERSION_FAILED@ + e),
            ),
            (InstallModel::Cleaning { path, cleanup }, reply) => after_cleanup(
                path,
                cleanup.step(reply),
            ),
            (machine, _) => Progress::Ask(machine),
        }
    }
}

impl InstallModel {
    /// A cleanup under way is well-formed.
    pub open spec fn wf(self) -> bool {
        self matches InstallModel::Cleaning { cleanup, .. } ==> cleanup.wf()
    }
}

impl CodebookExtension {
    /// Begins to install `release`: unless its binary is there already, the asset for the platform
    /// is downloaded, the version recorded and every other version removed. The installation comes
    /// to the path of the binary, or to what has gone wrong.
    pub fn install_binary(&self, release: GithubRelease) -> (res: Install)
        ensures
            res.deep_view() == (InstallModel::Choosing { release: release.deep_view() }),
            res.wf(),
    {
        Install::Choosing { release }
    }
}

impl Install {
    /// A cleanup under way is well-formed.
    pub open spec fn wf(self) -> bool {
        self.deep_view().wf()
    }

    /// What the installation waits for.
    pub fn pending(&self) -> (res: Request)
        ensures
            res.deep_view() == self.deep_view().pending(),
    {
        match self {
            Install::Choosing { .. } => Request::CurrentPlatform,
            Install::Naming { .. } => Request::CurrentPlatform,
            Install::Probing { path, .. } => Request::PathExists(path.clone()),
            Install::Downloading { download, .. } => download.pending(),
            Install::Recording { version, .. } => Request::WriteFile(
                VERSION_FILE.to_string(),
                version.clone(),
            ),
            Install::Cleaning { cleanup, .. } => cleanup.pending(),
        }
    }

    /// What the installation makes of a reply.
    pub fn resume(self, extension: &CodebookExtension, reply: Reply) -> (res: Progress<
        Install,
        Result<String, String>,
    >)
        ensures
            progress_view(res) == self.deep_view().step(reply.deep_view()),
            self.wf() ==> (res matches Progress::Ask(next) ==> next.wf()),
    {
        match (self, reply) {
            (Install::Choosing { release }, Reply::Platform(platform, arch)) => {
                match extension.find_compatible_asset(platform, arch, &release) {
                    Ok(asset) => {
                        let asset = GithubReleaseAsset {
                            name: asset.name.clone(),
                            download_url: asset.download_url.clone(),
                        };
                        Progress::Ask(Install::Naming { version: release.version, asset })
                    },
                    Err(e) => Progress::Done(Err(e)),
                }
            },
            (Install::Naming { version, asset }, Reply::Platform(platform, _)) => {
                let dir = extension.get_version_directory_path(version.as_str());
                let filename = extension.get_binary_filename(platform);
                let path = join(dir.as_str(), filename.as_str());
                Progress::Ask(Install::Probing { version, asset, dir, path })
            },
            (Install::Probing { version, asset, dir, path }, Reply::Answer(present)) => {
                if present {
                    Progress::Done(Ok(path))
                } else {
                    let download = extension.download_binary(&asset, dir.as_str(), path.as_str());
                    Progress::Ask(Install::Downloading { version, dir, path, download })
                }
            },
            (Install::Downloading { version, dir, path, download }, reply) => {
                match download.resume(reply) {
                    Progress::Ask(download) => Progress::Ask(
                        Install::Downloading { version, dir, path, download },
                    ),
                    Progress::Done(Ok(())) => Progress::Ask(
                        Install::Recording { version, dir, path },
                    ),
                    Progress::Done(Err(e)) => Progress::Done(Err(e)),
                }
            },
            (Install::Recording { version, dir, path }, Reply::Outcome(written)) => {
                match extension.write_version_file(written) {
                    Ok(()) => match extension.cleanup_old_versions(dir.as_str()) {
                        Progress::Ask(cleanup) => Progress::Ask(
                            Install::Cleaning { path, cleanup },
                        ),
                        Progress::Done(Ok(())) => Progress::Done(Ok(path)),
                        Progress::Done(Err(e)) => Progress::Done(Err(e)),
                    },
                    Err(e) => Progress::Done(Err(e)),
                }
            },
            (Install::Cleaning { path, cleanup }, reply) => {
                match cleanup.resume(reply) {
                    Progress::Ask(cleanup) => Progress::Ask(Install::Cleaning { path, cleanup }),
                    Progress::Done(Ok(())) => Progress::Done(Ok(path)),
                    Progress::Done(Err(e)) => Progress::Done(Err(e)),
                }
            },
            (machine, _) => Progress::Ask(machine),
        }
    }
}

/// A download within an installation goes as it goes alone.
proof fn lemma_downloading(
    version: Seq<char>,
    dir: Seq<char>,
    path: Seq<char>,
    download: DownloadModel,
    replies: Seq<ReplyModel>,
)
    requires
        in_order(Progress::Ask(download), replies),
    ensures
        ({
            let start = Progress::Ask(InstallModel::Downloading { version, dir, path, download });
            &&& in_order(start, replies)
            &&& run(start, replies) == after_download(
                version,
                dir,
                path,
                run(Progress::Ask(download), replies),
            )
            &&& asked(start, replies) == asked(Progress::Ask(download), replies)
        }),
    decreases replies.len(),
{
    if replies.len() > 0 {
        reveal_with_fuel(run, 2);
        reveal_with_fuel(asked, 2);
        reveal_with_fuel(in_order, 2);
        match download.step(replies.first()) {
            Progress::Ask(next) => {
                lemma_downloading(version, dir, path, next, replies.drop_first());
            },
            Progress::Done(_) => {
                assert(replies.drop_first() =~= seq![]);
            },
        }
    }
}

/// A cleanup within an installation goes as it goes alone.
proof fn lemma_cleaning(
    path: Seq<char>,
    cleanup: Progress<CleanupModel, Result<(), Seq<char>>>,
    replies: Seq<ReplyModel>,
)
    requires
        in_order(cleanup, replies),
    ensures
        ({
            let start = after_cleanup(path, cleanup);
            &&& in_order(start, replies)
            &&& run(start, replies) == after_cleanup(path, run(cleanup, replies))
            &&& asked(start, replies) == asked(cleanup, replies)
        }),
    decreases replies.len(),
{
    if replies.len() > 0 {
        lemma_cleaning(path, cleanup->Ask_0.step(replies.first()), replies.drop_first());
    }
}

/// What the host replies up to and including the download of a release that is not there yet.
pub open spec fn fresh_replies(
    os: Os,
    arch: Architecture,
    fetched: Result<(), Seq<char>>,
    marked: Result<(), Seq<char>>,
) -> Seq<ReplyModel> {
    seq![
        ReplyModel::Platform(os, arch),
        ReplyModel::Platform(os, arch),
        ReplyModel::Answer(false),
    ] + download_replies(os, arch, fetched, marked)
}

/// What the host is asked up to and including a download that succeeds.
pub open spec fn fresh_requests(version: Seq<char>, asset: AssetModel, os: Os) -> Seq<
    RequestModel,
> {
    seq![
        RequestModel::CurrentPlatform,
        RequestModel::CurrentPlatform,
        RequestModel::PathExists(binary_path(version, os)),
        RequestModel::CurrentPlatform,
        RequestModel::DownloadFile(
            asset.download_url,
            version_directory(version),
            archive_type(os),
        ),
        RequestModel::MakeExecutable(binary_path(version, os)),
    ]
}

/// A release without an asset for the platform is not installed: only the platform is asked for.
pub proof fn law_install_incompatible(release: ReleaseModel, os: Os, arch: Architecture)
    requires
        compatible_asset(release, os, arch) is Err,
    ensures
        ({
            let start = Progress::Ask(InstallModel::Choosing { release });
            let replies = seq![ReplyModel::Platform(os, arch)];
            &&& in_order(start, replies)
            &&& run(start, replies) == Progress::<InstallModel, _>::Done(
                Err::<Seq<char>, _>(compatible_asset(release, os, arch)->Err_0),
            )
            &&& asked(start, replies) == seq![RequestModel::CurrentPlatform]
        }),
{
    reveal_with_fuel(run, 2);
    reveal_with_fuel(asked, 2);
    reveal_with_fuel(in_order, 2);
    let start = Progress::Ask(InstallModel::Choosing { release });
    let replies = seq![ReplyModel::Platform(os, arch)];
    assert(replies.drop_first() =~= seq![]);
    assert(asked(start, replies) =~= seq![RequestModel::CurrentPlatform]);
}

/// A release whose binary is there is taken as it is: nothing is downloaded, recorded or removed.
pub proof fn law_install_present(release: ReleaseModel, os: Os, arch: Architecture)
    requires
        compatible_asset(release, os, arch) is Ok,
    ensures
        ({
            let start = Progress::Ask(InstallModel::Choosing { release });
            let replies = seq![
                ReplyModel::Platform(os, arch),
                ReplyModel::Platform(os, arch),
                ReplyModel::Answer(true),
            ];
            &&& in_order(start, replies)
            &&& run(start, replies) == Progress::<InstallModel, _>::Done(
                Ok::<_, Seq<char>>(binary_path(release.version, os)),
            )
            &&& asked(start, replies) == seq![
                RequestModel::CurrentPlatform,
                RequestModel::CurrentPlatform,
                RequestModel::PathExists(binary_path(release.version, os)),
            ]
        }),
{
    reveal_with_fuel(run, 4);
    reveal_with_fuel(asked, 4);
    reveal_with_fuel(in_order, 4);
    let start = Progress::Ask(InstallModel::Choosing { release });
    let replies = seq![
        ReplyModel::Platform(os, arch),
        ReplyModel::Platform(os, arch),
        ReplyModel::Answer(true),
    ];
    assert(asked(start, replies) =~= seq![
        RequestModel::CurrentPlatform,
        RequestModel::CurrentPlatform,
        RequestModel::PathExists(binary_path(release.version, os)),
    ]);
}

/// A release whose binary is not there is downloaded. When that fails, the installation fails, and
/// no version is recorded; otherwise the version comes next.
pub proof fn law_install_downloads(
    release: ReleaseModel,
    os: Os,
    arch: Architecture,
    fetched: Result<(), Seq<char>>,
    marked: Result<(), Seq<char>>,
)
    requires
        compatible_asset(release, os, arch) is Ok,
    ensures
        ({
            let asset = compatible_asset(release, os, arch)->Ok_0;
            let start = Progress::Ask(InstallModel::Choosing { release });
            let replies = fresh_replies(os, arch, fetched, marked);
            &&& in_order(start, replies)
            &&& run(start, replies) == (match download_outcome(fetched, marked) {
                Ok(()) => Progress::Ask(
                    InstallModel::Recording {
                        version: release.version,
                        dir: version_directory(release.version),
                        path: binary_path(release.version, os),
                    },
                ),
                Err(e) => Progress::Done(Err::<Seq<char>, _>(e)),
            })
            &&& asked(start, replies) == fresh_requests(release.version, asset, os).take(
                replies.len() as int,
            )
        }),
{
    reveal_with_fuel(run, 4);
    reveal_with_fuel(asked, 4);
    reveal_with_fuel(in_order, 4);
    let version = release.version;
    let asset = compatible_asset(release, os, arch)->Ok_0;
    let url = asset.download_url;
    let dir = version_directory(version);
    let path = binary_path(version, os);
    let start = Progress::Ask(InstallModel::Choosing { release });
    let first = seq![
        ReplyModel::Platform(os, arch),
        ReplyModel::Platform(os, arch),
        ReplyModel::Answer(false),
    ];
    let second = download_replies(os, arch, fetched, marked);
    let replies = fresh_replies(os, arch, fetched, marked);
    law_download(url, dir, path, os, arch, fetched, marked);
    lemma_downloading(version, dir, path, DownloadModel::Selecting { url, dir, path }, second);
    law_conversation_splits(start, first, second);
    assert(asked(start, first) =~= seq![
        RequestModel::CurrentPlatform,
        RequestModel::CurrentPlatform,
        RequestModel::PathExists(path),
    ]);
    assert(asked(start, replies) =~= fresh_requests(version, asset, os).take(replies.len() as int));
}

/// Once downloaded, the version is recorded, and then the other versions are cleaned up; if both
/// succeed, the installation comes to the binary, and otherwise to the error.
pub proof fn law_install_records_and_cleans(
    release: ReleaseModel,
    os: Os,
    arch: Architecture,
    written: Result<(), Seq<char>>,
    cleaned: Seq<ReplyModel>,
)
    requires
        compatible_asset(release, os, arch) is Ok,
        written is Ok ==> in_order(cleanup(version_directory(release.version)), cleaned),
        written is Err ==> cleaned == Seq::<ReplyModel>::empty(),
    ensures
        ({
            let asset = compatible_asset(release, os, arch)->Ok_0;
            let start = Progress::Ask(InstallModel::Choosing { release });
            let replies = fresh_replies(os, arch, Ok(()), Ok(())) + seq![
                ReplyModel::Outcome(written),
            ] + cleaned;
            let cleanup = cleanup(version_directory(release.version));
            &&& in_order(start, replies)
            &&& run(start, replies) == (match written {
                Ok(()) => after_cleanup(binary_path(release.version, os), run(cleanup, cleaned)),
                Err(e) => Progress::Done(Err(WRITE_VERSION_FAILED@ + e)),
            })
            &&& asked(start, replies) == fresh_requests(release.version, asset, os) + seq![
                RequestModel::WriteFile(VERSION_FILE@, release.version),
            ] + (if written is Ok {
                asked(cleanup, cleaned)
            } else {
                seq![]
            })
        }),
{
    reveal_with_fuel(run, 2);
    reveal_with_fuel(asked, 2);
    reveal_with_fuel(in_order, 2);
    let version = release.version;
    let asset = compatible_asset(release, os, arch)->Ok_0;
    let dir = version_directory(version);
    let path = binary_path(version, os);
    let start = Progress::Ask(InstallModel::Choosing { release });
    let recording = Progress::Ask(InstallModel::Recording { version, dir, path });
    let first = fresh_replies(os, arch, Ok(()), Ok(()));
    let second = seq![ReplyModel::Outcome(written)];
    law_install_downloads(release, os, arch, Ok(()), Ok(()));
    assert(fresh_requests(version, asset, os).take(6) =~= fresh_requests(version, asset, os));
    law_conversation_splits(start, first, second);
    assert(second.drop_first() =~= seq![]);
    assert(asked(recording, second) =~= seq![RequestModel::WriteFile(VERSION_FILE@, version)]);
    law_conversation_splits(start, first + second, cleaned);
    if written is Ok {
        lemma_cleaning(path, cleanup(dir), cleaned);
    }
}

/// Every reply about the platform names this one.
pub open spec fn platform_is(replies: Seq<ReplyModel>, os: Os, arch: Architecture) -> bool {
    forall|i: int|
        0 <= i < replies.len() && #[trigger] replies[i] is Platform ==> replies[i]
            == ReplyModel::Platform(os, arch)
}

impl InstallModel {
    /// The installation is one of `release` on a platform.
    pub open spec fn is_for(self, release: ReleaseModel, os: Os, arch: Architecture) -> bool {
        let asset = compatible_asset(release, os, arch);
        let dir = version_directory(release.version);
        let path = binary_path(release.version, os);
        match self {
            InstallModel::Choosing { release: r } => r == release,
            InstallModel::Naming { version, asset: a } => {
                &&& version == release.version
                &&& asset == Ok::<_, Seq<char>>(a)
            },
            InstallModel::Probing { version, asset: a, dir: d, path: p } => {
                &&& version == release.version
                &&& asset == Ok::<_, Seq<char>>(a)
                &&& d == dir
                &&& p == path
            },
            InstallModel::Downloading { version, dir: d, path: p, download } => {
                &&& version == release.version
                &&& asset is Ok
                &&& d == dir
                &&& p == path
                &&& match download {
                    DownloadModel::Selecting { url, dir: d, path: p } => {
                        &&& url == asset->Ok_0.download_url
                        &&& d == dir
                        &&& p == path
                    },
                    DownloadModel::Fetching { url, dir: d, path: p, file_type } => {
                        &&& url == asset->Ok_0.download_url
                        &&& d == dir
                        &&& p == path
                        &&& file_type == archive_type(os)
                    },
                    DownloadModel::Marking { path: p } => p == path,
                }
            },
            InstallModel::Recording { version, dir: d, path: p } => {
                &&& version == release.version
                &&& asset is Ok
                &&& d == dir
                &&& p == path
            },
            InstallModel::Cleaning { path: p, cleanup } => {
                &&& asset is Ok
                &&& p == path
                &&& cleanup.wf()
                &&& final_component(dir) == Some(cleanup.current())
            },
        }
    }
}

/// What an installation of `release` may ask for on a platform.
pub open spec fn may_ask(
    release: ReleaseModel,
    os: Os,
    arch: Architecture,
    request: RequestModel,
) -> bool {
    let dir = version_directory(release.version);
    match request {
        RequestModel::CurrentPlatform => true,
        RequestModel::PathExists(path) => path == binary_path(release.version, os),
        RequestModel::DownloadFile(url, to, file_type) => {
            &&& compatible_asset(release, os, arch) matches Ok(asset)
            &&& url == asset.download_url
            &&& to == dir
            &&& file_type == archive_type(os)
        },
        RequestModel::MakeExecutable(path) => path == binary_path(release.version, os),
        RequestModel::WriteFile(path, contents) => {
            &&& path == VERSION_FILE@
            &&& contents == release.version
        },
        RequestModel::OpenDirectory(path) => path == WORK_DIRECTORY@,
        RequestModel::NextEntry => true,
        RequestModel::IsDirectory(path) => stale_path(path, dir),
        RequestModel::RemoveDirectory(path) => stale_path(path, dir),
        RequestModel::Warn(_) => true,
        _ => false,
    }
}

/// `path` is that of a version directory other than the one that `dir` ends in.
pub open spec fn stale_path(path: Seq<char>, dir: Seq<char>) -> bool {
    exists|name: Seq<char>|
        final_component(dir) is Some && is_stale(name, final_component(dir)->0) && path
            == #[trigger] entry_path(name)
}

/// Whatever the host replies, on one platform an installation asks for nothing but what belongs to
/// the release, and if it succeeds, then with the release's binary.
pub proof fn law_install_stays_with_release(
    machine: InstallModel,
    replies: Seq<ReplyModel>,
    release: ReleaseModel,
    os: Os,
    arch: Architecture,
)
    requires
        machine.is_for(release, os, arch),
        platform_is(replies, os, arch),
    ensures
        forall|i: int|
            0 <= i < asked(Progress::Ask(machine), replies).len() ==> may_ask(
                release,
                os,
                arch,
                #[trigger] asked(Progress::Ask(machine), replies)[i],
            ),
        run(Progress::Ask(machine), replies) matches Progress::Done(Ok(path)) ==> {
            &&& compatible_asset(release, os, arch) is Ok
            &&& path == binary_path(release.version, os)
        },
    decreases replies.len(),
{
    reveal_with_fuel(run, 2);
    reveal_with_fuel(asked, 2);
    let requests = asked(Progress::Ask(machine), replies);
    if replies.len() > 0 {
        let reply = replies.first();
        let rest = replies.drop_first();
        assert(replies[0] == reply);
        assert(platform_is(rest, os, arch)) by {
            assert forall|i: int|
                0 <= i < rest.len() && #[trigger] rest[i] is Platform implies rest[i]
                == ReplyModel::Platform(os, arch) by {
                assert(rest[i] == replies[i + 1]);
            }
        }
        assert(may_ask(release, os, arch, machine.pending())) by {
            if let InstallModel::Cleaning { cleanup, .. } = machine {
                match cleanup {
                    CleanupModel::Inspecting { name, .. } => {
                        assert(cleanup.pending() == RequestModel::IsDirectory(entry_path(name)));
                    },
                    CleanupModel::Removing { name, .. } => {
                        assert(cleanup.pending() == RequestModel::RemoveDirectory(
                            entry_path(name),
                        ));
                    },
                    _ => {},
                }
            }
        }
        match machine.step(reply) {
            Progress::Ask(next) => {
                law_install_stays_with_release(next, rest, release, os, arch);
                assert forall|i: int| 0 <= i < requests.len() implies may_ask(
                    release,
                    os,
                    arch,
                    #[trigger] requests[i],
                ) by {
                    if i > 0 {
                        assert(requests[i] == asked(Progress::Ask(next), rest)[i - 1]);
                    }
                }
            },
            Progress::Done(_) => {},
        }
    }
}

/// A version is recorded only when its binary has just been downloaded and made executable.
pub proof fn law_version_recorded_after_download(machine: InstallModel, reply: ReplyModel)
    requires
        machine !is Recording,
        machine.step(reply) matches Progress::Ask(next) && next is Recording,
    ensures
        machine matches InstallModel::Downloading { download, .. } && download is Marking,
        reply matches ReplyModel::Outcome(marked) && marked is Ok,
{
}

/// An installation whose failure the editor is told of, waiting for the host.
#[derive(Debug, PartialEq, Eq)]
pub enum Delivery {
    /// For what `install` waits for.
    Installing { install: Install },
    /// For the editor to show that the installation failed with `error`.
    Reporting { error: String },
}

/// What a [`Delivery`] stands for.
pub enum DeliveryModel {
    Installing { install: InstallModel },
    Reporting { error: Seq<char> },
}

impl DeepView for Delivery {
    type V = DeliveryModel;

    open spec fn deep_view(&self) -> DeliveryModel {
        match self {
            Delivery::Installing { install } => DeliveryModel::Installing {
                install: install.deep_view(),
            },
            Delivery::Reporting { error } => DeliveryModel::Reporting { error: error@ },
        }
    }
}

/// How a delivery goes on when its installation has come to `install`.
pub open spec fn after_install(
    install: Progress<InstallModel, Result<Seq<char>, Seq<char>>>,
) -> Progress<DeliveryModel, Result<BinaryModel, Seq<char>>> {
    match install {
        Progress::Ask(install) => Progress::Ask(DeliveryModel::Installing { install }),
        Progress::Done(Ok(path)) => Progress::Done(Ok(BinaryModel::released(path))),
        Progress::Done(Err(error)) => Progress::Ask(DeliveryModel::Reporting { error }),
    }
}

impl Machine for DeliveryModel {
    type Outcome = Result<BinaryModel, Seq<char>>;

    open spec fn pending(self) -> RequestModel {
        match self {
            DeliveryModel::Installing { install } => install.pending(),
            DeliveryModel::Reporting { error } => RequestModel::SetStatus(
                StatusModel::Failed(INSTALL_FAILED@ + error),
            ),
        }
    }

    open spec fn step(self, reply: ReplyModel) -> Progress<Self, Self::Outcome> {
        match (self, reply) {
            (DeliveryModel::Installing { install }, reply) => after_install(install.step(reply)),
            (DeliveryModel::Reporting { error }, ReplyModel::Done) => Progress::Done(Err(error)),
            (machine, _) => Progress::Ask(machine),
        }
    }
}

impl DeliveryModel {
    /// The installation is well-formed.
    pub open spec fn wf(self) -> bool {
        self matches DeliveryModel::Installing { install } ==> install.wf()
    }
}

impl CodebookExtension {
    /// Begins to install `release` for users to run. The delivery comes to the binary, or to what
    /// has gone wrong, of which the editor has then been told.
    pub fn download_and_install_binary(&self, release: GithubRelease) -> (res: Delivery)
        ensures
            res.deep_view() == (DeliveryModel::Installing {
                install: InstallModel::Choosing { release: release.deep_view() },
            }),
            res.wf(),
    {
        Delivery::Installing { install: self.install_binary(release) }
    }
}

impl Delivery {
    /// The installation is well-formed.
    pub open spec fn wf(self) -> bool {
        self.deep_view().wf()
    }

    /// What the delivery waits for.
    pub fn pending(&self) -> (res: Request)
        ensures
            res.deep_view() == self.deep_view().pending(),
    {
        match self {
            Delivery::Installing { install } => install.pending(),
            Delivery::Reporting { error } => Request::SetStatus(
                InstallationStatus::Failed(INSTALL_FAILED.to_string().concat(error)),
            ),
        }
    }

    /// What the delivery makes of a reply.
    pub fn resume(self, extension: &CodebookExtension, reply: Reply) -> (res: Progress<
        Delivery,
        Result<CodebookBinary, String>,
    >)
        ensures
            progress_view(res) == self.deep_view().step(reply.deep_view()),
            self.wf() ==> (res matches Progress::Ask(next) ==> next.wf()),
    {
        match (self, reply) {
            (Delivery::Installing { install }, reply) => match install.resume(extension, reply) {
                Progress::Ask(install) => Progress::Ask(Delivery::Installing { install }),
                Progress::Done(Ok(path)) => Progress::Done(
                    Ok(CodebookBinary::new(path, LOG_LEVEL_INFO)),
                ),
                Progress::Done(Err(error)) => Progress::Ask(Delivery::Reporting { error }),
            },
            (Delivery::Reporting { error }, Reply::Done) => Progress::Done(Err(error)),
            (machine, _) => Progress::Ask(machine),
        }
    }
}

/// An installation within a delivery goes as it goes alone.
proof fn lemma_installing(install: InstallModel, replies: Seq<ReplyModel>)
    requires
        in_order(Progress::Ask(install), replies),
    ensures
        ({
            let start = Progress::Ask(DeliveryModel::Installing { install });
            &&& in_order(start, replies)
            &&& run(start, replies) == after_install(run(Progress::Ask(install), replies))
            &&& asked(start, replies) == asked(Progress::Ask(install), replies)
        }),
    decreases replies.len(),
{
    if replies.len() > 0 {
        reveal_with_fuel(run, 2);
        reveal_with_fuel(asked, 2);
        reveal_with_fuel(in_order, 2);
        match install.step(replies.first()) {
            Progress::Ask(next) => {
                lemma_installing(next, replies.drop_first());
            },
            Progress::Done(_) => {
                assert(replies.drop_first() =~= seq![]);
            },
        }
    }
}

/// What the host replies during a delivery whose installation it replies `replies` to and which
/// comes to `installed`.
pub open spec fn delivery_replies(
    replies: Seq<ReplyModel>,
    installed: Result<Seq<char>, Seq<char>>,
) -> Seq<ReplyModel> {
    if installed is Ok {
        replies
    } else {
        replies + seq![ReplyModel::Done]
    }
}

/// A delivery comes to what its installation comes to; that it failed is shown in the editor first.
pub proof fn law_delivery(
    install: InstallModel,
    replies: Seq<ReplyModel>,
    installed: Result<Seq<char>, Seq<char>>,
)
    requires
        in_order(Progress::Ask(install), replies),
        run(Progress::Ask(install), replies) == Progress::<InstallModel, _>::Done(installed),
    ensures
        ({
            let start = Progress::Ask(DeliveryModel::Installing { install });
            let all = delivery_replies(replies, installed);
            &&& in_order(start, all)
            &&& run(start, all) == Progress::<DeliveryModel, _>::Done(
                match installed {
                    Ok(path) => Ok(BinaryModel::released(path)),
                    Err(e) => Err(e),
                },
            )
            &&& asked(start, all) == asked(Progress::Ask(install), replies) + (match installed {
                Ok(_) => seq![],
                Err(e) => seq![
                    RequestModel::SetStatus(StatusModel::Failed(INSTALL_FAILED@ + e)),
                ],
            })
        }),
{
    lemma_installing(install, replies);
    let start = Progress::Ask(DeliveryModel::Installing { install });
    match installed {
        Ok(_) => {
            assert(asked(start, replies) + seq![] =~= asked(start, replies));
        },
        Err(error) => {
            reveal_with_fuel(run, 2);
            reveal_with_fuel(asked, 2);
            reveal_with_fuel(in_order, 2);
            let last = seq![ReplyModel::Done];
            let reporting = Progress::Ask(DeliveryModel::Reporting { error });
            law_conversation_splits(start, replies, last);
            assert(last.drop_first() =~= seq![]);
            assert(asked(reporting, last) =~= seq![
                RequestModel::SetStatus(StatusModel::Failed(INSTALL_FAILED@ + error)),
            ]);
        },
    }
}

/// An installation begins by choosing the asset for the platform; without one it fails, and has
/// asked for the platform only.
pub proof fn law_install_needs_asset(
    release: ReleaseModel,
    os: Os,
    arch: Architecture,
    error: Seq<char>,
)
    requires
        compatible_asset(release, os, arch) == Err::<AssetModel, _>(error),
    ensures
        ({
            let start = Progress::Ask(InstallModel::Choosing { release });
            let replies = seq![ReplyModel::Platform(os, arch)];
            &&& run(start, replies) == Progress::<InstallModel, _>::Done(
                Err::<Seq<char>, _>(error),
            )
            &&& asked(start, replies) == seq![RequestModel::CurrentPlatform]
        }),
{
    law_install_incompatible(release, os, arch);
}

/// What an installation asks for before it writes or removes anything: the binary is looked for at
/// its path in the version's directory; if it is not there, the asset chosen is downloaded to that
/// directory, and the binary at that same path made executable.
pub proof fn law_install_requests(
    release: ReleaseModel,
    asset: AssetModel,
    os: Os,
    arch: Architecture,
)
    requires
        compatible_asset(release, os, arch) == Ok::<_, Seq<char>>(asset),
    ensures
        ({
            let start = Progress::Ask(InstallModel::Choosing { release });
            let path = binary_path(release.version, os);
            let here = ReplyModel::Platform(os, arch);
            let found = seq![here, here, ReplyModel::Answer(true)];
            let fresh = seq![
                here,
                here,
                ReplyModel::Answer(false),
                here,
                ReplyModel::Outcome(Ok(())),
                ReplyModel::Outcome(Ok(())),
            ];
            &&& run(start, found) == Progress::<InstallModel, _>::Done(Ok::<_, Seq<char>>(path))
            &&& asked(start, found) == seq![
                RequestModel::CurrentPlatform,
                RequestModel::CurrentPlatform,
                RequestModel::PathExists(path),
            ]
            &&& asked(start, fresh) == seq![
                RequestModel::CurrentPlatform,
                RequestModel::CurrentPlatform,
                RequestModel::PathExists(path),
                RequestModel::CurrentPlatform,
                RequestModel::DownloadFile(
                    asset.download_url,
                    "codebook-lsp-"@ + release.version,
                    if os == Os::Windows {
                        DownloadedFileType::Zip
                    } else {
                        DownloadedFileType::GzipTar
                    },
                ),
                RequestModel::MakeExecutable(path),
            ]
        }),
{
    law_install_present(release, os, arch);
    law_install_downloads(release, os, arch, Ok(()), Ok(()));
    law_version_directory(release.version);
    let here = ReplyModel::Platform(os, arch);
    assert(fresh_replies(os, arch, Ok(()), Ok(())) =~= seq![
        here,
        here,
        ReplyModel::Answer(false),
        here,
        ReplyModel::Outcome(Ok(())),
        ReplyModel::Outcome(Ok(())),
    ]);
    let requests = fresh_requests(release.version, asset, os);
    assert(requests.take(6) =~= requests);
}

/// What an installation fails with when the download fails, or the binary cannot be made
/// executable.
pub proof fn law_install_download_fails(
    release: ReleaseModel,
    os: Os,
    arch: Architecture,
    e: Seq<char>,
)
    requires
        compatible_asset(release, os, arch) is Ok,
    ensures
        ({
            let start = Progress::Ask(InstallModel::Choosing { release });
            let here = ReplyModel::Platform(os, arch);
            &&& run(
                start,
                seq![here, here, ReplyModel::Answer(false), here, ReplyModel::Outcome(Err(e))],
            ) == Progress::<InstallModel, _>::Done(
                Err::<Seq<char>, _>("Failed to download binary: "@ + e),
            )
            &&& run(
                start,
                seq![
                    here,
                    here,
                    ReplyModel::Answer(false),
                    here,
                    ReplyModel::Outcome(Ok(())),
                    ReplyModel::Outcome(Err(e)),
                ],
            ) == Progress::<InstallModel, _>::Done(
                Err::<Seq<char>, _>("Failed to make binary executable: "@ + e),
            )
        }),
{
    law_install_downloads(release, os, arch, Err(e), Ok(()));
    law_install_downloads(release, os, arch, Ok(()), Err(e));
    let here = ReplyModel::Platform(os, arch);
    assert(fresh_replies(os, arch, Err(e), Ok(())) =~= seq![
        here,
        here,
        ReplyModel::Answer(false),
        here,
        ReplyModel::Outcome(Err(e)),
    ]);
    assert(fresh_replies(os, arch, Ok(()), Err(e)) =~= seq![
        here,
        here,
        ReplyModel::Answer(false),
        here,
        ReplyModel::Outcome(Ok(())),
        ReplyModel::Outcome(Err(e)),
    ]);
}

/// After the download the release's own version is written to the version file; if that fails, the
/// installation fails.
pub proof fn law_install_write_fails(
    release: ReleaseModel,
    os: Os,
    arch: Architecture,
    e: Seq<char>,
)
    requires
        compatible_asset(release, os, arch) is Ok,
    ensures
        ({
            let start = Progress::Ask(InstallModel::Choosing { release });
            let here = ReplyModel::Platform(os, arch);
            let replies = seq![
                here,
                here,
                ReplyModel::Answer(false),
                here,
                ReplyModel::Outcome(Ok(())),
                ReplyModel::Outcome(Ok(())),
                ReplyModel::Outcome(Err(e)),
            ];
            &&& run(start, replies) == Progress::<InstallModel, _>::Done(
                Err::<Seq<char>, _>("Failed to write version file: "@ + e),
            )
            &&& asked(start, replies).len() == 7
            &&& asked(start, replies)[6] == RequestModel::WriteFile(".version"@, release.version)
        }),
{
    law_install_records_and_cleans(release, os, arch, Err(e), seq![]);
    let here = ReplyModel::Platform(os, arch);
    assert(fresh_replies(os, arch, Ok(()), Ok(())) + seq![ReplyModel::Outcome(Err(e))] + Seq::<
        ReplyModel,
    >::empty() =~= seq![
        here,
        here,
        ReplyModel::Answer(false),
        here,
        ReplyModel::Outcome(Ok(())),
        ReplyModel::Outcome(Ok(())),
        ReplyModel::Outcome(Err(e)),
    ]);
}

/// With the version written, the installation ends as the cleanup for the version's directory does:
/// with the path of the binary, or with the cleanup's error.
pub proof fn law_install_ends_with_cleanup(
    release: ReleaseModel,
    os: Os,
    arch: Architecture,
    cleaned: Seq<ReplyModel>,
    e: Seq<char>,
)
    requires
        compatible_asset(release, os, arch) is Ok,
        in_order(cleanup("codebook-lsp-"@ + release.version), cleaned),
    ensures
        ({
            let start = Progress::Ask(InstallModel::Choosing { release });
            let here = ReplyModel::Platform(os, arch);
            let replies = seq![
                here,
                here,
                ReplyModel::Answer(false),
                here,
                ReplyModel::Outcome(Ok(())),
                ReplyModel::Outcome(Ok(())),
                ReplyModel::Outcome(Ok(())),
            ] + cleaned;
            let end = run(cleanup("codebook-lsp-"@ + release.version), cleaned);
            &&& in_order(start, replies)
            &&& end == Progress::<CleanupModel, _>::Done(Ok::<_, Seq<char>>(())) ==> run(
                start,
                replies,
            ) == Progress::<InstallModel, _>::Done(
                Ok::<_, Seq<char>>(binary_path(release.version, os)),
            )
            &&& end == Progress::<CleanupModel, _>::Done(Err::<(), _>(e)) ==> run(start, replies)
                == Progress::<InstallModel, _>::Done(Err::<Seq<char>, _>(e))
            &&& asked(start, replies).len() == 7 + asked(
                cleanup("codebook-lsp-"@ + release.version),
                cleaned,
            ).len()
            &&& asked(start, replies)[6] == RequestModel::WriteFile(".version"@, release.version)
            &&& asked(start, replies).skip(7) == asked(
                cleanup("codebook-lsp-"@ + release.version),
                cleaned,
            )
        }),
{
    law_version_directory(release.version);
    law_install_records_and_cleans(release, os, arch, Ok(()), cleaned);
    let here = ReplyModel::Platform(os, arch);
    let start = Progress::Ask(InstallModel::Choosing { release });
    let replies = seq![
        here,
        here,
        ReplyModel::Answer(false),
        here,
        ReplyModel::Outcome(Ok(())),
        ReplyModel::Outcome(Ok(())),
        ReplyModel::Outcome(Ok(())),
    ] + cleaned;
    assert(fresh_replies(os, arch, Ok(()), Ok(())) + seq![ReplyModel::Outcome(Ok(()))] + cleaned
        =~= replies);
    assert(asked(start, replies).skip(7) =~= asked(
        cleanup("codebook-lsp-"@ + release.version),
        cleaned,
    ));
}

/// A delivery ends with the binary that was installed, to be run as users run it; or, after the
/// editor has been shown the error, with the error.
pub proof fn law_delivery_ends(
    release: ReleaseModel,
    replies: Seq<ReplyModel>,
    path: Seq<char>,
    e: Seq<char>,
)
    requires
        in_order(Progress::Ask(InstallModel::Choosing { release }), replies),
    ensures
        ({
            let install = InstallModel::Choosing { release };
            let start = Progress::Ask(DeliveryModel::Installing { install });
            let end = run(Progress::Ask(install), replies);
            &&& end == Progress::<InstallModel, _>::Done(Ok::<_, Seq<char>>(path)) ==> {
                &&& in_order(start, replies)
                &&& run(start, replies) == Progress::<DeliveryModel, _>::Done(
                    Ok::<_, Seq<char>>(
                        BinaryModel { path, env: seq![("RUST_LOG"@, "info"@)] },
                    ),
                )
                &&& asked(start, replies) == asked(Progress::Ask(install), replies)
            }
            &&& end == Progress::<InstallModel, _>::Done(Err::<Seq<char>, _>(e)) ==> {
                let all = replies + seq![ReplyModel::Done];
                &&& in_order(start, all)
                &&& run(start, all) == Progress::<DeliveryModel, _>::Done(
                    Err::<BinaryModel, _>(e),
                )
                &&& asked(start, all) == asked(Progress::Ask(install), replies).push(
                    RequestModel::SetStatus(
                        StatusModel::Failed("Failed to install release: "@ + e),
                    ),
                )
            }
        }),
{
    let install = InstallModel::Choosing { release };
    let requests = asked(Progress::Ask(install), replies);
    match run(Progress::Ask(install), replies) {
        Progress::Done(Ok(p)) => {
            law_delivery(install, replies, Ok(p));
            law_released_binary(p);
            assert(requests + seq![] =~= requests);
        },
        Progress::Done(Err(error)) => {
            law_delivery(install, replies, Err(error));
            let shown = RequestModel::SetStatus(
                StatusModel::Failed("Failed to install release: "@ + error),
            );
            assert(requests + seq![shown] =~= requests.push(shown));
        },
        Progress::Ask(_) => {},
    }
}

/// A reply of the wrong kind changes nothing.
pub proof fn law_install_ignores_stray_replies(install: InstallModel, reply: ReplyModel)
    requires
        install is Choosing || install is Naming ==> reply !is Platform,
        install is Probing ==> reply !is Answer,
        install matches InstallModel::Downloading { download, .. } ==> download.step(reply)
            == Progress::<_, Result<(), Seq<char>>>::Ask(download),
        install is Recording ==> reply !is Outcome,
        install matches InstallModel::Cleaning { cleanup, .. } ==> cleanup.step(reply)
            == Progress::<_, Result<(), Seq<char>>>::Ask(cleanup),
    ensures
        install.step(reply) == Progress::<_, Result<Seq<char>, Seq<char>>>::Ask(install),
{
}

/// A reply of the wrong kind changes nothing.
pub proof fn law_delivery_ignores_stray_replies(delivery: DeliveryModel, reply: ReplyModel)
    requires
        delivery matches DeliveryModel::Installing { install } ==> install.step(reply)
            == Progress::<_, Result<Seq<char>, Seq<char>>>::Ask(install),
        delivery is Reporting ==> reply !is Done,
    ensures
        delivery.step(reply) == Progress::<_, Result<BinaryModel, Seq<char>>>::Ask(delivery),
{
}

/// Each of the three questions for the platform decides one thing: the first the asset, the second
/// the name of the executable, the third how the archive is packed.
pub proof fn law_install_platform_answers(
    release: ReleaseModel,
    asset: AssetModel,
    first: (Os, Architecture),
    second: (Os, Architecture),
    third: (Os, Architecture),
)
    requires
        compatible_asset(release, first.0, first.1) == Ok::<_, Seq<char>>(asset),
    ensures
        ({
            let start = Progress::Ask(InstallModel::Choosing { release });
            let path = binary_path(release.version, second.0);
            let replies = seq![
                ReplyModel::Platform(first.0, first.1),
                ReplyModel::Platform(second.0, second.1),
                ReplyModel::Answer(false),
                ReplyModel::Platform(third.0, third.1),
                ReplyModel::Outcome(Ok(())),
                ReplyModel::Outcome(Ok(())),
            ];
            asked(start, replies) == seq![
                RequestModel::CurrentPlatform,
                RequestModel::CurrentPlatform,
                RequestModel::PathExists(path),
                RequestModel::CurrentPlatform,
                RequestModel::DownloadFile(
                    asset.download_url,
                    "codebook-lsp-"@ + release.version,
                    if third.0 == Os::Windows {
                        DownloadedFileType::Zip
                    } else {
                        DownloadedFileType::GzipTar
                    },
                ),
                RequestModel::MakeExecutable(path),
            ]
        }),
{
    reveal_with_fuel(run, 7);
    reveal_with_fuel(asked, 7);
    law_version_directory(release.version);
    let start = Progress::Ask(InstallModel::Choosing { release });
    let path = binary_path(release.version, second.0);
    let replies = seq![
        ReplyModel::Platform(first.0, first.1),
        ReplyModel::Platform(second.0, second.1),
        ReplyModel::Answer(false),
        ReplyModel::Platform(third.0, third.1),
        ReplyModel::Outcome(Ok(())),
        ReplyModel::Outcome(Ok(())),
    ];
    assert(asked(start, replies) =~= seq![
        RequestModel::CurrentPlatform,
        RequestModel::CurrentPlatform,
        RequestModel::PathExists(path),
        RequestModel::CurrentPlatform,
        RequestModel::DownloadFile(
            asset.download_url,
            "codebook-lsp-"@ + release.version,
            archive_type(third.0),
        ),
        RequestModel::MakeExecutable(path),
    ]);
}

} // verus!

//! Downloading a binary and making it executable.

use vstd::prelude::*;

use crate::extension::CodebookExtension;
use crate::host::{
    asked, in_order, progress_view, run, Machine, Progress, Reply, ReplyModel, Request,
    RequestModel,
};
use crate::platform::{
    archive_type, downloaded_file_type, Architecture, DownloadedFileType, Os,
};
use crate::release::GithubReleaseAsset;

verus! {

/// What precedes the reason why a download failed.
pub const DOWNLOAD_FAILED: &'static str = "Failed to download binary: ";

/// What precedes the reason why a binary could not be made executable.
pub const MAKE_EXECUTABLE_FAILED: &'static str = "Failed to make binary executable: ";

/// The download of an archive from `url` to the directory `dir`, where the binary is then at
/// `path`, waiting for the host.
#[derive(Debug, PartialEq, Eq)]
pub enum Download {
    /// For the platform, which decides how the archive is packed.
    Selecting { url: String, dir: String, path: String },
    /// For the archive to be downloaded and unpacked.
    Fetching { url: String, dir: String, path: String, file_type: DownloadedFileType },
    /// For the binary to be made executable.
    Marking { path: String },
}

/// What a [`Download`] stands for.
pub enum DownloadModel {
    Selecting { url: Seq<char>, dir: Seq<char>, path: Seq<char> },
    Fetching { url: Seq<char>, dir: Seq<char>, path: Seq<char>, file_type: DownloadedFileType },
    Marking { path: Seq<char> },
}

impl DeepView for Download {
    type V = DownloadModel;

    open spec fn deep_view(&self) -> DownloadModel {
        match self {
            Download::Selecting { url, dir, path } => DownloadModel::Selecting {
                url: url@,
                dir: dir@,
                path: path@,
            },
            Download::Fetching { url, dir, path, file_type } => DownloadModel::Fetching {
                url: url@,
                dir: dir@,
                path: path@,
                file_type: *file_type,
            },
            Download::Marking { path } => DownloadModel::Marking { path: path@ },
        }
    }
}

impl Machine for DownloadModel {
    type Outcome = Result<(), Seq<char>>;

    open spec fn pending(self) -> RequestModel {
        match self {
            DownloadModel::Selecting { .. } => RequestModel::CurrentPlatform,
            DownloadModel::Fetching { url, dir, file_type, .. } => RequestModel::DownloadFile(
                url,
                dir,
                file_type,
            ),
            DownloadModel::Marking { path } => RequestModel::MakeExecutable(path),
        }
    }

    open spec fn step(self, reply: ReplyModel) -> Progress<Self, Self::Outcome> {
        match (self, reply) {
            (DownloadModel::Selecting { url, dir, path }, ReplyModel::Platform(os, _)) =>
            Progress::Ask(DownloadModel::Fetching { url, dir, path, file_type: archive_type(os) }),
            (DownloadModel::Fetching { path, .. }, ReplyModel::Outcome(Ok(()))) => Progress::Ask(
                DownloadModel::Marking { path },
            ),
            (DownloadModel::Fetching { .. }, ReplyModel::Outcome(Err(e))) => Progress::Done(
                Err(DOWNLOAD_FAILED@ + e),
            ),
            (DownloadModel::Marking { .. }, ReplyModel::Outcome(Ok(()))) => Progress::Done(Ok(())),
            (DownloadModel::Marking { .. }, ReplyModel::Outcome(Err(e))) => Progress::Done(
                Err(MAKE_EXECUTABLE_FAILED@ + e),
            ),
            (machine, _) => Progress::Ask(machine),
        }
    }
}

impl CodebookExtension {
    /// Begins to download `asset` to `version_dir`, where it brings the binary to `binary_path`,
    /// and to make the binary executable.
    pub fn download_binary(
        &self,
        asset: &GithubReleaseAsset,
        version_dir: &str,
        binary_path: &str,
    ) -> (res: Download)
        ensures
            res.deep_view() == (DownloadModel::Selecting {
                url: asset.deep_view().download_url,
                dir: version_dir@,
                path: binary_path@,
            }),
    {
        Download::Selecting {
            url: asset.download_url.clone(),
            dir: version_dir.to_string(),
            path: binary_path.to_string(),
        }
    }
}

impl Download {
    /// What the download waits for.
    pub fn pending(&self) -> (res: Request)
        ensures
            res.deep_view() == self.deep_view().pending(),
    {
        match self {
            Download::Selecting { .. } => Request::CurrentPlatform,
            Download::Fetching { url, dir, file_type, .. } => Request::DownloadFile(
                url.clone(),
                dir.clone(),
                *file_type,
            ),
            Download::Marking { path } => Request::MakeExecutable(path.clone()),
        }
    }

    /// What the download makes of a reply.
    pub fn resume(self, reply: Reply) -> (res: Progress<Download, Result<(), String>>)
        ensures
            progress_view(res) == self.deep_view().step(reply.deep_view()),
    {
        match (self, reply) {
            (Download::Selecting { url, dir, path }, Reply::Platform(platform, _)) => Progress::Ask(
                Download::Fetching { url, dir, path, file_type: downloaded_file_type(platform) },
            ),
            (Download::Fetching { path, .. }, Reply::Outcome(Ok(()))) => Progress::Ask(
                Download::Marking { path },
            ),
            (Download::Fetching { .. }, Reply::Outcome(Err(e))) => Progress::Done(
                Err(DOWNLOAD_FAILED.to_string().concat(e.as_str())),
            ),
            (Download::Marking { .. }, Reply::Outcome(Ok(()))) => Progress::Done(Ok(())),
            (Download::Marking { .. }, Reply::Outcome(Err(e))) => Progress::Done(
                Err(MAKE_EXECUTABLE_FAILED.to_string().concat(e.as_str())),
            ),
            (machine, _) => Progress::Ask(machine),
        }
    }
}

/// What a download comes to when downloading comes to `fetched` and making the binary executable
/// to `marked`.
pub open spec fn download_outcome(
    fetched: Result<(), Seq<char>>,
    marked: Result<(), Seq<char>>,
) -> Result<(), Seq<char>> {
    match (fetched, marked) {
        (Err(e), _) => Err(DOWNLOAD_FAILED@ + e),
        (Ok(()), Err(e)) => Err(MAKE_EXECUTABLE_FAILED@ + e),
        (Ok(()), Ok(())) => Ok(()),
    }
}

/// What the host replies during a download.
pub open spec fn download_replies(
    os: Os,
    arch: Architecture,
    fetched: Result<(), Seq<char>>,
    marked: Result<(), Seq<char>>,
) -> Seq<ReplyModel> {
    if fetched is Ok {
        seq![
            ReplyModel::Platform(os, arch),
            ReplyModel::Outcome(fetched),
            ReplyModel::Outcome(marked),
        ]
    } else {
        seq![ReplyModel::Platform(os, arch), ReplyModel::Outcome(fetched)]
    }
}

/// A download asks for the platform, for the archive in the form that the platform has, and for
/// the binary to be made executable, in this order; the first failure ends it.
pub proof fn law_download(
    url: Seq<char>,
    dir: Seq<char>,
    path: Seq<char>,
    os: Os,
    arch: Architecture,
    fetched: Result<(), Seq<char>>,
    marked: Result<(), Seq<char>>,
)
    ensures
        ({
            let start = Progress::Ask(DownloadModel::Selecting { url, dir, path });
            let replies = download_replies(os, arch, fetched, marked);
            &&& in_order(start, replies)
            &&& run(start, replies) == Progress::<DownloadModel, _>::Done(
                download_outcome(fetched, marked),
            )
            &&& asked(start, replies) == seq![
                RequestModel::CurrentPlatform,
                RequestModel::DownloadFile(url, dir, archive_type(os)),
                RequestModel::MakeExecutable(path),
            ].take(replies.len() as int)
        }),
{
    reveal_with_fuel(run, 4);
    reveal_with_fuel(asked, 4);
    reveal_with_fuel(in_order, 4);
    let start = Progress::Ask(DownloadModel::Selecting { url, dir, path });
    let replies = download_replies(os, arch, fetched, marked);
    assert(asked(start, replies) =~= seq![
        RequestModel::CurrentPlatform,
        RequestModel::DownloadFile(url, dir, archive_type(os)),
        RequestModel::MakeExecutable(path),
    ].take(replies.len() as int));
}

/// A download that succeeds: the archive is fetched from the asset's own URL to the directory, as
/// the platform has it, and then the binary is made executable.
pub proof fn law_download_succeeds(
    url: Seq<char>,
    dir: Seq<char>,
    path: Seq<char>,
    os: Os,
    arch: Architecture,
)
    ensures
        ({
            let start = Progress::Ask(DownloadModel::Selecting { url, dir, path });
            let replies = seq![
                ReplyModel::Platform(os, arch),
                ReplyModel::Outcome(Ok(())),
                ReplyModel::Outcome(Ok(())),
            ];
            &&& run(start, replies) == Progress::<DownloadModel, _>::Done(Ok::<_, Seq<char>>(()))
            &&& asked(start, replies) == seq![
                RequestModel::CurrentPlatform,
                RequestModel::DownloadFile(
                    url,
                    dir,
                    if os == Os::Windows {
                        DownloadedFileType::Zip
                    } else {
                        DownloadedFileType::GzipTar
                    },
                ),
                RequestModel::MakeExecutable(path),
            ]
        }),
{
    law_download(url, dir, path, os, arch, Ok(()), Ok(()));
    let requests = seq![
        RequestModel::CurrentPlatform,
        RequestModel::DownloadFile(url, dir, archive_type(os)),
        RequestModel::MakeExecutable(path),
    ];
    assert(requests.take(3) =~= requests);
}

/// A download that fails says at which of the two it failed, and why.
pub proof fn law_download_fails(
    url: Seq<char>,
    dir: Seq<char>,
    path: Seq<char>,
    os: Os,
    arch: Architecture,
    e: Seq<char>,
)
    ensures
        run(
            Progress::Ask(DownloadModel::Selecting { url, dir, path }),
            seq![ReplyModel::Platform(os, arch), ReplyModel::Outcome(Err(e))],
        ) == Progress::<DownloadModel, _>::Done(
            Err::<(), _>("Failed to download binary: "@ + e),
        ),
        run(
            Progress::Ask(DownloadModel::Selecting { url, dir, path }),
            seq![
                ReplyModel::Platform(os, arch),
                ReplyModel::Outcome(Ok(())),
                ReplyModel::Outcome(Err(e)),
            ],
        ) == Progress::<DownloadModel, _>::Done(
            Err::<(), _>("Failed to make binary executable: "@ + e),
        ),
{
    law_download(url, dir, path, os, arch, Err(e), Ok(()));
    law_download(url, dir, path, os, arch, Ok(()), Err(e));
}

/// A reply of the wrong kind changes nothing.
pub proof fn law_download_ignores_stray_replies(download: DownloadModel, reply: ReplyModel)
    requires
        download is Selecting ==> reply !is Platform,
        download !is Selecting ==> reply !is Outcome,
    ensures
        download.step(reply) == Progress::<_, Result<(), Seq<char>>>::Ask(download),
{
}

} // verus!

//! Finding the binary that an earlier session has installed.

use vstd::prelude::*;

use crate::extension::{
    law_version_directory, version_directory, version_read, CodebookExtension, VERSION_FILE,
};
use crate::host::{
    asked, in_order, progress_view, run, Machine, Progress, ReadFailureModel, Reply, ReplyModel,
    Request, RequestModel,
};
use crate::path::{final_component, join, joined, law_final_component, law_join};
use crate::platform::{binary_file_name, law_binary_file_name, Architecture, Os};
use crate::text::trimmed;

verus! {

/// What precedes the path where a binary was expected.
pub const BINARY_NOT_FOUND: &'static str = "Binary not found at expected path: ";

/// The search for the installed binary, waiting for the host.
#[derive(Debug, PartialEq, Eq)]
pub enum Lookup {
    /// For the version file.
    ReadingVersion,
    /// For the platform that the binary of `version` is for.
    Naming { version: String },
    /// To be told whether the binary is at `path`.
    Probing { path: String },
}

/// What a [`Lookup`] stands for.
pub enum LookupModel {
    ReadingVersion,
    Naming { version: Seq<char> },
    Probing { path: Seq<char> },
}

impl DeepView for Lookup {
    type V = LookupModel;

    open spec fn deep_view(&self) -> LookupModel {
        match self {
            Lookup::ReadingVersion => LookupModel::ReadingVersion,
            Lookup::Naming { version } => LookupModel::Naming { version: version@ },
            Lookup::Probing { path } => LookupModel::Probing { path: path@ },
        }
    }
}

/// Where the binary of `version` is on `os`.
pub open spec fn binary_path(version: Seq<char>, os: Os) -> Seq<char> {
    joined(version_directory(version), binary_file_name(os))
}

impl Machine for LookupModel {
    type Outcome = Result<Seq<char>, Seq<char>>;

    open spec fn pending(self) -> RequestModel {
        match self {
            LookupModel::ReadingVersion => RequestModel::ReadFile(VERSION_FILE@),
            LookupModel::Naming { .. } => RequestModel::CurrentPlatform,
            LookupModel::Probing { path } => RequestModel::PathExists(path),
        }
    }

    open spec fn step(self, reply: ReplyModel) -> Progress<Self, Self::Outcome> {
        match (self, reply) {
            (LookupModel::ReadingVersion, ReplyModel::Contents(contents)) => match version_read(
                contents,
            ) {
                Ok(version) => Progress::Ask(LookupModel::Naming { version }),
                Err(e) => Progress::Done(Err(e)),
            },
            (LookupModel::Naming { version }, ReplyModel::Platform(os, _)) => Progress::Ask(
                LookupModel::Probing { path: binary_path(version, os) },
            ),
            (LookupModel::Probing { path }, ReplyModel::Answer(exists)) => Progress::Done(
                if exists {
                    Ok(path)
                } else {
                    Err(BINARY_NOT_FOUND@ + path)
                },
            ),
            (machine, _) => Progress::Ask(machine),
        }
    }
}

impl CodebookExtension {
    /// Begins to look for the binary that the version file speaks of. The search comes to its
    /// path, or to why there is none.
    pub fn get_cached_binary_path(&self) -> (res: Lookup)
        ensures
            res.deep_view() == LookupModel::ReadingVersion,
    {
        Lookup::ReadingVersion
    }
}

impl Lookup {
    /// What the search waits for.
    pub fn pending(&self) -> (res: Request)
        ensures
            res.deep_view() == self.deep_view().pending(),
    {
        match self {
            Lookup::ReadingVersion => Request::ReadFile(VERSION_FILE.to_string()),
            Lookup::Naming { .. } => Request::CurrentPlatform,
            Lookup::Probing { path } => Request::PathExists(path.clone()),
        }
    }

    /// What the search makes of a reply.
    pub fn resume(self, extension: &CodebookExtension, reply: Reply) -> (res: Progress<
        Lookup,
        Result<String, String>,
    >)
        ensures
            progress_view(res) == self.deep_view().step(reply.deep_view()),
    {
        match (self, reply) {
            (Lookup::ReadingVersion, Reply::Contents(contents)) => {
                match extension.read_version_file(contents) {
                    Ok(version) => Progress::Ask(Lookup::Naming { version }),
                    Err(e) => Progress::Done(Err(e)),
                }
            },
            (Lookup::Naming { version }, Reply::Platform(platform, _)) => {
                let version_dir = extension.get_version_directory_path(version.as_str());
                let filename = extension.get_binary_filename(platform);
                let path = join(version_dir.as_str(), filename.as_str());
                Progress::Ask(Lookup::Probing { path })
            },
            (Lookup::Probing { path }, Reply::Answer(exists)) => {
                if !exists {
                    return Progress::Done(
                        Err(BINARY_NOT_FOUND.to_string().concat(path.as_str())),
                    );
                }
                Progress::Done(Ok(path))
            },
            (machine, _) => Progress::Ask(machine),
        }
    }
}

/// What a lookup comes to.
pub open spec fn lookup_outcome(
    contents: Result<Seq<char>, ReadFailureModel>,
    os: Os,
    present: bool,
) -> Result<Seq<char>, Seq<char>> {
    match version_read(contents) {
        Ok(version) => if present {
            Ok(binary_path(version, os))
        } else {
            Err(BINARY_NOT_FOUND@ + binary_path(version, os))
        },
        Err(e) => Err(e),
    }
}

/// What the host replies during a lookup.
pub open spec fn lookup_replies(
    contents: Result<Seq<char>, ReadFailureModel>,
    os: Os,
    arch: Architecture,
    present: bool,
) -> Seq<ReplyModel> {
    if contents is Ok {
        seq![
            ReplyModel::Contents(contents),
            ReplyModel::Platform(os, arch),
            ReplyModel::Answer(present),
        ]
    } else {
        seq![ReplyModel::Contents(contents)]
    }
}

/// A lookup depends on the version file, on the platform and on whether the binary is where the
/// two say; it asks for these, in this order, and for nothing else.
pub proof fn law_lookup(
    contents: Result<Seq<char>, ReadFailureModel>,
    os: Os,
    arch: Architecture,
    present: bool,
)
    ensures
        ({
            let start = Progress::Ask(LookupModel::ReadingVersion);
            let replies = lookup_replies(contents, os, arch, present);
            let requests = seq![
                RequestModel::ReadFile(VERSION_FILE@),
                RequestModel::CurrentPlatform,
                RequestModel::PathExists(
                    binary_path(version_read(contents)->Ok_0, os),
                ),
            ];
            &&& in_order(start, replies)
            &&& run(start, replies) == Progress::<LookupModel, _>::Done(
                lookup_outcome(contents, os, present),
            )
            &&& asked(start, replies) == requests.take(replies.len() as int)
        }),
{
    reveal_with_fuel(run, 4);
    reveal_with_fuel(asked, 4);
    reveal_with_fuel(in_order, 4);
    let start = Progress::Ask(LookupModel::ReadingVersion);
    let replies = lookup_replies(contents, os, arch, present);
    let requests = seq![
        RequestModel::ReadFile(VERSION_FILE@),
        RequestModel::CurrentPlatform,
        RequestModel::PathExists(binary_path(version_read(contents)->Ok_0, os)),
    ];
    assert(asked(start, replies) =~= requests.take(replies.len() as int));
}

/// A lookup that has ended is one of those that [`law_lookup`] speaks of.
pub proof fn law_lookup_conversations(replies: Seq<ReplyModel>)
    requires
        in_order(Progress::Ask(LookupModel::ReadingVersion), replies),
        run(Progress::Ask(LookupModel::ReadingVersion), replies) is Done,
    ensures
        exists|
            contents: Result<Seq<char>, ReadFailureModel>,
            os: Os,
            arch: Architecture,
            present: bool,
        |
            replies == #[trigger] lookup_replies(contents, os, arch, present),
{
    reveal_with_fuel(run, 4);
    reveal_with_fuel(in_order, 4);
    let contents = replies[0]->Contents_0;
    if contents is Ok {
        let os = replies[1]->Platform_0;
        let arch = replies[1]->Platform_1;
        let present = replies[2]->Answer_0;
        assert(replies =~= lookup_replies(contents, os, arch, present));
    } else {
        assert(replies =~= lookup_replies(contents, Os::Mac, Architecture::X86, false));
    }
}

/// The binary of a version is in the version's directory, under the name that the executable has on
/// the very operating system: `codebook-lsp.exe` on Windows, and `codebook-lsp` elsewhere.
pub proof fn law_binary_path(version: Seq<char>, os: Os)
    ensures
        ({
            let name = match os {
                Os::Windows => "codebook-lsp.exe"@,
                Os::Mac => "codebook-lsp"@,
                Os::Linux => "codebook-lsp"@,
            };
            &&& version.len() == 0 || version[version.len() - 1] != '/' ==> binary_path(version, os)
                == "codebook-lsp-"@ + version + "/"@ + name
            &&& version.len() > 0 && version[version.len() - 1] == '/' ==> binary_path(version, os)
                == "codebook-lsp-"@ + version + name
            &&& final_component(binary_path(version, os)) == Some(name)
        }),
{
    law_binary_file_name();
    law_version_directory(version);
    reveal_strlit("codebook-lsp");
    reveal_strlit("codebook-lsp.exe");
    reveal_strlit("codebook-lsp-");
    reveal_strlit("/");
    reveal_strlit(".");
    reveal_strlit("..");
    let dir = "codebook-lsp-"@ + version;
    let name = binary_file_name(os);
    assert(!name.contains('/'));
    assert(name[0] == 'c');
    if "/"@.is_prefix_of(name) {
        assert(name[0] == name.subrange(0, 1)[0]);
    }
    assert(version.len() > 0 ==> dir[dir.len() - 1] == version[version.len() - 1]);
    assert(version.len() == 0 ==> dir[dir.len() - 1] == '-');
    law_join(dir, name);
    law_final_component(dir, name);
    if dir[dir.len() - 1] == '/' {
        law_final_component(dir.drop_last(), name);
        assert(dir.drop_last() + "/"@ + name =~= dir + name);
    }
}

/// Different operating systems that name their executables differently have different paths for
/// the same version; different versions without `/` have different paths on the same one.
pub proof fn law_binary_path_injective(version1: Seq<char>, version2: Seq<char>, os: Os)
    requires
        !version1.contains('/'),
        !version2.contains('/'),
        version1 != version2,
    ensures
        binary_path(version1, os) != binary_path(version2, os),
        binary_path(version1, Os::Windows) != binary_path(version1, Os::Mac),
        binary_path(version1, Os::Windows) != binary_path(version1, Os::Linux),
{
    assert forall|v: Seq<char>| !v.contains('/') implies v.len() == 0 || v[v.len() - 1]
        != '/' by {
        if v.len() > 0 {
            assert(v.contains(v[v.len() - 1]));
        }
    }
    law_binary_path(version1, os);
    law_binary_path(version2, os);
    law_binary_path(version1, Os::Windows);
    law_binary_path(version1, Os::Mac);
    law_binary_path(version1, Os::Linux);
    reveal_strlit("codebook-lsp");
    reveal_strlit("codebook-lsp.exe");
    reveal_strlit("codebook-lsp-");
    let n = "codebook-lsp-"@.len() as int;
    let p1 = binary_path(version1, os);
    let p2 = binary_path(version2, os);
    if p1 == p2 {
        assert(version1.len() == version2.len());
        assert(p1.subrange(n, n + version1.len()) =~= version1);
        assert(p2.subrange(n, n + version2.len()) =~= version2);
    }
}

/// What a lookup comes to and asks for, for every version file that can be read: the binary of the
/// version that the file names, on the platform that the host names.
pub proof fn law_lookup_finds_recorded_version(
    text: Seq<char>,
    os: Os,
    arch: Architecture,
    present: bool,
)
    ensures
        ({
            let start = Progress::Ask(LookupModel::ReadingVersion);
            let replies = seq![
                ReplyModel::Contents(Ok(text)),
                ReplyModel::Platform(os, arch),
                ReplyModel::Answer(present),
            ];
            let path = binary_path(trimmed(text), os);
            &&& present ==> run(start, replies) == Progress::<LookupModel, _>::Done(
                Ok::<_, Seq<char>>(path),
            )
            &&& !present ==> run(start, replies) == Progress::<LookupModel, _>::Done(
                Err::<Seq<char>, _>("Binary not found at expected path: "@ + path),
            )
            &&& asked(start, replies) == seq![
                RequestModel::ReadFile(".version"@),
                RequestModel::CurrentPlatform,
                RequestModel::PathExists(path),
            ]
        }),
{
    law_lookup(Ok(text), os, arch, present);
    let path = binary_path(trimmed(text), os);
    let requests = seq![
        RequestModel::ReadFile(".version"@),
        RequestModel::CurrentPlatform,
        RequestModel::PathExists(path),
    ];
    assert(requests.take(3) =~= requests);
}

/// Without a version file that can be read, a lookup fails at once, and says why.
pub proof fn law_lookup_without_version(reason: Seq<char>)
    ensures
        run(
            Progress::Ask(LookupModel::ReadingVersion),
            seq![ReplyModel::Contents(Err(ReadFailureModel::NotFound))],
        ) == Progress::<LookupModel, _>::Done(Err::<Seq<char>, _>("no cached binary yet"@)),
        run(
            Progress::Ask(LookupModel::ReadingVersion),
            seq![ReplyModel::Contents(Err(ReadFailureModel::Other(reason)))],
        ) == Progress::<LookupModel, _>::Done(
            Err::<Seq<char>, _>("Failed to read version file: "@ + reason),
        ),
{
    law_lookup(Err(ReadFailureModel::NotFound), Os::Mac, Architecture::X86, false);
    law_lookup(Err(ReadFailureModel::Other(reason)), Os::Mac, Architecture::X86, false);
}

/// A reply of the wrong kind changes nothing.
pub proof fn law_lookup_ignores_stray_replies(lookup: LookupModel, reply: ReplyModel)
    requires
        lookup is ReadingVersion ==> reply !is Contents,
        lookup is Naming ==> reply !is Platform,
        lookup is Probing ==> reply !is Answer,
    ensures
        lookup.step(reply) == Progress::<_, Result<Seq<char>, Seq<char>>>::Ask(lookup),
{
}

} // verus!

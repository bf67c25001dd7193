# codebook_zed

The decision logic of the Zed extension that runs the Codebook language server, verified with
Verus.

The library performs no I/O. What the host has to do is a `Request`, what it says to that is a
`Reply`, and the decisions in between are machines (`host.rs`) that wait for one reply at a time.
`CodebookExtension::language_server_command` begins the outermost of them; `app/` carries its
requests out.

| module        | decides                                                              |
|---------------|----------------------------------------------------------------------|
| `command`     | the command that starts the server                                   |
| `search`      | which binary to run: development, `PATH`, last found, latest release |
| `latest`      | whether to install an update or to load what is installed            |
| `update`      | whether there is an update, asking GitHub up to three times          |
| `install`     | how a release is installed, and what the editor is told of failures  |
| `download`    | how a binary is downloaded                                           |
| `cleanup`     | which old versions are removed                                       |
| `existing`    | where the installed binary is                                        |
| `extension`   | what follows from a single reply                                     |
| `bounds`      | how long a conversation can last                                     |

Each machine has a model, over which its contract and the laws (`law_*`) are stated. Paths are
text with `/` as their separator, as an extension, being a WASI component, sees them. The one fact
about the standard library that is taken on trust is what `str::trim` returns (`text.rs`).

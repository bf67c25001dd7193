use std::path::Path;

use codebook_zed::extension::CodebookExtension;
use codebook_zed::host::ReadFailure;
use codebook_zed::path::{file_name, join};
use codebook_zed::text::starts_with;

fn read(contents: &str) -> Result<String, String> {
    CodebookExtension::new().read_version_file(Ok(contents.to_string()))
}

#[test]
fn version_file_is_trimmed() {
    assert_eq!(read("0.3.39\n"), Ok("0.3.39".to_string()));
    assert_eq!(read(" \t0.3.39\r\n\n"), Ok("0.3.39".to_string()));
    assert_eq!(read("\u{3000}v1 beta\u{a0}"), Ok("v1 beta".to_string()));
    assert_eq!(read("1.2.3"), Ok("1.2.3".to_string()));
    assert_eq!(read(" \n "), Ok(String::new()));
    assert_eq!(read(""), Ok(String::new()));
}

#[test]
fn white_space_is_the_unicode_property() {
    let mut found: Vec<u32> = Vec::new();
    for code in 0..=0x10ffff {
        if let Some(c) = char::from_u32(code) {
            let text = format!("{c}x{c}");
            let version = read(&text).unwrap();
            if version == "x" {
                found.push(code);
            } else {
                assert_eq!(version, text);
            }
        }
    }
    let mut expected: Vec<u32> = (0x9..=0xd).collect();
    expected.extend([0x20, 0x85, 0xa0, 0x1680]);
    expected.extend(0x2000..=0x200a);
    expected.extend([0x2028, 0x2029, 0x202f, 0x205f, 0x3000]);
    assert_eq!(found, expected);
}

#[test]
fn trimming_twice_is_trimming_once() {
    for text in ["", " ", " a ", "a b", "\u{2003}x\u{85}"] {
        let once = read(text).unwrap();
        assert_eq!(read(&once), Ok(once.clone()));
    }
}

#[test]
fn version_file_errors() {
    let extension = CodebookExtension::new();
    assert_eq!(
        extension.read_version_file(Err(ReadFailure::NotFound)),
        Err("no cached binary yet".to_string())
    );
    assert_eq!(
        extension.read_version_file(Err(ReadFailure::Other("Permission denied".to_string()))),
        Err("Failed to read version file: Permission denied".to_string())
    );
    assert_eq!(extension.write_version_file(Ok(())), Ok(()));
    assert_eq!(
        extension.write_version_file(Err("disk full".to_string())),
        Err("Failed to write version file: disk full".to_string())
    );
}

#[test]
fn prefixes() {
    assert!(starts_with("codebook-lsp-1.0", "codebook-lsp-"));
    assert!(starts_with("codebook-lsp-", "codebook-lsp-"));
    assert!(starts_with("", ""));
    assert!(!starts_with("codebook-lsp", "codebook-lsp-"));
    assert!(!starts_with("codebook-ls\u{e9}-1", "codebook-lsp-"));
    assert!(starts_with("\u{e9}t\u{e9}", "\u{e9}t"));
}

#[test]
fn joining_paths() {
    assert_eq!(
        join("codebook-lsp-1.2.3", "codebook-lsp"),
        "codebook-lsp-1.2.3/codebook-lsp"
    );
    assert_eq!(join("a/", "b"), "a/b");
    assert_eq!(join("", "b"), "b");
    assert_eq!(join("a", "/b"), "/b");
    assert_eq!(join("a", ""), "a/");
    assert_eq!(join(".", "codebook-lsp-1"), "./codebook-lsp-1");
}

#[test]
fn paths_agree_with_std() {
    let pieces = ["", "/", ".", "..", "a", "b/", "/c", "./", "../", "d/.", "e/..", "//", "f.g", "\u{e9}"];
    for first in pieces {
        for second in pieces {
            assert_eq!(
                join(first, second),
                Path::new(first).join(second).to_str().unwrap()
            );
            for third in pieces {
                let path = format!("{first}{second}{third}");
                assert_eq!(
                    file_name(&path).as_deref(),
                    Path::new(&path).file_name().and_then(|name| name.to_str()),
                    "{path}"
                );
            }
        }
    }
}

#[test]
fn final_components() {
    assert_eq!(file_name("codebook-lsp-1.2.3").as_deref(), Some("codebook-lsp-1.2.3"));
    assert_eq!(file_name("codebook-lsp-a/b").as_deref(), Some("b"));
    assert_eq!(file_name("codebook-lsp-a/./"), Some("codebook-lsp-a".to_string()));
    assert_eq!(file_name("codebook-lsp-a/.."), None);
    assert_eq!(file_name("/"), None);
    assert_eq!(file_name(""), None);
}

use std::path::Path;

use zotero::paths::{path_extension, path_file_name, path_parent};

const SAMPLES: &[&str] = &[
    "", "/", "//", ".", "./", "..", "../", "a", "a/", "a//", "/a", "//a", "/a/", "a/b", "a//b", "a/./b", "a/b/.",
    "/tmp/out/.", "/tmp/out/./", "./a", "./a/", "././a", "a/..", "/..", "a/../b", ".hidden", "/x/.hidden",
    "dir/file.pdf", "dir/archive.tar.gz", "name.", "/tmp/out", "/tmp//out//", "a/./.", ".//a", "..a", "a..",
];

#[test]
fn file_names_follow_std_paths() {
    for s in SAMPLES {
        let expected = Path::new(s).file_name().map(|n| n.to_str().unwrap().to_owned());
        assert_eq!(path_file_name(s), expected, "file name of {s:?}");
    }
}

#[test]
fn parents_follow_std_paths() {
    for s in SAMPLES {
        let expected = Path::new(s).parent().map(|p| p.to_str().unwrap().to_owned());
        assert_eq!(path_parent(s), expected, "parent of {s:?}");
    }
}

#[test]
fn extensions_follow_std_paths() {
    for s in SAMPLES {
        let expected = Path::new(s).extension().map(|e| e.to_str().unwrap().to_owned());
        assert_eq!(path_extension(s), expected, "extension of {s:?}");
    }
}

#[test]
fn output_directories_are_normalised_like_std() {
    assert_eq!(path_file_name("/tmp/out/."), Some("out".to_owned()));
    assert_eq!(path_parent("/tmp/out/."), Some("/tmp".to_owned()));
    assert_eq!(path_parent("a//b"), Some("a".to_owned()));
}

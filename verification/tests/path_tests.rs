use asset_overlay::path::{file_name, strip_prefix};
use std::path::Path;

fn std_file_name(path: &str) -> Option<Vec<u8>> {
    Path::new(path).file_name().map(|name| name.to_str().unwrap().as_bytes().to_vec())
}

fn std_strip_prefix(path: &str, base: &str) -> Option<Vec<u8>> {
    Path::new(path).strip_prefix(base).ok().map(|rest| rest.to_str().unwrap().as_bytes().to_vec())
}

const SAMPLES: [&str; 40] = [
    "",
    ".",
    "..",
    "...",
    "/",
    "//",
    "./",
    "./.",
    "../",
    "a",
    "a/",
    "a//",
    "a/.",
    "a/./",
    "a/..",
    "/a",
    "//a",
    "./a",
    ".//a",
    "../a",
    "a/b",
    "a//b",
    "a/./b",
    "a/b/.",
    "a/b/..",
    ".a",
    "a.",
    "a/.b",
    "a/b.",
    "assets",
    "assets/",
    "assets/renderer",
    "assets/renderer/",
    "assets//renderer//materials/./UIText.material.bin",
    "assets/./gui/dist/hbui/index.html",
    "/assets/renderer/x",
    "./assets/renderer/x",
    "assetsx/renderer/x",
    "renderer/materials/RenderChunk.material.bin",
    "gui/dist/hbui/../x",
];

const BASES: [&str; 14] = [
    "",
    ".",
    "./",
    "/",
    "a",
    "a/",
    "a/b",
    "./a",
    "/a",
    "..",
    "assets/",
    "renderer/",
    "gui/dist/hbui/",
    "assets/renderer",
];

#[test]
fn file_name_agrees_with_std() {
    for sample in SAMPLES {
        let ours = file_name(sample.as_bytes()).map(|name| name.to_vec());
        assert_eq!(ours, std_file_name(sample), "file name of {:?}", sample);
    }
}

#[test]
fn strip_prefix_agrees_with_std() {
    for sample in SAMPLES {
        for base in BASES {
            let ours = strip_prefix(sample.as_bytes(), base.as_bytes()).map(|rest| rest.to_vec());
            assert_eq!(ours, std_strip_prefix(sample, base), "{:?} without {:?}", sample, base);
        }
    }
}

#[test]
fn strip_prefix_of_every_sample_as_base() {
    for sample in SAMPLES {
        for base in SAMPLES {
            let ours = strip_prefix(sample.as_bytes(), base.as_bytes()).map(|rest| rest.to_vec());
            assert_eq!(ours, std_strip_prefix(sample, base), "{:?} without {:?}", sample, base);
        }
    }
}

/// Every string over `a`, `b`, `.` and `/` of at most `longest` bytes.
fn small_paths(longest: usize) -> Vec<String> {
    let mut all = vec![String::new()];
    let mut last = vec![String::new()];
    for _ in 0..longest {
        let mut next = Vec::new();
        for shorter in &last {
            for letter in ["a", "b", ".", "/"] {
                next.push(format!("{}{}", shorter, letter));
            }
        }
        all.extend(next.iter().cloned());
        last = next;
    }
    all
}

#[test]
fn file_name_agrees_with_std_on_every_small_path() {
    for sample in small_paths(7) {
        let ours = file_name(sample.as_bytes()).map(|name| name.to_vec());
        assert_eq!(ours, std_file_name(&sample), "file name of {:?}", sample);
    }
}

#[test]
fn strip_prefix_agrees_with_std_on_every_small_path() {
    let paths = small_paths(5);
    let bases = small_paths(4);
    for sample in &paths {
        for base in &bases {
            let ours = strip_prefix(sample.as_bytes(), base.as_bytes()).map(|rest| rest.to_vec());
            assert_eq!(ours, std_strip_prefix(sample, base), "{:?} without {:?}", sample, base);
        }
    }
}

#[test]
fn file_name_examples() {
    assert_eq!(file_name(b"assets/texts/splashes.json"), Some(&b"splashes.json"[..]));
    assert_eq!(file_name(b"splashes.json"), Some(&b"splashes.json"[..]));
    assert_eq!(file_name(b"dir/"), Some(&b"dir"[..]));
    assert_eq!(file_name(b"dir/."), Some(&b"dir"[..]));
    assert_eq!(file_name(b"dir/.//"), Some(&b"dir"[..]));
    assert_eq!(file_name(b"dir/.hidden"), Some(&b".hidden"[..]));
    assert_eq!(file_name(b"dir/..."), Some(&b"..."[..]));
    assert_eq!(file_name(b"dir/.."), None);
    assert_eq!(file_name(b"/"), None);
    assert_eq!(file_name(b""), None);
    assert_eq!(file_name(b"."), None);
    assert_eq!(file_name(b"\xff/\xfe"), Some(&b"\xfe"[..]));
}

#[test]
fn strip_prefix_examples() {
    assert_eq!(strip_prefix(b"assets/a/b", b"assets/"), Some(&b"a/b"[..]));
    assert_eq!(strip_prefix(b"assets/a/b", b"assets"), Some(&b"a/b"[..]));
    assert_eq!(strip_prefix(b"assets//a/b/", b"assets/"), Some(&b"a/b"[..]));
    assert_eq!(strip_prefix(b"assets/a/./b", b"assets/a"), Some(&b"b"[..]));
    assert_eq!(strip_prefix(b"assets/a/../b", b"assets/a"), Some(&b"../b"[..]));
    assert_eq!(strip_prefix(b"assets", b"assets/"), Some(&b""[..]));
    assert_eq!(strip_prefix(b"assets/a", b""), Some(&b"assets/a"[..]));
    assert_eq!(strip_prefix(b"assets/a/", b""), Some(&b"assets/a"[..]));
    assert_eq!(strip_prefix(b"assetsa/b", b"assets"), None);
    assert_eq!(strip_prefix(b"a/assets/b", b"assets"), None);
    assert_eq!(strip_prefix(b"/assets/b", b"assets"), None);
    assert_eq!(strip_prefix(b"./assets/b", b"assets"), None);
    assert_eq!(strip_prefix(b"assets/b", b"/assets"), None);
    assert_eq!(strip_prefix(b"/assets/b", b"/assets"), Some(&b"b"[..]));
    assert_eq!(strip_prefix(b"", b"assets"), None);
    assert_eq!(strip_prefix(b"", b""), Some(&b""[..]));
}

use media_import::path::{extension_of, file_name_of, join, stored_name_of, stored_path_of};

fn name(path: &str) -> Option<String> {
    file_name_of(path)
}

fn ext(path: &str) -> Option<String> {
    extension_of(path)
}

#[test]
fn file_name_is_the_last_component() {
    assert_eq!(name("/media/card/DCIM/IMG_1.JPG"), Some("IMG_1.JPG".to_string()));
    assert_eq!(name("IMG_1.JPG"), Some("IMG_1.JPG".to_string()));
    assert_eq!(name("a/b"), Some("b".to_string()));
    assert_eq!(name("a/../b"), Some("b".to_string()));
}

#[test]
fn file_name_passes_over_trailing_separators_and_dots() {
    assert_eq!(name("a/b/"), Some("b".to_string()));
    assert_eq!(name("a/b//"), Some("b".to_string()));
    assert_eq!(name("a/b/."), Some("b".to_string()));
    assert_eq!(name("a/./"), Some("a".to_string()));
    assert_eq!(name("./a"), Some("a".to_string()));
}

#[test]
fn file_name_of_nothing() {
    assert_eq!(name(""), None);
    assert_eq!(name("/"), None);
    assert_eq!(name("."), None);
    assert_eq!(name("./"), None);
    assert_eq!(name("/."), None);
    assert_eq!(name(".."), None);
    assert_eq!(name("a/.."), None);
    assert_eq!(name("a/../"), None);
}

#[test]
fn file_name_agrees_with_std_on_these() {
    let samples = [
        "", "/", ".", "..", "a", "a/", "a//", "a/.", "a/..", "/a/b.c", "./x", "x/./y/", "..a",
        "a..", "/.hidden", "dir.d/file", "a/b/../c.tar.gz", "...", "a/...", ".a.", "//", "/./.",
    ];
    for s in samples {
        let expected = std::path::Path::new(s).file_name().map(|n| n.to_str().unwrap().to_string());
        assert_eq!(name(s), expected, "file name of {:?}", s);
        let expected =
            std::path::Path::new(s).extension().map(|n| n.to_str().unwrap().to_string());
        assert_eq!(ext(s), expected, "extension of {:?}", s);
    }
}

#[test]
fn extension_follows_the_last_dot() {
    assert_eq!(ext("clip.MP4"), Some("MP4".to_string()));
    assert_eq!(ext("archive.tar.gz"), Some("gz".to_string()));
    assert_eq!(ext("/a.b/c"), None);
    assert_eq!(ext("noext"), None);
    assert_eq!(ext(".hidden"), None);
    assert_eq!(ext(".hidden.txt"), Some("txt".to_string()));
    assert_eq!(ext("trailing."), Some("".to_string()));
    assert_eq!(ext("dir/photo.jpg/"), Some("jpg".to_string()));
}

#[test]
fn stored_name_falls_back_to_unknown() {
    assert_eq!(stored_name_of("/src/a/photo.jpg"), "photo.jpg");
    assert_eq!(stored_name_of("/"), "unknown");
    assert_eq!(stored_name_of(".."), "unknown");
    assert_eq!(stored_name_of(""), "unknown");
}

#[test]
fn join_puts_one_separator_between() {
    assert_eq!(join("/dest", "a.jpg"), "/dest/a.jpg");
    assert_eq!(join("/dest/", "a.jpg"), "/dest/a.jpg");
    assert_eq!(join("", "a.jpg"), "a.jpg");
    assert_eq!(join("/", "a.jpg"), "/a.jpg");
    assert_eq!(join("rel/dir", "a"), "rel/dir/a");
    assert_eq!(join("/dest", ""), "/dest/");
    assert_eq!(join("/dest", "/abs/a.jpg"), "/abs/a.jpg");
}

#[test]
fn join_agrees_with_std_on_these() {
    let directories = ["", "/", "/dest", "/dest/", "a/b", "a//", ".", "é"];
    let names = ["a.jpg", "unknown", "", "x/y", "/abs", ".."];
    for d in directories {
        for n in names {
            let expected = std::path::Path::new(d).join(n).to_str().unwrap().to_string();
            assert_eq!(join(d, n), expected, "{:?} joined with {:?}", d, n);
        }
    }
}

#[test]
fn stored_path_flattens_the_source_directories() {
    assert_eq!(stored_path_of("/dest", "/card/DCIM/100/IMG_1.JPG"), "/dest/IMG_1.JPG");
    assert_eq!(stored_path_of("/dest", "/other/IMG_1.JPG"), "/dest/IMG_1.JPG");
    assert_eq!(stored_path_of("/dest/", ".."), "/dest/unknown");
}

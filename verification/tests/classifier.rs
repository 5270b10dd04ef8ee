use media_import::media::{
    classify, is_media_file, kind_for_extension, lowercase_extension_of, mime_for_extension,
    mime_type, MediaKind,
};

#[test]
fn images_are_recognised() {
    for name in ["a.jpg", "a.jpeg", "a.png", "a.heic", "a.gif"] {
        assert_eq!(classify(name).1, MediaKind::Image, "{}", name);
        assert!(is_media_file(name));
    }
}

#[test]
fn videos_are_recognised() {
    for name in ["a.mp4", "a.mov", "a.avi", "a.mkv"] {
        assert_eq!(classify(name).1, MediaKind::Video, "{}", name);
        assert!(is_media_file(name));
    }
}

#[test]
fn audio_is_listed_but_of_kind_other() {
    for name in ["a.mp3", "a.wav"] {
        assert_eq!(classify(name).1, MediaKind::Other, "{}", name);
        assert!(is_media_file(name));
    }
}

#[test]
fn anything_else_is_other_and_not_listed() {
    for name in ["a.txt", "a", "a.", ".jpg", "jpg", "a.jpg.bak", "", "a.webp"] {
        assert_eq!(classify(name).1, MediaKind::Other, "{}", name);
        assert!(!is_media_file(name), "{}", name);
    }
}

#[test]
fn classification_ignores_case() {
    assert_eq!(classify("IMG_0001.JPG"), (Some("jpg".to_string()), MediaKind::Image));
    assert_eq!(classify("Clip.MoV"), (Some("mov".to_string()), MediaKind::Video));
    assert_eq!(classify("/card/DCIM/x.HEIC").1, MediaKind::Image);
    assert_eq!(mime_type("IMG_0001.JPG"), "image/jpeg");
    assert_eq!(mime_type("img_0001.jpg"), "image/jpeg");
    assert!(is_media_file("SONG.MP3"));
    assert_eq!(lowercase_extension_of("a.TXT"), Some("txt".to_string()));
    assert_eq!(lowercase_extension_of("a"), None);
}

#[test]
fn mime_types_by_extension() {
    let table = [
        ("a.jpg", "image/jpeg"),
        ("a.jpeg", "image/jpeg"),
        ("a.png", "image/png"),
        ("a.gif", "image/gif"),
        ("a.heic", "image/heic"),
        ("a.mp4", "video/mp4"),
        ("a.mov", "video/quicktime"),
        ("a.avi", "video/x-msvideo"),
        ("a.mkv", "video/x-matroska"),
        ("a.mp3", "application/octet-stream"),
        ("a.txt", "application/octet-stream"),
        ("a", "application/octet-stream"),
    ];
    for (name, mime) in table {
        assert_eq!(mime_type(name), mime, "{}", name);
    }
}

#[test]
fn kind_and_mime_of_an_extension() {
    assert_eq!(kind_for_extension(&Some("png".to_string())), MediaKind::Image);
    assert_eq!(kind_for_extension(&Some("PNG".to_string())), MediaKind::Other);
    assert_eq!(kind_for_extension(&None), MediaKind::Other);
    assert_eq!(mime_for_extension(&Some("mkv".to_string())), "video/x-matroska");
    assert_eq!(mime_for_extension(&None), "application/octet-stream");
}

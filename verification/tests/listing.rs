use media_import::listing::{
    list_media, list_media_files, media_entry, FoundFile, ListingError, MediaEntry,
};
use media_import::media::MediaKind;

fn found(path: &str, size: u64, modified: u64) -> FoundFile {
    FoundFile { path: path.to_string(), size, modified }
}

#[test]
fn entry_of_a_media_file() {
    let entry = media_entry(&found("/card/DCIM/IMG_7.JPG", 1234, 99)).unwrap();
    assert_eq!(
        entry,
        MediaEntry {
            name: "IMG_7.JPG".to_string(),
            path: "/card/DCIM/IMG_7.JPG".to_string(),
            size: 1234,
            modified: 99,
            extension: "jpg".to_string(),
            kind: MediaKind::Image,
        }
    );
    let entry = media_entry(&found("/card/a.mkv", 1, 2)).unwrap();
    assert_eq!(entry.kind, MediaKind::Video);
    let entry = media_entry(&found("/card/a.wav", 1, 2)).unwrap();
    assert_eq!(entry.kind, MediaKind::Other);
    assert_eq!(entry.extension, "wav");
}

#[test]
fn files_that_are_not_media_have_no_entry() {
    assert_eq!(media_entry(&found("/card/readme.txt", 1, 2)), None);
    assert_eq!(media_entry(&found("/card/noextension", 1, 2)), None);
    assert_eq!(media_entry(&found("/card/.jpg", 1, 2)), None);
    assert_eq!(media_entry(&found("", 1, 2)), None);
}

#[test]
fn listing_is_newest_first_and_stable() {
    let files = vec![
        found("/c/a.jpg", 1, 100),
        found("/c/b.txt", 2, 500),
        found("/c/c.mp4", 3, 300),
        found("/c/d.png", 4, 100),
        found("/c/e.mp3", 5, 300),
        found("/c/f.gif", 6, 0),
        found("/c/g.heic", 7, 900),
    ];
    let listed = list_media(&files);
    let names: Vec<&str> = listed.iter().map(|e| e.name.as_str()).collect();
    assert_eq!(names, vec!["g.heic", "c.mp4", "e.mp3", "a.jpg", "d.png", "f.gif"]);
    let sizes: Vec<u64> = listed.iter().map(|e| e.size).collect();
    assert_eq!(sizes, vec![7, 3, 5, 1, 4, 6]);
}

#[test]
fn listing_agrees_with_a_stable_sort() {
    let mut files = Vec::new();
    let mut seed: u64 = 12345;
    for i in 0..200 {
        seed = seed.wrapping_mul(6364136223846793005).wrapping_add(1442695040888963407);
        files.push(found(&format!("/c/f{}.jpg", i), i, (seed >> 33) % 7));
    }
    let listed = list_media(&files);
    let mut expected: Vec<(u64, u64)> = files.iter().map(|f| (f.modified, f.size)).collect();
    expected.sort_by(|a, b| b.0.cmp(&a.0));
    let got: Vec<(u64, u64)> = listed.iter().map(|e| (e.modified, e.size)).collect();
    assert_eq!(got, expected);
}

#[test]
fn listing_of_nothing() {
    assert_eq!(list_media(&vec![]), vec![]);
    assert_eq!(list_media(&vec![found("/c/a.txt", 1, 1)]), vec![]);
}

#[test]
fn drive_that_does_not_exist_is_an_error() {
    let files = vec![found("/c/a.jpg", 1, 100)];
    assert_eq!(list_media_files(false, &files), Err(ListingError::DriveMissing));
    assert_eq!(ListingError::DriveMissing.message(), "Drive path does not exist");
    let listed = list_media_files(true, &files).unwrap();
    assert_eq!(listed.len(), 1);
    assert_eq!(listed[0].name, "a.jpg");
}

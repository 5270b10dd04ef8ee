//! Classification of files by extension: kind and MIME type.

use vstd::prelude::*;
use crate::path::{extension, extension_of, text_of};
use crate::text::{lowercase, same_text, to_lowercase};

verus! {

/// What a file is taken for when a preview of it is made.
#[derive(Clone, Copy, Debug, PartialEq, Eq, Structural)]
pub enum MediaKind {
    Image,
    Video,
    Other,
}

pub open spec fn is_image_extension(e: Seq<char>) -> bool {
    e == "jpg"@ || e == "jpeg"@ || e == "png"@ || e == "heic"@ || e == "gif"@
}

pub open spec fn is_video_extension(e: Seq<char>) -> bool {
    e == "mp4"@ || e == "mov"@ || e == "avi"@ || e == "mkv"@
}

pub open spec fn is_audio_extension(e: Seq<char>) -> bool {
    e == "mp3"@ || e == "wav"@
}

/// The extensions that a media listing shows: images, videos and audio.
pub open spec fn is_media_extension(e: Seq<char>) -> bool {
    is_image_extension(e) || is_video_extension(e) || is_audio_extension(e)
}

/// The extension of a file name in lower case.
pub open spec fn lowercase_extension(name: Seq<char>) -> Option<Seq<char>> {
    match extension(name) {
        Some(e) => Some(lowercase(e)),
        None => None,
    }
}

/// The kind that goes with a lower-case extension.
pub open spec fn kind_of_extension(e: Option<Seq<char>>) -> MediaKind {
    match e {
        Some(e) => if is_image_extension(e) {
            MediaKind::Image
        } else if is_video_extension(e) {
            MediaKind::Video
        } else {
            MediaKind::Other
        },
        None => MediaKind::Other,
    }
}

/// The kind of a file, by its name.
pub open spec fn kind_of(name: Seq<char>) -> MediaKind {
    kind_of_extension(lowercase_extension(name))
}

/// Whether a media listing shows the file of this name.
pub open spec fn is_media(name: Seq<char>) -> bool {
    lowercase_extension(name) matches Some(e) && is_media_extension(e)
}

/// The MIME type that goes with a lower-case extension.
pub open spec fn mime_of_extension(e: Option<Seq<char>>) -> Seq<char> {
    match e {
        Some(e) => if e == "jpg"@ || e == "jpeg"@ {
            "image/jpeg"@
        } else if e == "png"@ {
            "image/png"@
        } else if e == "gif"@ {
            "image/gif"@
        } else if e == "heic"@ {
            "image/heic"@
        } else if e == "mp4"@ {
            "video/mp4"@
        } else if e == "mov"@ {
            "video/quicktime"@
        } else if e == "avi"@ {
            "video/x-msvideo"@
        } else if e == "mkv"@ {
            "video/x-matroska"@
        } else {
            "application/octet-stream"@
        },
        None => "application/octet-stream"@,
    }
}

/// The MIME type of a file, by its name.
pub open spec fn mime_of(name: Seq<char>) -> Seq<char> {
    mime_of_extension(lowercase_extension(name))
}

/// Classification ignores the case of the extension: two names whose
/// extensions differ in case alone have the same kind and MIME type, and
/// both are listed as media or neither is.
pub proof fn lemma_classification_ignores_case(a: Seq<char>, b: Seq<char>)
    requires
        extension(a) is Some,
        extension(b) is Some,
        lowercase(extension(a).unwrap()) == lowercase(extension(b).unwrap()),
    ensures
        kind_of(a) == kind_of(b),
        mime_of(a) == mime_of(b),
        is_media(a) == is_media(b),
{
}

/// A name without an extension is of kind `Other`, is not listed as media,
/// and has the MIME type of arbitrary bytes.
pub proof fn lemma_no_extension_is_other(name: Seq<char>)
    requires
        extension(name) is None,
    ensures
        kind_of(name) == MediaKind::Other,
        !is_media(name),
        mime_of(name) == "application/octet-stream"@,
{
}

/// No extension is both an image's and a video's, and audio extensions are
/// neither: what is listed as audio is of kind `Other`.
pub proof fn lemma_extension_sets_are_disjoint(e: Seq<char>)
    ensures
        !(is_image_extension(e) && is_video_extension(e)),
        is_audio_extension(e) ==> !is_image_extension(e) && !is_video_extension(e),
{
    reveal_strlit("jpg");
    reveal_strlit("jpeg");
    reveal_strlit("png");
    reveal_strlit("heic");
    reveal_strlit("gif");
    reveal_strlit("mp4");
    reveal_strlit("mov");
    reveal_strlit("avi");
    reveal_strlit("mkv");
    reveal_strlit("mp3");
    reveal_strlit("wav");
    assert("jpg"@[0] == 'j' && "jpeg"@[0] == 'j' && "png"@[0] == 'p');
    assert("heic"@[0] == 'h' && "gif"@[0] == 'g');
    assert("mp4"@[0] == 'm' && "mov"@[0] == 'm' && "avi"@[0] == 'a' && "mkv"@[0] == 'm');
    assert("mp3"@[0] == 'm' && "wav"@[0] == 'w');
    assert("mp3"@[2] == '3' && "mp4"@[2] == '4' && "mov"@[2] == 'v' && "mkv"@[2] == 'v');
}

fn is_image_ext(e: &str) -> (r: bool)
    ensures
        r == is_image_extension(e@),
{
    same_text(e, "jpg") || same_text(e, "jpeg") || same_text(e, "png") || same_text(e, "heic")
        || same_text(e, "gif")
}

fn is_video_ext(e: &str) -> (r: bool)
    ensures
        r == is_video_extension(e@),
{
    same_text(e, "mp4") || same_text(e, "mov") || same_text(e, "avi") || same_text(e, "mkv")
}

fn is_audio_ext(e: &str) -> (r: bool)
    ensures
        r == is_audio_extension(e@),
{
    same_text(e, "mp3") || same_text(e, "wav")
}

/// The extension of `name` in lower case.
pub fn lowercase_extension_of(name: &str) -> (r: Option<String>)
    ensures
        text_of(r) == lowercase_extension(name@),
{
    match extension_of(name) {
        Some(e) => Some(to_lowercase(e.as_str())),
        None => None,
    }
}

/// The kind that goes with a lower-case extension.
pub fn kind_for_extension(e: &Option<String>) -> (r: MediaKind)
    ensures
        r == kind_of_extension(text_of(*e)),
{
    match e {
        Some(e) => {
            if is_image_ext(e.as_str()) {
                MediaKind::Image
            } else if is_video_ext(e.as_str()) {
                MediaKind::Video
            } else {
                MediaKind::Other
            }
        },
        None => MediaKind::Other,
    }
}

/// The MIME type that goes with a lower-case extension.
pub fn mime_for_extension(e: &Option<String>) -> (r: &'static str)
    ensures
        r@ == mime_of_extension(text_of(*e)),
{
    match e {
        Some(e) => {
            let e = e.as_str();
            if same_text(e, "jpg") || same_text(e, "jpeg") {
                "image/jpeg"
            } else if same_text(e, "png") {
                "image/png"
            } else if same_text(e, "gif") {
                "image/gif"
            } else if same_text(e, "heic") {
                "image/heic"
            } else if same_text(e, "mp4") {
                "video/mp4"
            } else if same_text(e, "mov") {
                "video/quicktime"
            } else if same_text(e, "avi") {
                "video/x-msvideo"
            } else if same_text(e, "mkv") {
                "video/x-matroska"
            } else {
                "application/octet-stream"
            }
        },
        None => "application/octet-stream",
    }
}

/// The lower-case extension of a file name and the kind of the file.
pub fn classify(name: &str) -> (r: (Option<String>, MediaKind))
    ensures
        text_of(r.0) == lowercase_extension(name@),
        r.1 == kind_of(name@),
{
    let e = lowercase_extension_of(name);
    let kind = kind_for_extension(&e);
    (e, kind)
}

/// The MIME type of the file of this name.
pub fn mime_type(name: &str) -> (r: &'static str)
    ensures
        r@ == mime_of(name@),
{
    let e = lowercase_extension_of(name);
    mime_for_extension(&e)
}

/// Whether a media listing shows the file of this name.
pub fn is_media_file(name: &str) -> (r: bool)
    ensures
        r == is_media(name@),
{
    match lowercase_extension_of(name) {
        Some(e) => is_image_ext(e.as_str()) || is_video_ext(e.as_str()) || is_audio_ext(
            e.as_str(),
        ),
        None => false,
    }
}

} // verus!

//! The destination directory: where to look in it for files that are there
//! already, and the setting that remembers where it is.

use vstd::prelude::*;
use crate::path::{stored_path, stored_path_of};
use crate::text::texts;

verus! {

/// The member `key` of the JSON document that `text` holds, as
/// `serde_json` reads it: the text of the member where the document is an
/// object that has the member and the member is a string, `None` where it
/// is anything else, or the words of the parser's error where `text` holds
/// no document.
pub uninterp spec fn json_member_text(text: Seq<char>, key: Seq<char>) -> Result<
    Option<Seq<char>>,
    Seq<char>,
>;

/// The view of a member read from a document.
pub open spec fn member_view(r: Result<Option<String>, String>) -> Result<
    Option<Seq<char>>,
    Seq<char>,
> {
    match r {
        Ok(Some(member)) => Ok(Some(member@)),
        Ok(None) => Ok(None),
        Err(text) => Err(text@),
    }
}

/// `serde_json::from_str` for a `serde_json::Value`, and of the document
/// the member `key` as text: indexing by the key gives null where there is
/// no such member, and `serde_json::Value::as_str` gives the text of a
/// string and nothing for any other value. An error comes as it displays.
#[verifier::external_body]
fn member_of_json(text: &str, key: &str) -> (r: Result<Option<String>, String>)
    ensures
        member_view(r) == json_member_text(text@, key@),
{
    match serde_json::from_str::<serde_json::Value>(text) {
        Ok(document) => Ok(document[key].as_str().map(|member| member.to_string())),
        Err(error) => Err(error.to_string()),
    }
}

/// The paths under which `destination` stores the files at `paths`.
pub open spec fn stored_paths(paths: Seq<Seq<char>>, destination: Seq<char>) -> Seq<Seq<char>> {
    Seq::new(paths.len(), |i: int| stored_path(destination, paths[i]))
}

/// The paths under which `destination` stores the files at `paths`: the
/// places to look at to learn which of the files are there already.
pub fn target_paths(paths: &Vec<String>, destination: &str) -> (r: Vec<String>)
    ensures
        texts(r@) == stored_paths(texts(paths@), destination@),
{
    let mut out: Vec<String> = Vec::new();
    let n: usize = paths.len();
    let mut i: usize = 0;
    while i < n
        invariant
            i <= n,
            n == paths@.len(),
            out@.len() == i,
            forall|j: int| 0 <= j < i ==> out@[j]@ == stored_path(destination@, paths@[j]@),
        decreases n - i,
    {
        out.push(stored_path_of(destination, paths[i].as_str()));
        i += 1;
    }
    assert(texts(out@) =~= stored_paths(texts(paths@), destination@));
    out
}

/// The name of the file that holds the settings.
pub const SETTINGS_FILE: &'static str = "config.json";

/// The member of the settings that holds the path of the destination.
pub const DESTINATION_KEY: &'static str = "destination_path";

/// The destination that a member of the settings stands for: its text, or
/// the empty path where there is no such text.
pub open spec fn destination_of(member: Option<Seq<char>>) -> Seq<char> {
    match member {
        Some(path) => path,
        None => Seq::empty(),
    }
}

/// The destination that a member of the settings stands for.
pub fn destination_from_member(member: Option<String>) -> (r: String)
    ensures
        r@ == destination_of(
            match member {
                Some(path) => Some(path@),
                None => None,
            },
        ),
{
    match member {
        Some(path) => path,
        None => String::new(),
    }
}

/// The destination that the settings hold, given the text of the settings
/// file, or `None` where there is no such file. Without the file the
/// destination is the empty path. Settings that are not JSON are an error,
/// told in the parser's words; in settings that are, a destination that is
/// missing or is no text is the empty path.
pub open spec fn destination_in(settings: Option<Seq<char>>) -> Result<Seq<char>, Seq<char>> {
    match settings {
        None => Ok(Seq::empty()),
        Some(text) => match json_member_text(text, DESTINATION_KEY@) {
            Ok(member) => Ok(destination_of(member)),
            Err(error) => Err(error),
        },
    }
}

/// The destination that the settings hold, given the text of the settings
/// file, or `None` where there is no such file.
pub fn destination_from_settings(settings: Option<&str>) -> (r: Result<String, String>)
    ensures
        match r {
            Ok(path) => Ok::<Seq<char>, Seq<char>>(path@),
            Err(error) => Err(error@),
        } == destination_in(
            match settings {
                Some(text) => Some(text@),
                None => None,
            },
        ),
{
    match settings {
        None => Ok(String::new()),
        Some(text) => match member_of_json(text, DESTINATION_KEY) {
            Ok(member) => Ok(destination_from_member(member)),
            Err(error) => Err(error),
        },
    }
}

} // verus!

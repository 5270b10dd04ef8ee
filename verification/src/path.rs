//! Paths as text: components are separated by `/`.

use vstd::prelude::*;
use vstd::string::StringExecFns;
use crate::text::{chars_of, string_of, owned};

verus! {

/// The position of the last `c` in `s`, or -1 where `s` holds none.
pub open spec fn last_index_of(s: Seq<char>, c: char) -> int
    decreases s.len(),
{
    if s.len() == 0 {
        -1
    } else if s.last() == c {
        s.len() - 1
    } else {
        last_index_of(s.drop_last(), c)
    }
}

/// The final component of a path, if it names something.
///
/// Empty components and `.` components count for nothing, so trailing
/// separators are passed over; a path that ends in `..`, or that holds no
/// component at all, has no file name.
pub open spec fn file_name(p: Seq<char>) -> Option<Seq<char>>
    decreases p.len(),
{
    let k = last_index_of(p, '/');
    let piece = p.subrange(k + 1, p.len() as int);
    if -1 <= k < p.len() {
        if piece.len() == 0 || piece == seq!['.'] {
            if k < 0 {
                None
            } else {
                file_name(p.subrange(0, k))
            }
        } else if piece == seq!['.', '.'] {
            None
        } else {
            Some(piece)
        }
    } else {
        None
    }
}

/// The extension of a path: what follows the last `.` of its file name.
///
/// A file name without a `.`, or whose only `.` is its first character, has
/// no extension.
pub open spec fn extension(p: Seq<char>) -> Option<Seq<char>> {
    match file_name(p) {
        None => None,
        Some(name) => {
            let k = last_index_of(name, '.');
            if 0 < k < name.len() {
                Some(name.subrange(k + 1, name.len() as int))
            } else {
                None
            }
        },
    }
}

/// The name under which a file is stored: its file name, or `unknown` where
/// the path has none.
pub open spec fn stored_name(p: Seq<char>) -> Seq<char> {
    match file_name(p) {
        Some(name) => name,
        None => "unknown"@,
    }
}

/// The path of `name` under `directory`: the two with one `/` between
/// them, unless the directory is empty or ends with one. A name that begins
/// with `/` stands for itself.
pub open spec fn joined(directory: Seq<char>, name: Seq<char>) -> Seq<char> {
    if name.len() > 0 && name[0] == '/' {
        name
    } else if directory.len() == 0 || directory.last() == '/' {
        directory + name
    } else {
        directory + seq!['/'] + name
    }
}

/// The path under which `directory` stores the file at `path`.
pub open spec fn stored_path(directory: Seq<char>, path: Seq<char>) -> Seq<char> {
    joined(directory, stored_name(path))
}

/// The view of an optional string.
pub open spec fn text_of(o: Option<String>) -> Option<Seq<char>> {
    match o {
        Some(s) => Some(s@),
        None => None,
    }
}

/// `last_index_of` is a position of `c` after which `s` holds no `c`.
pub proof fn lemma_last_index_of(s: Seq<char>, c: char)
    ensures
        -1 <= last_index_of(s, c) < s.len(),
        last_index_of(s, c) >= 0 ==> s[last_index_of(s, c)] == c,
        forall|j: int| last_index_of(s, c) < j < s.len() ==> s[j] != c,
    decreases s.len(),
{
    if s.len() > 0 && s.last() != c {
        let t = s.drop_last();
        lemma_last_index_of(t, c);
        assert forall|j: int| last_index_of(s, c) < j < s.len() implies s[j] != c by {
            if j < t.len() {
                assert(t[j] == s[j]);
            }
        }
    }
}

/// A position of `c` after which `s` holds no `c` is `last_index_of`.
pub proof fn lemma_last_index_is(s: Seq<char>, c: char, k: int)
    requires
        -1 <= k < s.len(),
        k >= 0 ==> s[k] == c,
        forall|j: int| k < j < s.len() ==> s[j] != c,
    ensures
        last_index_of(s, c) == k,
    decreases s.len(),
{
    if s.len() > 0 && s.last() != c {
        lemma_last_index_is(s.drop_last(), c, k);
    }
}

/// The file name of a path, where it has one, is not empty and free of `/`.
pub proof fn lemma_file_name_is_component(p: Seq<char>)
    ensures
        file_name(p) matches Some(name) ==> name.len() > 0 && !name.contains('/'),
    decreases p.len(),
{
    let k = last_index_of(p, '/');
    lemma_last_index_of(p, '/');
    let piece = p.subrange(k + 1, p.len() as int);
    if piece.len() == 0 || piece == seq!['.'] {
        if k >= 0 {
            lemma_file_name_is_component(p.subrange(0, k));
        }
    }
}

/// The name under which a file is stored is a single component: it is not
/// empty and holds no `/`.
pub proof fn lemma_stored_name_is_component(p: Seq<char>)
    ensures
        stored_name(p).len() > 0,
        !stored_name(p).contains('/'),
{
    lemma_file_name_is_component(p);
    reveal_strlit("unknown");
    let u = "unknown"@;
    assert(u =~= seq!['u', 'n', 'k', 'n', 'o', 'w', 'n']);
}

/// The position of the last `c` among the first `end` characters.
fn find_last(chars: &Vec<char>, end: usize, c: char) -> (r: Option<usize>)
    requires
        end <= chars@.len(),
    ensures
        match r {
            Some(k) => k < end && k as int == last_index_of(chars@.take(end as int), c),
            None => last_index_of(chars@.take(end as int), c) == -1,
        },
{
    let mut i: usize = end;
    while i > 0
        invariant
            i <= end <= chars@.len(),
            forall|j: int| i <= j < end ==> chars@[j] != c,
        decreases i,
    {
        i -= 1;
        if chars[i] == c {
            proof {
                lemma_last_index_is(chars@.take(end as int), c, i as int);
            }
            return Some(i);
        }
    }
    proof {
        lemma_last_index_is(chars@.take(end as int), c, -1);
    }
    None
}

/// The final component of `path`, if it names something.
pub fn file_name_of(path: &str) -> (r: Option<String>)
    ensures
        text_of(r) == file_name(path@),
{
    let chars = chars_of(path);
    let mut end: usize = chars.len();
    assert(chars@.take(end as int) =~= path@);
    loop
        invariant
            end <= chars@.len(),
            file_name(path@) == file_name(chars@.take(end as int)),
        decreases end,
    {
        let ghost p = chars@.take(end as int);
        let found = find_last(&chars, end, '/');
        let start: usize = match found {
            Some(k) => k + 1,
            None => 0,
        };
        proof {
            lemma_last_index_of(p, '/');
            assert(p.subrange(start as int, end as int) =~= chars@.subrange(
                start as int,
                end as int,
            ));
        }
        let ghost piece = chars@.subrange(start as int, end as int);
        let len: usize = end - start;
        if len == 0 || (len == 1 && chars[start] == '.') {
            proof {
                if len == 1 {
                    assert(piece =~= seq!['.']);
                }
            }
            match found {
                None => {
                    return None;
                },
                Some(k) => {
                    assert(p.subrange(0, k as int) =~= chars@.take(k as int));
                    end = k;
                },
            }
        } else if len == 2 && chars[start] == '.' && chars[start + 1] == '.' {
            assert(piece =~= seq!['.', '.']);
            return None;
        } else {
            proof {
                if piece == seq!['.'] {
                    assert(piece.len() == 1 && piece[0] == '.');
                }
                if piece == seq!['.', '.'] {
                    assert(piece.len() == 2 && piece[0] == '.' && piece[1] == '.');
                }
            }
            return Some(string_of(&chars, start, end));
        }
    }
}

/// The extension of `path`, as it is written.
pub fn extension_of(path: &str) -> (r: Option<String>)
    ensures
        text_of(r) == extension(path@),
{
    match file_name_of(path) {
        None => None,
        Some(name) => {
            let chars = chars_of(name.as_str());
            let n: usize = chars.len();
            assert(chars@.take(n as int) =~= name@);
            proof {
                lemma_last_index_of(name@, '.');
            }
            match find_last(&chars, n, '.') {
                None => None,
                Some(k) => {
                    if k > 0 {
                        Some(string_of(&chars, k + 1, n))
                    } else {
                        None
                    }
                },
            }
        },
    }
}

/// The name under which the file at `path` is stored.
pub fn stored_name_of(path: &str) -> (r: String)
    ensures
        r@ == stored_name(path@),
{
    match file_name_of(path) {
        Some(name) => name,
        None => owned("unknown"),
    }
}

/// The path of `name` under `directory`.
pub fn join(directory: &str, name: &str) -> (r: String)
    ensures
        r@ == joined(directory@, name@),
{
    if name.unicode_len() > 0 && name.get_char(0) == '/' {
        return owned(name);
    }
    let n: usize = directory.unicode_len();
    let mut out = owned(directory);
    if n > 0 && directory.get_char(n - 1) != '/' {
        out.push('/');
        assert(out@ =~= directory@ + seq!['/']);
    }
    out.append(name);
    out
}

/// The path under which `directory` stores the file at `path`.
pub fn stored_path_of(directory: &str, path: &str) -> (r: String)
    ensures
        r@ == stored_path(directory@, path@),
{
    let name = stored_name_of(path);
    join(directory, name.as_str())
}

/// A stored file lies in the directory itself: its path is the directory,
/// one `/` where the directory does not end with one, and a name that
/// holds no `/`.
pub proof fn lemma_stored_path_is_flat(directory: Seq<char>, path: Seq<char>)
    ensures
        stored_path(directory, path) == directory + stored_name(path) || stored_path(
            directory,
            path,
        ) == directory + seq!['/'] + stored_name(path),
        !stored_name(path).contains('/'),
        stored_name(path).len() > 0,
{
    lemma_stored_name_is_component(path);
    let name = stored_name(path);
    if name[0] == '/' {
        assert(name.contains('/'));
    }
}

} // verus!

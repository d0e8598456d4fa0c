use vstd::prelude::*;

verus! {

// Paths are plain strings throughout this crate, with `/` as the component
// separator. A path is "absolute" when it starts with `/`.

/// The name after the last separator, or the whole path when it has none.
pub open spec fn spec_file_name(p: Seq<char>) -> Seq<char> {
    match p.index_of_last('/') {
        Some(i) => p.skip(i + 1),
        None => p,
    }
}

/// The extension of a plain file name: the part after the last `.`, except
/// that a name whose only `.` is its first character (a hidden file) has
/// none.
pub open spec fn spec_extension_of(name: Seq<char>) -> Option<Seq<char>> {
    match name.index_of_last('.') {
        Some(i) => if i > 0 {
            Some(name.skip(i + 1))
        } else {
            None
        },
        None => None,
    }
}

/// The stem of a plain file name: the name with its extension (and the `.`
/// before it) removed; the whole name when it has no extension.
pub open spec fn spec_file_stem(name: Seq<char>) -> Seq<char> {
    match name.index_of_last('.') {
        Some(i) => if i > 0 {
            name.take(i)
        } else {
            name
        },
        None => name,
    }
}

/// Joining a path onto a base: an empty path changes nothing, an absolute
/// path replaces the base, and anything else goes below the base with
/// exactly one separator in between.
pub open spec fn spec_join(base: Seq<char>, rel: Seq<char>) -> Seq<char> {
    if rel.len() == 0 {
        base
    } else if rel[0] == '/' {
        rel
    } else if base.len() == 0 {
        rel
    } else if base.last() == '/' {
        base + rel
    } else {
        base + seq!['/'] + rel
    }
}

/// Removing the last component of a path: everything from the last separator
/// on is dropped, except that the root `/` is kept; a path without a
/// separator becomes empty.
pub open spec fn spec_pop(p: Seq<char>) -> Seq<char> {
    match p.index_of_last('/') {
        Some(i) => if i == 0 {
            seq!['/']
        } else {
            p.take(i)
        },
        None => Seq::empty(),
    }
}

/// The index of the last occurrence of `c` in `s`, if any.
fn find_last(s: &str, c: char) -> (r: Option<usize>)
    ensures
        match r {
            Some(i) => s@.index_of_last(c) == Some(i as int),
            None => s@.index_of_last(c) is None,
        },
{
    let n = s.unicode_len();
    let mut i = n;
    while i > 0
        invariant
            i <= n,
            n == s@.len(),
            forall|j: int| i <= j < n ==> s@[j] != c,
        decreases i,
    {
        i = i - 1;
        if s.get_char(i) == c {
            proof {
                s@.index_of_last_ensures(c);
            }
            return Some(i);
        }
    }
    proof {
        s@.index_of_last_ensures(c);
        if s@.contains(c) {
            let witness = choose|j: int| 0 <= j < s@.len() && s@[j] == c;
            assert(s@[witness] != c);
        }
    }
    None
}

/// The name after the last separator, or the whole path when it has none.
pub fn file_name_of<'a>(p: &'a str) -> (r: &'a str)
    ensures
        r@ == spec_file_name(p@),
{
    let n = p.unicode_len();
    match find_last(p, '/') {
        Some(i) => {
            proof {
                p@.index_of_last_ensures('/');
            }
            p.substring_char(i + 1, n)
        },
        None => p,
    }
}

/// Whether the extension of the file name `name` is exactly `extension`
/// (case-sensitive, no glob semantics).
pub fn extension_matches(name: &str, extension: &str) -> (r: bool)
    ensures
        r == (spec_extension_of(name@) == Some(extension@)),
{
    let n = name.unicode_len();
    match find_last(name, '.') {
        Some(i) => {
            proof {
                name@.index_of_last_ensures('.');
            }
            if i == 0 {
                return false;
            }
            let ext = name.substring_char(i + 1, n);
            str_eq(ext, extension)
        },
        None => false,
    }
}

/// The stem of the file name `name`.
pub fn file_stem_of<'a>(name: &'a str) -> (r: &'a str)
    ensures
        r@ == spec_file_stem(name@),
{
    match find_last(name, '.') {
        Some(i) => {
            proof {
                name@.index_of_last_ensures('.');
            }
            if i == 0 {
                name
            } else {
                name.substring_char(0, i)
            }
        },
        None => name,
    }
}

/// Joins `rel` below `base`, unless `rel` is absolute.
pub fn join_path(base: &str, rel: &str) -> (r: String)
    ensures
        r@ == spec_join(base@, rel@),
{
    proof {
        reveal_strlit("/");
    }
    let rn = rel.unicode_len();
    if rn == 0 {
        return String::from_str(base);
    }
    if rel.get_char(0) == '/' {
        return String::from_str(rel);
    }
    let bn = base.unicode_len();
    if bn == 0 {
        String::from_str(rel)
    } else if base.get_char(bn - 1) == '/' {
        String::from_str(base).concat(rel)
    } else {
        let joined = String::from_str(base).concat("/").concat(rel);
        proof {
            assert(joined@ =~= base@ + seq!['/'] + rel@);
        }
        joined
    }
}

/// Removes the last component of `p`, as [`spec_pop`] describes.
pub fn pop_path(p: &str) -> (r: String)
    ensures
        r@ == spec_pop(p@),
{
    match find_last(p, '/') {
        Some(i) => {
            proof {
                p@.index_of_last_ensures('/');
                reveal_strlit("/");
            }
            if i == 0 {
                let root = String::from_str("/");
                proof {
                    assert(root@ =~= seq!['/']);
                }
                root
            } else {
                String::from_str(p.substring_char(0, i))
            }
        },
        None => String::new(),
    }
}

/// Character-by-character equality of two string slices.
pub fn str_eq(a: &str, b: &str) -> (r: bool)
    ensures
        r == (a@ == b@),
{
    let an = a.unicode_len();
    let bn = b.unicode_len();
    if an != bn {
        proof {
            assert(a@ != b@) by {
                assert(a@.len() != b@.len());
            }
        }
        return false;
    }
    let mut i: usize = 0;
    while i < an
        invariant
            i <= an,
            an == a@.len(),
            an == b@.len(),
            forall|j: int| 0 <= j < i ==> a@[j] == b@[j],
        decreases an - i,
    {
        if a.get_char(i) != b.get_char(i) {
            return false;
        }
        i = i + 1;
    }
    proof {
        assert(a@ =~= b@);
    }
    true
}

} // verus!

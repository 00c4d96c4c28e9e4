//! Path text manipulation, treating `/` as the separator: file name,
//! extension, parent and joining. Purely textual — nothing here touches a
//! filesystem.

use vstd::prelude::*;

verus! {

use vstd::string::{StrSliceExecFns, StringExecFns};

/// The characters after the last occurrence of `c`; the whole text when
/// `c` does not occur.
pub open spec fn after_last(s: Seq<char>, c: char) -> Seq<char>
    decreases s.len(),
{
    if s.len() == 0 {
        s
    } else if s.last() == c {
        Seq::empty()
    } else {
        after_last(s.drop_last(), c).push(s.last())
    }
}

/// When `c` occurs at `i` and nowhere later, everything after `i` is what
/// follows the last occurrence.
proof fn lemma_after_last_at(s: Seq<char>, c: char, i: int)
    requires
        0 <= i < s.len(),
        s[i] == c,
        forall|j: int| i < j < s.len() ==> s[j] != c,
    ensures
        after_last(s, c) == s.skip(i + 1),
    decreases s.len(),
{
    if i == s.len() - 1 {
        assert(after_last(s, c) =~= s.skip(i + 1));
    } else {
        assert(s.last() != c);
        assert(forall|j: int| i < j < s.drop_last().len() ==> s.drop_last()[j] != c);
        assert(s.drop_last()[i] == c);
        lemma_after_last_at(s.drop_last(), c, i);
        assert(after_last(s, c) =~= s.skip(i + 1)) by {
            assert(s.drop_last().skip(i + 1) =~= s.skip(i + 1).drop_last());
        }
    }
}

/// When `c` does not occur, nothing precedes the (absent) last occurrence.
proof fn lemma_after_last_absent(s: Seq<char>, c: char)
    requires
        forall|j: int| 0 <= j < s.len() ==> s[j] != c,
    ensures
        after_last(s, c) == s,
    decreases s.len(),
{
    if s.len() > 0 {
        assert(forall|j: int| 0 <= j < s.drop_last().len() ==> s.drop_last()[j] != c);
        lemma_after_last_absent(s.drop_last(), c);
        assert(after_last(s, c) =~= s);
    }
}

/// The index just past the last occurrence of `c`, or `None` when `c`
/// does not occur.
fn rfind_char(s: &str, c: char) -> (r: Option<usize>)
    ensures
        match r {
            Some(i) => (i as int) < s@.len() && s@[i as int] == c && (forall|j: int|
                (i as int) < j < s@.len() ==> s@[j] != c),
            None => forall|j: int| 0 <= j < s@.len() ==> s@[j] != c,
        },
{
    let n = s.unicode_len();
    let mut i: usize = n;
    while i > 0
        invariant
            n == s@.len(),
            i <= n,
            forall|j: int| (i as int) <= j < s@.len() ==> s@[j] != c,
        decreases i,
    {
        if s.get_char(i - 1) == c {
            return Some(i - 1);
        }
        i = i - 1;
    }
    None
}

/// Path utilities over `/`-separated path text.
pub struct PathUtil;

impl PathUtil {
    /// The final component of the path: the text after the last `/`, or
    /// the whole path when it has no separator; `None` when that text is
    /// empty, as after a trailing `/`.
    pub fn filename(path: &str) -> (r: Option<String>)
        ensures
            after_last(path@, '/').len() == 0 ==> r == None::<String>,
            after_last(path@, '/').len() > 0 ==> match r {
                Some(name) => name@ == after_last(path@, '/'),
                None => false,
            },
    {
        let n = path.unicode_len();
        match rfind_char(path, '/') {
            Some(i) => {
                proof {
                    lemma_after_last_at(path@, '/', i as int);
                }
                if i + 1 == n {
                    proof {
                        assert(path@.skip(i as int + 1) =~= Seq::<char>::empty());
                    }
                    None
                } else {
                    let name = path.substring_char(i + 1, n);
                    proof {
                        assert(name@ =~= path@.skip(i as int + 1));
                    }
                    Some(name.to_owned())
                }
            },
            None => {
                proof {
                    lemma_after_last_absent(path@, '/');
                }
                if n == 0 {
                    None
                } else {
                    Some(path.to_owned())
                }
            },
        }
    }

    /// The extension of the final component: the text after its last `.`,
    /// provided a `.` stands past the component's first character; `None`
    /// for a component with no `.`, or one that only starts with `.`.
    pub fn extension(path: &str) -> (r: Option<String>)
        ensures
            ({
                let name = after_last(path@, '/');
                if exists|j: int| 1 <= j < name.len() && name[j] == '.' {
                    match r {
                        Some(ext) => ext@ == after_last(name, '.'),
                        None => false,
                    }
                } else {
                    r == None::<String>
                }
            }),
    {
        let n = path.unicode_len();
        let start = match rfind_char(path, '/') {
            Some(i) => {
                proof {
                    lemma_after_last_at(path@, '/', i as int);
                }
                i + 1
            },
            None => {
                proof {
                    lemma_after_last_absent(path@, '/');
                }
                0
            },
        };
        let name = path.substring_char(start, n);
        proof {
            assert(name@ =~= path@.skip(start as int));
            assert(name@ == after_last(path@, '/'));
        }
        match rfind_char(name, '.') {
            Some(j) => {
                proof {
                    lemma_after_last_at(name@, '.', j as int);
                }
                if j == 0 {
                    proof {
                        assert forall|k: int| 1 <= k < name@.len() implies name@[k] != '.' by {}
                    }
                    None
                } else {
                    let m = name.unicode_len();
                    let ext = name.substring_char(j + 1, m);
                    proof {
                        assert(ext@ =~= name@.skip(j as int + 1));
                    }
                    Some(ext.to_owned())
                }
            },
            None => {
                proof {
                    lemma_after_last_absent(name@, '.');
                }
                None
            },
        }
    }

    /// The path with its final component removed: everything before the
    /// last `/`. A path without a separator has the empty parent; the
    /// empty path has none.
    pub fn parent(path: &str) -> (r: Option<String>)
        ensures
            path@.len() == 0 ==> r == None::<String>,
            path@.len() > 0 ==> match r {
                Some(p) => if exists|i: int| 0 <= i < path@.len() && path@[i] == '/' {
                    p@ == path@.take(path@.len() - after_last(path@, '/').len() - 1)
                } else {
                    p@.len() == 0
                },
                None => false,
            },
    {
        let n = path.unicode_len();
        if n == 0 {
            return None;
        }
        match rfind_char(path, '/') {
            Some(i) => {
                proof {
                    lemma_after_last_at(path@, '/', i as int);
                    assert(path@.skip(i as int + 1).len() == path@.len() - i - 1);
                }
                let p = path.substring_char(0, i);
                proof {
                    assert(p@ =~= path@.take(i as int));
                }
                Some(p.to_owned())
            },
            None => {
                proof {
                    assert forall|i: int| 0 <= i < path@.len() implies path@[i] != '/' by {}
                }
                Some(String::new())
            },
        }
    }

    /// Joins two path texts: an absolute `path` replaces `base`; an empty
    /// `base` leaves `path` as it is; otherwise the two are joined with a
    /// single `/`, reusing a trailing one on `base`.
    pub fn join(base: &str, path: &str) -> (r: String)
        ensures
            r@ == if path@.len() > 0 && path@[0] == '/' {
                path@
            } else if base@.len() == 0 {
                path@
            } else if base@.last() == '/' {
                base@ + path@
            } else {
                base@ + seq!['/'] + path@
            },
    {
        let np = path.unicode_len();
        if np > 0 && path.get_char(0) == '/' {
            return path.to_owned();
        }
        let nb = base.unicode_len();
        if nb == 0 {
            return path.to_owned();
        }
        if base.get_char(nb - 1) == '/' {
            let mut r = base.to_owned();
            r.append(path);
            return r;
        }
        let mut r = base.to_owned();
        proof {
            reveal_strlit("/");
        }
        r.append("/");
        r.append(path);
        proof {
            assert(r@ =~= base@ + seq!['/'] + path@);
        }
        r
    }
}

/// Metadata of one filesystem entry, as plain values.
#[derive(Debug, Clone, Copy, PartialEq, Eq, Structural)]
pub struct FileMetadata {
    /// Size in bytes.
    pub size: u64,
    /// Whether the entry is a regular file.
    pub is_file: bool,
    /// Whether the entry is a directory.
    pub is_dir: bool,
    /// Whether the entry is a symbolic link.
    pub is_symlink: bool,
    /// Whether the entry is read-only.
    pub readonly: bool,
}

} // verus!

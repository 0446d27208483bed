use vstd::prelude::*;
use vstd::string::{StrSliceExecFns, StringExecFns};

verus! {

/// `base` and `name` joined by a slash.
pub open spec fn joined(base: Seq<char>, name: Seq<char>) -> Seq<char> {
    base + seq!['/'] + name
}

/// Whether `p` occurs in `s` starting at index `i`.
pub open spec fn occurs_at(s: Seq<char>, p: Seq<char>, i: int) -> bool {
    0 <= i && i + p.len() <= s.len() && s.subrange(i, i + p.len()) == p
}

/// Whether `p` occurs anywhere in `s`.
pub open spec fn occurs_in(s: Seq<char>, p: Seq<char>) -> bool {
    exists|i: int| occurs_at(s, p, i)
}

/// `s` with every occurrence of a non-empty `p` removed, scanning from the
/// left and never letting two removed occurrences overlap.
pub open spec fn strip_all(s: Seq<char>, p: Seq<char>) -> Seq<char>
    decreases s.len(),
{
    if p.len() == 0 || s.len() < p.len() {
        s
    } else if s.subrange(0, p.len() as int) == p {
        strip_all(s.subrange(p.len() as int, s.len() as int), p)
    } else {
        seq![s[0]] + strip_all(s.subrange(1, s.len() as int), p)
    }
}

/// The names among `files` that hold `term`, in their order.
pub open spec fn matching(files: Seq<Seq<char>>, term: Seq<char>) -> Seq<Seq<char>>
    decreases files.len(),
{
    if files.len() == 0 {
        seq![]
    } else if occurs_in(files.last(), term) {
        matching(files.drop_last(), term).push(files.last())
    } else {
        matching(files.drop_last(), term)
    }
}

/// The characters of each string.
pub open spec fn names_view(files: Seq<String>) -> Seq<Seq<char>> {
    files.map_values(|f: String| f@)
}

/// The characters of a string, one by one.
fn chars_of(s: &str) -> (r: Vec<char>)
    ensures
        r@ == s@,
{
    let n = s.unicode_len();
    let mut r: Vec<char> = Vec::new();
    let mut i: usize = 0;
    while i < n
        invariant
            n == s@.len(),
            i <= n,
            r@ == s@.subrange(0, i as int),
        decreases n - i,
    {
        r.push(s.get_char(i));
        i = i + 1;
        assert(r@ =~= s@.subrange(0, i as int));
    }
    assert(r@ =~= s@);
    r
}

/// Whether `p` occurs in `s` at index `i`.
fn occurs_at_exec(s: &Vec<char>, p: &Vec<char>, i: usize) -> (r: bool)
    ensures
        r == occurs_at(s@, p@, i as int),
{
    if p.len() > s.len() || i > s.len() - p.len() {
        return false;
    }
    let mut j: usize = 0;
    while j < p.len()
        invariant
            i + p@.len() <= s@.len(),
            s@.len() <= usize::MAX,
            j <= p@.len(),
            forall|k: int| 0 <= k < j ==> s@[i + k] == p@[k],
        decreases p.len() - j,
    {
        if s[i + j] != p[j] {
            assert(s@.subrange(i as int, i + p@.len())[j as int] != p@[j as int]);
            return false;
        }
        j = j + 1;
    }
    assert(s@.subrange(i as int, i + p@.len()) =~= p@);
    true
}

/// Whether `p` occurs anywhere in `s`.
fn occurs_in_exec(s: &Vec<char>, p: &Vec<char>) -> (r: bool)
    ensures
        r == occurs_in(s@, p@),
{
    if p.len() > s.len() {
        assert(!occurs_in(s@, p@));
        return false;
    }
    let last = s.len() - p.len();
    let mut i: usize = 0;
    loop
        invariant
            last == s@.len() - p@.len(),
            i <= last,
            forall|k: int| 0 <= k < i ==> !occurs_at(s@, p@, k),
        decreases last - i,
    {
        if occurs_at_exec(s, p, i) {
            return true;
        }
        if i == last {
            assert(!occurs_in(s@, p@));
            return false;
        }
        i = i + 1;
    }
}

/// Given a file name, its path under the base directory.
pub fn get_file_path(base_dir: &str, file_name: &str) -> (r: String)
    ensures
        r@ == joined(base_dir@, file_name@),
{
    let mut r = base_dir.to_owned();
    proof {
        reveal_strlit("/");
    }
    r.append("/");
    r.append(file_name);
    r
}

/// Given a file name, its URL under the base URL.
pub fn get_file_url(base_url: &str, file_name: &str) -> (r: String)
    ensures
        r@ == joined(base_url@, file_name@),
{
    let mut r = base_url.to_owned();
    proof {
        reveal_strlit("/");
    }
    r.append("/");
    r.append(file_name);
    r
}

/// A path with every occurrence of the base directory and its slash taken
/// out.
pub fn basename(base_dir: &str, file_name: &str) -> (r: String)
    ensures
        r@ == strip_all(file_name@, base_dir@ + seq!['/']),
{
    let mut prefix = base_dir.to_owned();
    proof {
        reveal_strlit("/");
    }
    prefix.append("/");
    let p = chars_of(prefix.as_str());
    let s = chars_of(file_name);
    let ghost pat = base_dir@ + seq!['/'];
    let ghost full = file_name@;
    let n = s.len();
    let m = p.len();
    let mut out = String::new();
    let mut start: usize = 0;
    let mut i: usize = 0;
    assert(full.subrange(0, n as int) =~= full);
    while i < n
        invariant
            full == file_name@,
            p@ == pat,
            s@ == full,
            n == full.len(),
            m == pat.len(),
            m > 0,
            start <= i <= n,
            out@ + full.subrange(start as int, i as int) + strip_all(
                full.subrange(i as int, n as int),
                pat,
            ) == strip_all(full, pat),
        decreases n - i,
    {
        let ghost rest = full.subrange(i as int, n as int);
        if occurs_at_exec(&s, &p, i) {
            assert(rest.subrange(0, m as int) =~= full.subrange(i as int, i + m));
            assert(rest.subrange(m as int, rest.len() as int) =~= full.subrange(i + m, n as int));
            out.append(file_name.substring_char(start, i));
            i = i + m;
            start = i;
            assert(full.subrange(start as int, i as int) =~= Seq::<char>::empty());
            assert(out@ + full.subrange(start as int, i as int) =~= out@);
        } else {
            if m <= n - i {
                assert(rest.subrange(0, m as int) =~= full.subrange(i as int, i + m));
            }
            assert(rest.subrange(1, rest.len() as int) =~= full.subrange(i + 1, n as int));
            assert(full.subrange(start as int, i + 1) =~= full.subrange(start as int, i as int)
                + seq![full[i as int]]);
            i = i + 1;
        }
    }
    assert(full.subrange(i as int, n as int) =~= Seq::<char>::empty());
    out.append(file_name.substring_char(start, n));
    assert(out@ =~= strip_all(full, pat));
    out
}

/// The names among `files` that hold `search_term`, in their order.
pub fn search(files: &Vec<String>, search_term: &str) -> (r: Vec<String>)
    ensures
        names_view(r@) == matching(names_view(files@), search_term@),
{
    let t = chars_of(search_term);
    let mut r: Vec<String> = Vec::new();
    let mut i: usize = 0;
    while i < files.len()
        invariant
            t@ == search_term@,
            i <= files@.len(),
            names_view(r@) == matching(names_view(files@.subrange(0, i as int)), t@),
        decreases files.len() - i,
    {
        let name = &files[i];
        let c = chars_of(name.as_str());
        let ghost before = names_view(files@.subrange(0, i as int));
        assert(names_view(files@.subrange(0, i + 1)).drop_last() =~= before);
        assert(names_view(files@.subrange(0, i + 1)).last() == name@);
        if occurs_in_exec(&c, &t) {
            r.push(name.clone());
            assert(names_view(r@) =~= names_view(r@.drop_last()).push(name@));
        }
        i = i + 1;
    }
    assert(files@.subrange(0, i as int) =~= files@);
    r
}

} // verus!

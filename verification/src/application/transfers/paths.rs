//! Path rules of the transfer engine: remote (POSIX) joins and parents, local
//! parents under the platform separator, the temporary name of an unfinished
//! file and the "keep both" names `name (1).ext`.

use vstd::prelude::*;

use crate::text::{
    chars_of, decimal, find_last, last_index_of, push_char, push_decimal, push_range,
    strip_trailing, strip_trailing_len,
};

verus! {

/// Suffix of the temporary file that a transfer writes before its final rename.
pub open spec fn partial_suffix() -> Seq<char> {
    ".shelx-partial"@
}

/// `dir/name` on the remote side; an empty or all-slash `dir` gives `/name`.
pub open spec fn remote_join(dir: Seq<char>, name: Seq<char>) -> Seq<char> {
    let t = strip_trailing(dir, '/');
    if t.len() == 0 {
        seq!['/'] + name
    } else {
        t + seq!['/'] + name
    }
}

/// Parent directory of a `/`-separated path: trailing slashes are ignored, a
/// path right under the root has `/`, a bare name has none.
pub open spec fn parent_spec(p: Seq<char>) -> Option<Seq<char>> {
    let t = strip_trailing(p, '/');
    match last_index_of(t, '/') {
        Some(i) => if i == 0 {
            Some(seq!['/'])
        } else {
            Some(t.subrange(0, i))
        },
        None => None,
    }
}

/// `p` with each `sep` turned into `/`.
pub open spec fn normalize(p: Seq<char>, sep: char) -> Seq<char> {
    Seq::new(p.len(), |i: int| if p[i] == sep { '/' } else { p[i] })
}

/// `p` with each `/` turned into `sep`.
pub open spec fn localize(p: Seq<char>, sep: char) -> Seq<char> {
    Seq::new(p.len(), |i: int| if p[i] == '/' { sep } else { p[i] })
}

/// (directory, file name) of a remote path; a file right under the root has an
/// empty directory.
pub open spec fn split_remote_spec(p: Seq<char>) -> (Seq<char>, Seq<char>) {
    match last_index_of(p, '/') {
        Some(i) => if i == 0 {
            (Seq::empty(), p.subrange(1, p.len() as int))
        } else {
            (p.subrange(0, i), p.subrange(i + 1, p.len() as int))
        },
        None => (Seq::empty(), p),
    }
}

/// (directory, file name) of a local path split at the last `sep`.
pub open spec fn split_local_spec(p: Seq<char>, sep: char) -> (Seq<char>, Seq<char>) {
    match last_index_of(p, sep) {
        Some(i) => (p.subrange(0, i), p.subrange(i + 1, p.len() as int)),
        None => (Seq::empty(), p),
    }
}

/// (stem, extension with its dot); a leading dot starts no extension.
pub open spec fn split_ext_spec(n: Seq<char>) -> (Seq<char>, Seq<char>) {
    match last_index_of(n, '.') {
        Some(i) => if i > 0 {
            (n.subrange(0, i), n.subrange(i, n.len() as int))
        } else {
            (n, Seq::empty())
        },
        None => (n, Seq::empty()),
    }
}

/// `stem (index)ext`.
pub open spec fn numbered(name: Seq<char>, index: nat) -> Seq<char> {
    let (stem, ext) = split_ext_spec(name);
    stem + " ("@ + decimal(index) + ")"@ + ext
}

/// The `index`-th "keep both" name of a remote file: in the file's own
/// directory (the root included), `name (index).ext`.
pub open spec fn remote_candidate_spec(p: Seq<char>, index: nat) -> Seq<char> {
    match last_index_of(p, '/') {
        Some(i) => p.subrange(0, i + 1) + numbered(p.subrange(i + 1, p.len() as int), index),
        None => numbered(p, index),
    }
}

/// The `index`-th "keep both" name of a local file.
pub open spec fn local_candidate_spec(p: Seq<char>, index: nat, sep: char) -> Seq<char> {
    let (dir, name) = split_local_spec(p, sep);
    dir + seq![sep] + numbered(name, index)
}

/// The file name shown for a remote path: what follows its last `/`.
pub open spec fn file_name_spec(p: Seq<char>) -> Seq<char> {
    match last_index_of(p, '/') {
        Some(i) => p.subrange(i + 1, p.len() as int),
        None => p,
    }
}

/// Index of the last `/` or `sep` in `s`.
pub open spec fn last_sep_index(s: Seq<char>, sep: char) -> Option<int>
    decreases s.len(),
{
    if s.len() == 0 {
        None
    } else if s.last() == '/' || s.last() == sep {
        Some(s.len() - 1)
    } else {
        last_sep_index(s.drop_last(), sep)
    }
}

/// Last component of a local path, split at `/` or `sep`.
pub open spec fn base_name_spec(p: Seq<char>, sep: char) -> Seq<char> {
    match last_sep_index(p, sep) {
        Some(i) => p.subrange(i + 1, p.len() as int),
        None => p,
    }
}

/// Child of a listed directory: `dir` without trailing slashes, `/`, `name`.
pub open spec fn walk_child(dir: Seq<char>, name: Seq<char>) -> Seq<char> {
    strip_trailing(dir, '/') + seq!['/'] + name
}

/// Relative name of a walked entry under `prefix`.
pub open spec fn walk_relative(prefix: Seq<char>, name: Seq<char>) -> Seq<char> {
    if prefix.len() == 0 {
        name
    } else {
        prefix + seq!['/'] + name
    }
}

/// Local target of a downloaded file: `local_dir` without trailing slashes, `/`,
/// and the relative name with its slashes turned into `sep`.
pub open spec fn download_target_spec(local_dir: Seq<char>, relative: Seq<char>, sep: char) -> Seq<
    char,
> {
    strip_trailing(local_dir, '/') + seq!['/'] + localize(relative, sep)
}

/// `v[from..to]` as a vector.
fn sub_vec(v: &Vec<char>, from: usize, to: usize) -> (w: Vec<char>)
    requires
        from <= to <= v@.len(),
    ensures
        w@ == v@.subrange(from as int, to as int),
{
    let mut w: Vec<char> = Vec::new();
    let mut i = from;
    while i < to
        invariant
            from <= i <= to <= v@.len(),
            w@ == v@.subrange(from as int, i as int),
        decreases to - i,
    {
        w.push(v[i]);
        i = i + 1;
        assert(w@ =~= v@.subrange(from as int, i as int));
    }
    w
}

/// Appends `v` whole to `out`.
fn push_all(out: &mut String, v: &Vec<char>)
    ensures
        final(out)@ == old(out)@ + v@,
{
    push_range(out, v, 0, v.len());
    assert(v@.subrange(0, v@.len() as int) =~= v@);
}

/// The temporary name of an unfinished transfer: `path.shelx-partial`.
pub fn partial_path(path: &str) -> (p: String)
    ensures
        p@ == path@ + partial_suffix(),
{
    let mut out = String::from_str(path);
    out.append(".shelx-partial");
    out
}

/// Remote join (POSIX): `/srv` + `a.txt` gives `/srv/a.txt`, `` + `a` gives `/a`.
pub fn join_remote(dir: &str, name: &str) -> (p: String)
    ensures
        p@ == remote_join(dir@, name@),
{
    let v = chars_of(dir);
    let k = strip_trailing_len(&v, v.len(), '/');
    assert(v@.subrange(0, v@.len() as int) =~= v@);
    let mut out = String::new();
    push_range(&mut out, &v, 0, k);
    push_char(&mut out, '/');
    out.append(name);
    assert(out@ =~= v@.subrange(0, k as int) + seq!['/'] + name@);
    if k == 0 {
        assert(v@.subrange(0, 0) =~= Seq::<char>::empty());
        assert(out@ =~= seq!['/'] + name@);
    }
    out
}

/// Parent of a `/`-separated character sequence.
fn parent_chars(v: &Vec<char>) -> (r: Option<String>)
    ensures
        match r {
            Some(s) => parent_spec(v@) == Some(s@),
            None => parent_spec(v@).is_none(),
        },
{
    let k = strip_trailing_len(v, v.len(), '/');
    assert(v@.subrange(0, v@.len() as int) =~= v@);
    let ghost t = v@.subrange(0, k as int);
    let found = find_last(v, k, '/');
    match found {
        Some(i) => {
            if i == 0 {
                let mut out = String::new();
                push_char(&mut out, '/');
                assert(out@ =~= seq!['/']);
                Some(out)
            } else {
                let mut out = String::new();
                push_range(&mut out, v, 0, i);
                assert(out@ =~= t.subrange(0, i as int));
                Some(out)
            }
        },
        None => None,
    }
}

/// Parent directory of a remote path: `/a/b` → `/a`, `/a` → `/`, `a` → none.
pub fn parent_remote(path: &str) -> (r: Option<String>)
    ensures
        match r {
            Some(s) => parent_spec(path@) == Some(s@),
            None => parent_spec(path@).is_none(),
        },
{
    let v = chars_of(path);
    parent_chars(&v)
}

/// Parent directory of a local path whose separator is `sep`, returned in the
/// `/` form.
pub fn parent_local(path: &str, sep: char) -> (r: Option<String>)
    ensures
        match r {
            Some(s) => parent_spec(normalize(path@, sep)) == Some(s@),
            None => parent_spec(normalize(path@, sep)).is_none(),
        },
{
    let v = chars_of(path);
    let mut w: Vec<char> = Vec::new();
    let mut i: usize = 0;
    while i < v.len()
        invariant
            i <= v@.len(),
            w@ == normalize(v@.subrange(0, i as int), sep),
        decreases v@.len() - i,
    {
        let c = if v[i] == sep { '/' } else { v[i] };
        w.push(c);
        i = i + 1;
        assert(w@ =~= normalize(v@.subrange(0, i as int), sep));
    }
    assert(v@.subrange(0, v@.len() as int) =~= v@);
    parent_chars(&w)
}

/// Parent of a local path under the separator `sep`, in the `/` form.
pub open spec fn local_parent(p: Seq<char>, sep: char) -> Option<Seq<char>> {
    parent_spec(normalize(p, sep))
}

/// The view of an optional string.
pub open spec fn opt_chars(o: Option<String>) -> Option<Seq<char>> {
    match o {
        Some(s) => Some(s@),
        None => None,
    }
}

/// Splits `v` at its last `c`: (before, after), or (empty, all) with no `c`.
fn split_at_last(v: &Vec<char>, c: char) -> (r: (Vec<char>, Vec<char>))
    ensures
        match last_index_of(v@, c) {
            Some(i) => r.0@ == v@.subrange(0, i) && r.1@ == v@.subrange(i + 1, v@.len() as int),
            None => r.0@ == Seq::<char>::empty() && r.1@ == v@,
        },
{
    assert(v@.subrange(0, v@.len() as int) =~= v@);
    match find_last(v, v.len(), c) {
        Some(i) => (sub_vec(v, 0, i), sub_vec(v, i + 1, v.len())),
        None => (Vec::new(), sub_vec(v, 0, v.len())),
    }
}

/// (directory, file name) of a remote path: `/a/b.txt` → (`/a`, `b.txt`),
/// `/b.txt` → (``, `b.txt`).
pub fn split_remote(path: &str) -> (r: (String, String))
    ensures
        (r.0@, r.1@) == split_remote_spec(path@),
{
    let v = chars_of(path);
    let (dir, name) = split_remote_vec(&v);
    let mut a = String::new();
    push_all(&mut a, &dir);
    let mut b = String::new();
    push_all(&mut b, &name);
    assert(a@ =~= dir@);
    assert(b@ =~= name@);
    (a, b)
}

fn split_remote_vec(v: &Vec<char>) -> (r: (Vec<char>, Vec<char>))
    ensures
        (r.0@, r.1@) == split_remote_spec(v@),
{
    assert(v@.subrange(0, v@.len() as int) =~= v@);
    match find_last(v, v.len(), '/') {
        Some(i) => {
            if i == 0 {
                (Vec::new(), sub_vec(v, 1, v.len()))
            } else {
                (sub_vec(v, 0, i), sub_vec(v, i + 1, v.len()))
            }
        },
        None => (Vec::new(), sub_vec(v, 0, v.len())),
    }
}

fn split_ext_vec(n: &Vec<char>) -> (r: (Vec<char>, Vec<char>))
    ensures
        (r.0@, r.1@) == split_ext_spec(n@),
{
    assert(n@.subrange(0, n@.len() as int) =~= n@);
    match find_last(n, n.len(), '.') {
        Some(i) => {
            if i > 0 {
                (sub_vec(n, 0, i), sub_vec(n, i, n.len()))
            } else {
                (sub_vec(n, 0, n.len()), Vec::new())
            }
        },
        None => (sub_vec(n, 0, n.len()), Vec::new()),
    }
}

/// (stem, extension): `a.tar.gz` → (`a.tar`, `.gz`), `.bashrc` → (`.bashrc`, ``).
pub fn split_ext(name: &str) -> (r: (String, String))
    ensures
        (r.0@, r.1@) == split_ext_spec(name@),
{
    let v = chars_of(name);
    let (stem, ext) = split_ext_vec(&v);
    let mut a = String::new();
    push_all(&mut a, &stem);
    let mut b = String::new();
    push_all(&mut b, &ext);
    assert(a@ =~= stem@);
    assert(b@ =~= ext@);
    (a, b)
}

/// Appends `stem (index)ext` for the name `name`.
fn push_numbered(out: &mut String, name: &Vec<char>, index: u64)
    ensures
        final(out)@ == old(out)@ + numbered(name@, index as nat),
{
    let (stem, ext) = split_ext_vec(name);
    push_all(out, &stem);
    out.append(" (");
    push_decimal(out, index);
    out.append(")");
    push_all(out, &ext);
    assert(final(out)@ =~= old(out)@ + numbered(name@, index as nat));
}

/// The `index`-th "keep both" name of a remote file: `/d/a.txt` → `/d/a (1).txt`.
pub fn remote_candidate(path: &str, index: u64) -> (p: String)
    ensures
        p@ == remote_candidate_spec(path@, index as nat),
{
    let v = chars_of(path);
    assert(v@.subrange(0, v@.len() as int) =~= v@);
    let mut out = String::new();
    match find_last(&v, v.len(), '/') {
        Some(i) => {
            push_range(&mut out, &v, 0, i + 1);
            let name = sub_vec(&v, i + 1, v.len());
            push_numbered(&mut out, &name, index);
        },
        None => {
            push_numbered(&mut out, &v, index);
        },
    }
    assert(out@ =~= remote_candidate_spec(path@, index as nat));
    out
}

/// The `index`-th "keep both" name of a local file whose separator is `sep`.
pub fn local_candidate(path: &str, index: u64, sep: char) -> (p: String)
    ensures
        p@ == local_candidate_spec(path@, index as nat, sep),
{
    let v = chars_of(path);
    let (dir, name) = split_at_last(&v, sep);
    let mut out = String::new();
    push_all(&mut out, &dir);
    push_char(&mut out, sep);
    push_numbered(&mut out, &name, index);
    assert(out@ =~= local_candidate_spec(path@, index as nat, sep));
    out
}

/// The file name of a remote path: what follows its last `/`.
pub fn file_name_of(path: &str) -> (n: String)
    ensures
        n@ == file_name_spec(path@),
{
    let v = chars_of(path);
    let (_dir, name) = split_at_last(&v, '/');
    let mut out = String::new();
    push_all(&mut out, &name);
    assert(out@ =~= name@);
    out
}

/// Last component of a local path, split at `/` or `sep`.
pub fn base_name(path: &str, sep: char) -> (n: String)
    ensures
        n@ == base_name_spec(path@, sep),
{
    let v = chars_of(path);
    let mut k = v.len();
    assert(v@.subrange(0, v@.len() as int) =~= v@);
    while k > 0 && v[k - 1] != '/' && v[k - 1] != sep
        invariant
            k <= v@.len(),
            last_sep_index(v@, sep) == last_sep_index(v@.subrange(0, k as int), sep),
        decreases k,
    {
        proof {
            let p = v@.subrange(0, k as int);
            assert(p.drop_last() =~= v@.subrange(0, k - 1));
        }
        k = k - 1;
    }
    proof {
        assert(v@.subrange(0, v@.len() as int) =~= v@);
    }
    let mut out = String::new();
    if k == 0 {
        push_all(&mut out, &v);
        assert(v@.subrange(0, 0) =~= Seq::<char>::empty());
    } else {
        assert(v@.subrange(0, k as int).last() == v@[k - 1]);
        push_range(&mut out, &v, k, v.len());
    }
    out
}

/// Child path of a walked directory: `dir` without trailing slashes, `/`, `name`.
pub fn join_walk_child(dir: &str, name: &str) -> (p: String)
    ensures
        p@ == walk_child(dir@, name@),
{
    let v = chars_of(dir);
    let k = strip_trailing_len(&v, v.len(), '/');
    assert(v@.subrange(0, v@.len() as int) =~= v@);
    let mut out = String::new();
    push_range(&mut out, &v, 0, k);
    push_char(&mut out, '/');
    out.append(name);
    out
}

/// Relative name under `prefix`: `name` alone, or `prefix/name`.
pub fn join_relative(prefix: &str, name: &str) -> (p: String)
    ensures
        p@ == walk_relative(prefix@, name@),
{
    let mut out = String::from_str(prefix);
    if prefix.unicode_len() > 0 {
        push_char(&mut out, '/');
    }
    out.append(name);
    out
}

/// Local target of a downloaded file under `local_dir`, with separator `sep`.
pub fn download_target(local_dir: &str, relative: &str, sep: char) -> (p: String)
    ensures
        p@ == download_target_spec(local_dir@, relative@, sep),
{
    let v = chars_of(local_dir);
    let k = strip_trailing_len(&v, v.len(), '/');
    assert(v@.subrange(0, v@.len() as int) =~= v@);
    let mut out = String::new();
    push_range(&mut out, &v, 0, k);
    push_char(&mut out, '/');
    let r = chars_of(relative);
    let ghost base = out@;
    let mut i: usize = 0;
    while i < r.len()
        invariant
            i <= r@.len(),
            out@ == base + localize(r@.subrange(0, i as int), sep),
        decreases r@.len() - i,
    {
        let c = if r[i] == '/' { sep } else { r[i] };
        push_char(&mut out, c);
        i = i + 1;
        assert(out@ =~= base + localize(r@.subrange(0, i as int), sep));
    }
    assert(r@.subrange(0, r@.len() as int) =~= r@);
    out
}

/// `s` without its trailing run of `/` and `\\`.
pub open spec fn strip_trailing_seps(s: Seq<char>) -> Seq<char>
    decreases s.len(),
{
    if s.len() > 0 && (s.last() == '/' || s.last() == '\\') {
        strip_trailing_seps(s.drop_last())
    } else {
        s
    }
}

/// An entry of a listed local directory: `dir` without trailing separators,
/// `sep`, `name`.
pub open spec fn local_child_spec(dir: Seq<char>, name: Seq<char>, sep: char) -> Seq<char> {
    strip_trailing_seps(dir) + seq![sep] + name
}

/// The path of entry `name` of the local directory `dir`.
pub fn local_child(dir: &str, name: &str, sep: char) -> (p: String)
    ensures
        p@ == local_child_spec(dir@, name@, sep),
{
    let v = chars_of(dir);
    let mut k = v.len();
    assert(v@.subrange(0, v@.len() as int) =~= v@);
    while k > 0 && (v[k - 1] == '/' || v[k - 1] == '\\')
        invariant
            k <= v@.len(),
            strip_trailing_seps(v@) == strip_trailing_seps(v@.subrange(0, k as int)),
        decreases k,
    {
        proof {
            let q = v@.subrange(0, k as int);
            assert(q.drop_last() =~= v@.subrange(0, k - 1));
        }
        k = k - 1;
    }
    proof {
        let q = v@.subrange(0, k as int);
        if k > 0 {
            assert(q.last() == v@[k - 1]);
        }
    }
    let mut out = String::new();
    push_range(&mut out, &v, 0, k);
    push_char(&mut out, sep);
    out.append(name);
    out
}

/// The permission bits shown for a local entry: `0o755` for a directory,
/// `0o644` for a file.
pub fn local_mode(is_dir: bool) -> (m: u32)
    ensures
        m == if is_dir { 0o755u32 } else { 0o644u32 },
{
    if is_dir {
        0o755
    } else {
        0o644
    }
}

} // verus!

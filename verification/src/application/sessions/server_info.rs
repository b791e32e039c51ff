//! Parsing of the one-shot server information probe (`uname -s -r -m; hostname`).

use vstd::prelude::*;

use crate::text::{
    is_ws, is_ws_char, lemma_trim_range, skip_ws_backward, skip_ws_forward, string_of_range, trim,
    chars_of,
};

verus! {

/// Basic server information collected after connecting.
#[derive(Debug, Clone, Default, PartialEq, Eq)]
pub struct ServerInfo {
    /// Host name.
    pub hostname: Option<String>,
    /// Operating system (such as Linux).
    pub os: Option<String>,
    /// Kernel version.
    pub kernel: Option<String>,
    /// Architecture.
    pub arch: Option<String>,
}

/// The text of an optional string.
pub open spec fn opt_text(s: Option<String>) -> Option<Seq<char>> {
    match s {
        Some(v) => Some(v@),
        None => None,
    }
}

/// The texts held by a vector of character vectors.
pub open spec fn texts(ls: Seq<Vec<char>>) -> Seq<Seq<char>> {
    Seq::new(ls.len(), |j: int| ls[j]@)
}

/// `s` cut at every `'\n'` (always at least one piece).
pub open spec fn split_lines(s: Seq<char>) -> Seq<Seq<char>>
    decreases s.len(),
{
    if s.len() == 0 {
        seq![Seq::<char>::empty()]
    } else {
        let r = split_lines(s.drop_last());
        if s.last() == '\n' {
            r.push(Seq::<char>::empty())
        } else {
            r.update(r.len() - 1, r.last().push(s.last()))
        }
    }
}

/// The trimmed lines that are not blank, in order.
pub open spec fn kept_lines(ls: Seq<Seq<char>>) -> Seq<Seq<char>>
    decreases ls.len(),
{
    if ls.len() == 0 {
        Seq::empty()
    } else {
        let r = kept_lines(ls.drop_last());
        let t = trim(ls.last());
        if t.len() > 0 {
            r.push(t)
        } else {
            r
        }
    }
}

/// The whitespace-separated words of `s` (`str::split_whitespace`).
pub open spec fn words(s: Seq<char>) -> Seq<Seq<char>>
    decreases s.len(),
{
    if s.len() == 0 {
        Seq::empty()
    } else {
        let r = words(s.drop_last());
        let c = s.last();
        if is_ws(c) {
            r
        } else if s.len() >= 2 && !is_ws(s[s.len() - 2]) && r.len() > 0 {
            r.update(r.len() - 1, r.last().push(c))
        } else {
            r.push(seq![c])
        }
    }
}

/// The `i`-th element of `s`, if any.
pub open spec fn nth(s: Seq<Seq<char>>, i: int) -> Option<Seq<char>> {
    if 0 <= i < s.len() {
        Some(s[i])
    } else {
        None
    }
}

/// What the probe output says: the first non-blank line is `os kernel arch`,
/// the second the host name; whatever is missing stays unknown.
pub open spec fn parsed_hostname(output: Seq<char>) -> Option<Seq<char>> {
    nth(kept_lines(split_lines(output)), 1)
}

/// The `i`-th word of the first non-blank line.
pub open spec fn parsed_field(output: Seq<char>, i: int) -> Option<Seq<char>> {
    let ls = kept_lines(split_lines(output));
    if ls.len() > 0 {
        nth(words(ls[0]), i)
    } else {
        None
    }
}

/// The lines of `v`, cut at `'\n'`.
fn split_lines_exec(v: &Vec<char>) -> (ls: Vec<Vec<char>>)
    ensures
        texts(ls@) == split_lines(v@),
{
    let mut ls: Vec<Vec<char>> = Vec::new();
    let mut cur: Vec<char> = Vec::new();
    let mut i: usize = 0;
    assert(v@.subrange(0, 0) =~= Seq::<char>::empty());
    while i < v.len()
        invariant
            i <= v@.len(),
            split_lines(v@.subrange(0, i as int)) == texts(ls@).push(cur@),
        decreases v@.len() - i,
    {
        let c = v[i];
        proof {
            let p = v@.subrange(0, i + 1);
            assert(p.drop_last() =~= v@.subrange(0, i as int));
            assert(p.last() == c);
        }
        let ghost prev = split_lines(v@.subrange(0, i as int));
        let ghost old_ls = ls@;
        if c == '\n' {
            let done = cur;
            ls.push(done);
            cur = Vec::new();
            proof {
                assert(texts(ls@) =~= texts(old_ls).push(done@));
                assert(texts(ls@).push(cur@) =~= prev.push(Seq::<char>::empty()));
            }
        } else {
            cur.push(c);
            proof {
                assert(texts(ls@).push(cur@) =~= prev.update(prev.len() - 1, prev.last().push(c)));
            }
        }
        i = i + 1;
    }
    assert(v@.subrange(0, v@.len() as int) =~= v@);
    let ghost old_ls = ls@;
    ls.push(cur);
    assert(texts(ls@) =~= texts(old_ls).push(cur@));
    ls
}

/// The trimmed non-blank lines.
fn kept_lines_exec(ls: &Vec<Vec<char>>) -> (kept: Vec<Vec<char>>)
    ensures
        texts(kept@) == kept_lines(texts(ls@)),
{
    let mut kept: Vec<Vec<char>> = Vec::new();
    let mut i: usize = 0;
    while i < ls.len()
        invariant
            i <= ls@.len(),
            texts(kept@) == kept_lines(texts(ls@).subrange(0, i as int)),
        decreases ls@.len() - i,
    {
        let line = &ls[i];
        let n = line.len();
        let a = skip_ws_forward(line, 0, n);
        let b = skip_ws_backward(line, a, n);
        proof {
            lemma_trim_range(line@, 0, a as int, b as int, n as int);
            assert(line@.subrange(0, n as int) =~= line@);
            let p = texts(ls@).subrange(0, i + 1);
            assert(p.drop_last() =~= texts(ls@).subrange(0, i as int));
            assert(p.last() == line@);
        }
        if a < b {
            let mut t: Vec<char> = Vec::new();
            let mut k = a;
            while k < b
                invariant
                    a <= k <= b,
                    b <= line@.len(),
                    t@ == line@.subrange(a as int, k as int),
                decreases b - k,
            {
                t.push(line[k]);
                k = k + 1;
                assert(t@ =~= line@.subrange(a as int, k as int));
            }
            let ghost old_kept = kept@;
            kept.push(t);
            proof {
                assert(texts(kept@) =~= texts(old_kept).push(t@));
                assert(texts(kept@) =~= kept_lines(texts(ls@).subrange(0, i as int)).push(
                    line@.subrange(a as int, b as int),
                ));
            }
        }
        i = i + 1;
    }
    assert(texts(ls@).subrange(0, ls@.len() as int) =~= texts(ls@));
    kept
}

/// The words of `v`.
fn words_exec(v: &Vec<char>) -> (ws: Vec<Vec<char>>)
    ensures
        texts(ws@) == words(v@),
{
    let mut ws: Vec<Vec<char>> = Vec::new();
    let mut i: usize = 0;
    assert(v@.subrange(0, 0) =~= Seq::<char>::empty());
    while i < v.len()
        invariant
            i <= v@.len(),
            texts(ws@) == words(v@.subrange(0, i as int)),
            i > 0 && !is_ws(v@[i - 1]) ==> ws@.len() > 0,
        decreases v@.len() - i,
    {
        let c = v[i];
        let ghost p = v@.subrange(0, i + 1);
        proof {
            assert(p.drop_last() =~= v@.subrange(0, i as int));
            assert(p.last() == c);
            if i >= 1 {
                assert(p[p.len() - 2] == v@[i - 1]);
            }
        }
        if is_ws_char(c) {
        } else if i >= 1 && !is_ws_char(v[i - 1]) {
            let ghost old_ws = ws@;
            let last = ws.len() - 1;
            let mut w = ws.remove(last);
            w.push(c);
            ws.push(w);
            proof {
                let r = words(v@.subrange(0, i as int));
                assert(ws@ =~= old_ws.update(last as int, w));
                assert(texts(ws@) =~= r.update(r.len() - 1, r.last().push(c)));
            }
        } else {
            let ghost old_ws = ws@;
            let mut w: Vec<char> = Vec::new();
            w.push(c);
            ws.push(w);
            assert(texts(ws@) =~= texts(old_ws).push(w@));
            proof {
                let r = words(v@.subrange(0, i as int));
                assert(w@ =~= seq![c]);
                assert(texts(ws@) =~= r.push(seq![c]));
            }
        }
        i = i + 1;
    }
    assert(v@.subrange(0, v@.len() as int) =~= v@);
    ws
}

/// The `i`-th element of `s` as a `String`, if any.
fn nth_string(s: &Vec<Vec<char>>, i: usize) -> (r: Option<String>)
    ensures
        opt_text(r) == nth(texts(s@), i as int),
{
    if i < s.len() {
        let w = &s[i];
        let t = string_of_range(w, 0, w.len());
        assert(w@.subrange(0, w@.len() as int) =~= w@);
        Some(t)
    } else {
        None
    }
}

/// Parses the output of `uname -s -r -m; hostname`.
///
/// The first non-blank line is `os kernel arch`, the second the host name; any
/// missing part is left unknown (a limited shell must not fail the connection).
pub fn parse(output: &str) -> (info: ServerInfo)
    ensures
        opt_text(info.os) == parsed_field(output@, 0),
        opt_text(info.kernel) == parsed_field(output@, 1),
        opt_text(info.arch) == parsed_field(output@, 2),
        opt_text(info.hostname) == parsed_hostname(output@),
{
    let v = chars_of(output);
    let ls = split_lines_exec(&v);
    let kept = kept_lines_exec(&ls);
    let mut info = ServerInfo { hostname: None, os: None, kernel: None, arch: None };
    if kept.len() > 0 {
        let ws = words_exec(&kept[0]);
        info.os = nth_string(&ws, 0);
        info.kernel = nth_string(&ws, 1);
        info.arch = nth_string(&ws, 2);
    }
    info.hostname = nth_string(&kept, 1);
    info
}

} // verus!

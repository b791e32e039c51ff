//! Character-level text helpers shared by the parsers and validators:
//! Unicode whitespace, trimming, blank checks, lexicographic order,
//! decimal rendering and conversions between `&str`, `Vec<char>` and `String`.

use vstd::prelude::*;

verus! {

/// The Unicode `White_Space` property, as `char::is_whitespace` documents it.
pub open spec fn is_ws(c: char) -> bool {
    let u = c as u32;
    ||| 0x9 <= u <= 0xd
    ||| u == 0x20
    ||| u == 0x85
    ||| u == 0xa0
    ||| u == 0x1680
    ||| 0x2000 <= u <= 0x200a
    ||| u == 0x2028
    ||| u == 0x2029
    ||| u == 0x202f
    ||| u == 0x205f
    ||| u == 0x3000
}

/// A text is blank when every character is whitespace (the empty text included);
/// this is exactly when `trim()` yields the empty string.
pub open spec fn is_blank(s: Seq<char>) -> bool {
    forall|i: int| 0 <= i < s.len() ==> #[trigger] is_ws(s[i])
}

/// `s` with its leading whitespace removed.
pub open spec fn trim_start(s: Seq<char>) -> Seq<char>
    decreases s.len(),
{
    if s.len() > 0 && is_ws(s[0]) {
        trim_start(s.drop_first())
    } else {
        s
    }
}

/// `s` with its trailing whitespace removed.
pub open spec fn trim_end(s: Seq<char>) -> Seq<char>
    decreases s.len(),
{
    if s.len() > 0 && is_ws(s.last()) {
        trim_end(s.drop_last())
    } else {
        s
    }
}

/// `s` with leading and trailing whitespace removed (`str::trim`).
pub open spec fn trim(s: Seq<char>) -> Seq<char> {
    trim_end(trim_start(s))
}

/// Strict lexicographic order on character sequences; on Unicode scalar values
/// this is the order `String` compares by (UTF-8 byte order follows code points).
pub open spec fn seq_less(a: Seq<char>, b: Seq<char>) -> bool
    decreases a.len(),
{
    if a.len() == 0 {
        b.len() > 0
    } else if b.len() == 0 {
        false
    } else if (a[0] as u32) < (b[0] as u32) {
        true
    } else if a[0] == b[0] {
        seq_less(a.drop_first(), b.drop_first())
    } else {
        false
    }
}

/// No sequence sorts before itself.
pub proof fn lemma_seq_less_irreflexive(a: Seq<char>)
    ensures
        !seq_less(a, a),
    decreases a.len(),
{
    if a.len() > 0 {
        lemma_seq_less_irreflexive(a.drop_first());
    }
}

/// The order of `seq_less` is transitive.
pub proof fn lemma_seq_less_transitive(a: Seq<char>, b: Seq<char>, c: Seq<char>)
    requires
        seq_less(a, b),
        seq_less(b, c),
    ensures
        seq_less(a, c),
    decreases a.len(),
{
    if a.len() > 0 && b.len() > 0 && c.len() > 0 && a[0] == b[0] && b[0] == c[0] {
        lemma_seq_less_transitive(a.drop_first(), b.drop_first(), c.drop_first());
    }
}

/// Any two sequences are equal or one sorts before the other.
pub proof fn lemma_seq_less_total(a: Seq<char>, b: Seq<char>)
    ensures
        seq_less(a, b) || a == b || seq_less(b, a),
    decreases a.len(),
{
    if a.len() == 0 && b.len() == 0 {
        assert(a =~= b);
    } else if a.len() > 0 && b.len() > 0 && a[0] == b[0] {
        lemma_seq_less_total(a.drop_first(), b.drop_first());
        if a.drop_first() == b.drop_first() {
            assert(a =~= seq![a[0]] + a.drop_first());
            assert(b =~= seq![b[0]] + b.drop_first());
        }
    } else if a.len() > 0 && b.len() > 0 {
        let x = a[0];
        let y = b[0];
        vstd::utf8::char_u32_cast(x, x as u32);
        vstd::utf8::char_u32_cast(y, y as u32);
        assert((x as u32) != (y as u32));
    }
}

/// The decimal digit character for `d < 10`.
pub open spec fn digit_char(d: nat) -> char {
    if d == 0 { '0' }
    else if d == 1 { '1' }
    else if d == 2 { '2' }
    else if d == 3 { '3' }
    else if d == 4 { '4' }
    else if d == 5 { '5' }
    else if d == 6 { '6' }
    else if d == 7 { '7' }
    else if d == 8 { '8' }
    else { '9' }
}

/// The decimal rendering of `n`, without sign or leading zeros (`"0"` for zero).
pub open spec fn decimal(n: nat) -> Seq<char>
    decreases n,
{
    if n < 10 {
        seq![digit_char(n)]
    } else {
        decimal(n / 10).push(digit_char(n % 10))
    }
}

/// Whether `c` is whitespace (`char::is_whitespace`).
pub fn is_ws_char(c: char) -> (b: bool)
    ensures
        b == is_ws(c),
{
    let u = c as u32;
    (0x9 <= u && u <= 0xd) || u == 0x20 || u == 0x85 || u == 0xa0 || u == 0x1680 || (0x2000 <= u
        && u <= 0x200a) || u == 0x2028 || u == 0x2029 || u == 0x202f || u == 0x205f || u == 0x3000
}

/// The characters of `s`, in order.
pub fn chars_of(s: &str) -> (v: Vec<char>)
    ensures
        v@ == s@,
{
    let n = s.unicode_len();
    let mut v: Vec<char> = Vec::new();
    let mut i: usize = 0;
    while i < n
        invariant
            n == s@.len(),
            i <= n,
            v@ == s@.subrange(0, i as int),
        decreases n - i,
    {
        let c = s.get_char(i);
        v.push(c);
        i = i + 1;
        assert(v@ =~= s@.subrange(0, i as int));
    }
    assert(v@ =~= s@);
    v
}

/// Whether `pat` occurs in `s` as a contiguous run.
pub open spec fn contains_run(s: Seq<char>, pat: Seq<char>) -> bool {
    exists|i: int| 0 <= i && i + pat.len() <= s.len() && #[trigger] s.subrange(i, i + pat.len()) == pat
}

/// Whether `v[at..]` starts with `p`.
fn starts_at(v: &Vec<char>, p: &Vec<char>, at: usize) -> (b: bool)
    requires
        at + p@.len() <= v@.len(),
    ensures
        b == (v@.subrange(at as int, at + p@.len()) == p@),
{
    let vlen = v.len();
    let mut j: usize = 0;
    while j < p.len()
        invariant
            vlen == v@.len(),
            at + p@.len() <= v@.len(),
            j <= p@.len(),
            forall|q: int| 0 <= q < j ==> v@[at + q] == p@[q],
        decreases p@.len() - j,
    {
        if v[at + j] != p[j] {
            assert(v@.subrange(at as int, at + p@.len())[j as int] != p@[j as int]);
            return false;
        }
        j = j + 1;
    }
    assert(v@.subrange(at as int, at + p@.len()) =~= p@);
    true
}

/// Whether `pat` occurs in `s` (`str::contains`).
pub fn str_contains(s: &str, pat: &str) -> (b: bool)
    ensures
        b == contains_run(s@, pat@),
{
    let v = chars_of(s);
    let p = chars_of(pat);
    if p.len() > v.len() {
        return false;
    }
    let last = v.len() - p.len();
    let mut i: usize = 0;
    while i < last
        invariant
            i <= last,
            last + p@.len() == v@.len(),
            v@ == s@,
            p@ == pat@,
            forall|q: int| 0 <= q < i ==> #[trigger] v@.subrange(q, q + p@.len()) != p@,
        decreases last - i,
    {
        if starts_at(&v, &p, i) {
            return true;
        }
        i = i + 1;
    }
    if starts_at(&v, &p, last) {
        return true;
    }
    assert forall|q: int| 0 <= q && q + pat@.len() <= s@.len() implies #[trigger] s@.subrange(q, q + pat@.len()) != pat@ by {
        assert(q <= last);
        assert(v@.subrange(q, q + p@.len()) != p@);
    }
    false
}

/// Appends one character (`String::push`).
#[verifier::external_body]
pub fn push_char(s: &mut String, c: char)
    ensures
        final(s)@ == old(s)@.push(c),
{
    s.push(c);
}

/// A `String` holding `chars[from..to]`.
pub fn string_of_range(chars: &Vec<char>, from: usize, to: usize) -> (s: String)
    requires
        from <= to <= chars@.len(),
    ensures
        s@ == chars@.subrange(from as int, to as int),
{
    let mut s = String::new();
    let mut i = from;
    while i < to
        invariant
            from <= i <= to,
            to <= chars@.len(),
            s@ == chars@.subrange(from as int, i as int),
        decreases to - i,
    {
        push_char(&mut s, chars[i]);
        i = i + 1;
        assert(s@ =~= chars@.subrange(from as int, i as int));
    }
    s
}

/// Index of the first non-whitespace character of `v[from..to]`, or `to`.
pub fn skip_ws_forward(v: &Vec<char>, from: usize, to: usize) -> (k: usize)
    requires
        from <= to <= v@.len(),
    ensures
        from <= k <= to,
        forall|i: int| from <= i < k ==> is_ws(#[trigger] v@[i]),
        k < to ==> !is_ws(v@[k as int]),
{
    let mut k = from;
    while k < to && is_ws_char(v[k])
        invariant
            from <= k <= to,
            to <= v@.len(),
            forall|i: int| from <= i < k ==> is_ws(#[trigger] v@[i]),
        decreases to - k,
    {
        k = k + 1;
    }
    k
}

/// One past the last non-whitespace character of `v[from..to]`, or `from`.
pub fn skip_ws_backward(v: &Vec<char>, from: usize, to: usize) -> (k: usize)
    requires
        from <= to <= v@.len(),
    ensures
        from <= k <= to,
        forall|i: int| k <= i < to ==> is_ws(#[trigger] v@[i]),
        k > from ==> !is_ws(v@[k - 1]),
{
    let mut k = to;
    while k > from && is_ws_char(v[k - 1])
        invariant
            from <= k <= to,
            to <= v@.len(),
            forall|i: int| k <= i < to ==> is_ws(#[trigger] v@[i]),
        decreases k - from,
    {
        k = k - 1;
    }
    k
}

/// Leading whitespace of `s` is exactly its first `k` characters.
pub proof fn lemma_trim_start_at(s: Seq<char>, k: int)
    requires
        0 <= k <= s.len(),
        forall|i: int| 0 <= i < k ==> is_ws(#[trigger] s[i]),
        k < s.len() ==> !is_ws(s[k]),
    ensures
        trim_start(s) == s.subrange(k, s.len() as int),
    decreases k,
{
    if k == 0 {
        assert(s.subrange(0, s.len() as int) =~= s);
    } else {
        assert(is_ws(s[0]));
        let t = s.drop_first();
        assert forall|i: int| 0 <= i < k - 1 implies is_ws(#[trigger] t[i]) by {
            assert(t[i] == s[i + 1]);
        }
        lemma_trim_start_at(t, k - 1);
        assert(t.subrange(k - 1, t.len() as int) =~= s.subrange(k, s.len() as int));
    }
}

/// Trailing whitespace of `s` is exactly its characters from `k` on.
pub proof fn lemma_trim_end_at(s: Seq<char>, k: int)
    requires
        0 <= k <= s.len(),
        forall|i: int| k <= i < s.len() ==> is_ws(#[trigger] s[i]),
        k > 0 ==> !is_ws(s[k - 1]),
    ensures
        trim_end(s) == s.subrange(0, k),
    decreases s.len() - k,
{
    if k == s.len() {
        assert(s.subrange(0, k) =~= s);
    } else {
        assert(is_ws(s.last()));
        let t = s.drop_last();
        assert forall|i: int| k <= i < t.len() implies is_ws(#[trigger] t[i]) by {
            assert(t[i] == s[i]);
        }
        lemma_trim_end_at(t, k);
        assert(t.subrange(0, k) =~= s.subrange(0, k));
    }
}

/// The trimmed text of `v[from..to]` lies between the two whitespace scans.
pub proof fn lemma_trim_range(v: Seq<char>, from: int, a: int, b: int, to: int)
    requires
        0 <= from <= a <= to <= v.len(),
        forall|i: int| from <= i < a ==> is_ws(#[trigger] v[i]),
        a < to ==> !is_ws(v[a]),
        a <= b <= to,
        forall|i: int| b <= i < to ==> is_ws(#[trigger] v[i]),
        b > a ==> !is_ws(v[b - 1]),
    ensures
        trim(v.subrange(from, to)) == v.subrange(a, b),
{
    let s = v.subrange(from, to);
    assert forall|i: int| 0 <= i < a - from implies is_ws(#[trigger] s[i]) by {
        assert(s[i] == v[from + i]);
    }
    if a < to {
        assert(s[a - from] == v[a]);
    }
    lemma_trim_start_at(s, a - from);
    let t = s.subrange(a - from, s.len() as int);
    assert(t =~= v.subrange(a, to));
    assert forall|i: int| b - a <= i < t.len() implies is_ws(#[trigger] t[i]) by {
        assert(t[i] == v[a + i]);
    }
    if b > a {
        assert(t[b - a - 1] == v[b - 1]);
    }
    lemma_trim_end_at(t, b - a);
    assert(t.subrange(0, b - a) =~= v.subrange(a, b));
}

/// Trimmed text is blank exactly when the text is blank.
pub proof fn lemma_trim_blank(v: Seq<char>, from: int, a: int, to: int)
    requires
        0 <= from <= a <= to <= v.len(),
        forall|i: int| from <= i < a ==> is_ws(#[trigger] v[i]),
        a < to ==> !is_ws(v[a]),
    ensures
        is_blank(v.subrange(from, to)) <==> a == to,
{
    let s = v.subrange(from, to);
    if a == to {
        assert forall|i: int| 0 <= i < s.len() implies #[trigger] is_ws(s[i]) by {
            assert(s[i] == v[from + i]);
        }
    } else {
        assert(s[a - from] == v[a]);
        assert(!is_ws(s[a - from]));
    }
}

/// Whether `s` is blank (`s.trim().is_empty()`).
pub fn str_is_blank(s: &str) -> (b: bool)
    ensures
        b == is_blank(s@),
{
    let v = chars_of(s);
    let n = v.len();
    let a = skip_ws_forward(&v, 0, n);
    proof {
        lemma_trim_blank(v@, 0, a as int, n as int);
        assert(v@.subrange(0, n as int) =~= v@);
    }
    a == n
}

/// `s.trim()` as an owned `String`.
pub fn trimmed(s: &str) -> (t: String)
    ensures
        t@ == trim(s@),
{
    let v = chars_of(s);
    let n = v.len();
    let a = skip_ws_forward(&v, 0, n);
    let b = skip_ws_backward(&v, a, n);
    proof {
        lemma_trim_range(v@, 0, a as int, b as int, n as int);
        assert(v@.subrange(0, n as int) =~= v@);
    }
    string_of_range(&v, a, b)
}

/// `a < b` in lexicographic order.
pub fn str_less(a: &str, b: &str) -> (r: bool)
    ensures
        r == seq_less(a@, b@),
{
    let x = chars_of(a);
    let y = chars_of(b);
    let mut i: usize = 0;
    assert(a@.skip(0) =~= a@);
    assert(b@.skip(0) =~= b@);
    while i < x.len() && i < y.len() && x[i] == y[i]
        invariant
            x@ == a@,
            y@ == b@,
            i <= x@.len(),
            i <= y@.len(),
            forall|j: int| 0 <= j < i ==> x@[j] == y@[j],
            seq_less(a@, b@) == seq_less(a@.skip(i as int), b@.skip(i as int)),
        decreases x@.len() - i,
    {
        proof {
            let s = a@.skip(i as int);
            let t = b@.skip(i as int);
            assert(s.drop_first() =~= a@.skip(i + 1));
            assert(t.drop_first() =~= b@.skip(i + 1));
        }
        i = i + 1;
    }
    let s = Ghost(a@.skip(i as int));
    let t = Ghost(b@.skip(i as int));
    if i == x.len() {
        assert(s@.len() == 0);
        i < y.len()
    } else if i == y.len() {
        assert(t@.len() == 0);
        false
    } else {
        assert(s@[0] == x@[i as int]);
        assert(t@[0] == y@[i as int]);
        (x[i] as u32) < (y[i] as u32)
    }
}

/// The decimal digit character for `d < 10`.
pub fn digit(d: u64) -> (c: char)
    requires
        d < 10,
    ensures
        c == digit_char(d as nat),
{
    if d == 0 { '0' }
    else if d == 1 { '1' }
    else if d == 2 { '2' }
    else if d == 3 { '3' }
    else if d == 4 { '4' }
    else if d == 5 { '5' }
    else if d == 6 { '6' }
    else if d == 7 { '7' }
    else if d == 8 { '8' }
    else { '9' }
}

/// Appends the decimal rendering of `n` to `out`.
pub fn push_decimal(out: &mut String, n: u64)
    ensures
        final(out)@ == old(out)@ + decimal(n as nat),
    decreases n,
{
    if n < 10 {
        push_char(out, digit(n));
        assert(decimal(n as nat) =~= seq![digit_char(n as nat)]);
    } else {
        push_decimal(out, n / 10);
        push_char(out, digit(n % 10));
        assert(decimal(n as nat) == decimal((n / 10) as nat).push(digit_char((n % 10) as nat)));
    }
}


/// `s` without its trailing run of `c` (`str::trim_end_matches(c)`).
pub open spec fn strip_trailing(s: Seq<char>, c: char) -> Seq<char>
    decreases s.len(),
{
    if s.len() > 0 && s.last() == c {
        strip_trailing(s.drop_last(), c)
    } else {
        s
    }
}

/// Index of the last `c` in `s` (`str::rfind(c)`, counted in characters).
pub open spec fn last_index_of(s: Seq<char>, c: char) -> Option<int>
    decreases s.len(),
{
    if s.len() == 0 {
        None
    } else if s.last() == c {
        Some(s.len() - 1)
    } else {
        last_index_of(s.drop_last(), c)
    }
}

/// `to` minus the trailing run of `c` in `v[..to]`.
pub fn strip_trailing_len(v: &Vec<char>, to: usize, c: char) -> (k: usize)
    requires
        to <= v@.len(),
    ensures
        k <= to,
        strip_trailing(v@.subrange(0, to as int), c) == v@.subrange(0, k as int),
{
    let mut k = to;
    while k > 0 && v[k - 1] == c
        invariant
            k <= to <= v@.len(),
            strip_trailing(v@.subrange(0, to as int), c) == strip_trailing(v@.subrange(0, k as int), c),
        decreases k,
    {
        proof {
            let p = v@.subrange(0, k as int);
            assert(p.drop_last() =~= v@.subrange(0, k - 1));
        }
        k = k - 1;
    }
    proof {
        let p = v@.subrange(0, k as int);
        if k > 0 {
            assert(p.last() == v@[k - 1]);
        }
    }
    k
}

/// Index of the last `c` in `v[..to]`.
pub fn find_last(v: &Vec<char>, to: usize, c: char) -> (r: Option<usize>)
    requires
        to <= v@.len(),
    ensures
        last_index_of(v@.subrange(0, to as int), c) == (match r {
            Some(i) => Some(i as int),
            None => None::<int>,
        }),
        r matches Some(i) ==> i < to,
{
    let mut k = to;
    while k > 0 && v[k - 1] != c
        invariant
            k <= to <= v@.len(),
            last_index_of(v@.subrange(0, to as int), c) == last_index_of(v@.subrange(0, k as int), c),
        decreases k,
    {
        proof {
            let p = v@.subrange(0, k as int);
            assert(p.drop_last() =~= v@.subrange(0, k - 1));
        }
        k = k - 1;
    }
    if k == 0 {
        None
    } else {
        assert(v@.subrange(0, k as int).last() == v@[k - 1]);
        Some(k - 1)
    }
}

/// Appends `v[from..to]` to `out`.
pub fn push_range(out: &mut String, v: &Vec<char>, from: usize, to: usize)
    requires
        from <= to <= v@.len(),
    ensures
        final(out)@ == old(out)@ + v@.subrange(from as int, to as int),
{
    let mut i = from;
    while i < to
        invariant
            from <= i <= to <= v@.len(),
            out@ == old(out)@ + v@.subrange(from as int, i as int),
        decreases to - i,
    {
        push_char(out, v[i]);
        i = i + 1;
        assert(out@ =~= old(out)@ + v@.subrange(from as int, i as int));
    }
}

} // verus!

//! Character-level helpers on strings, specified over `Seq<char>`.
use vstd::prelude::*;
use vstd::string::*;

verus! {

/// Appends one character to a `String` (`String::push`).
#[verifier::external_body]
pub(crate) fn push_char(s: &mut String, c: char)
    ensures
        final(s)@ == old(s)@.push(c),
{
    s.push(c);
}

/// The characters of `s`, in order.
pub fn chars_of(s: &str) -> (v: Vec<char>)
    ensures
        v@ == s@,
{
    let mut v: Vec<char> = Vec::new();
    for c in it: s.chars()
        invariant
            v@ == it.seq().take(it.index() as int),
    {
        v.push(c);
    }
    v
}

/// A `String` holding exactly the characters `v[from..to]`.
pub fn string_of(v: &Vec<char>, from: usize, to: usize) -> (s: String)
    requires
        from <= to <= v.len(),
    ensures
        s@ == v@.subrange(from as int, to as int),
{
    let mut s = String::new();
    let mut i = from;
    while i < to
        invariant
            from <= i <= to <= v.len(),
            s@ == v@.subrange(from as int, i as int),
        decreases to - i,
    {
        push_char(&mut s, v[i]);
        assert(v@.subrange(from as int, i + 1) =~= v@.subrange(from as int, i as int).push(v@[i as int]));
        i = i + 1;
    }
    s
}


/// Unicode `White_Space` property, as `char::is_whitespace` tests it.
pub open spec fn is_whitespace(c: char) -> bool {
    let x = c as u32;
    ||| 0x9 <= x <= 0xD
    ||| x == 0x20
    ||| x == 0x85
    ||| x == 0xA0
    ||| x == 0x1680
    ||| 0x2000 <= x <= 0x200A
    ||| x == 0x2028
    ||| x == 0x2029
    ||| x == 0x202F
    ||| x == 0x205F
    ||| x == 0x3000
}

/// Every character of `s` is whitespace (so `s.trim()` is empty).
pub open spec fn all_whitespace(s: Seq<char>) -> bool {
    forall|i: int| 0 <= i < s.len() ==> is_whitespace(#[trigger] s[i])
}

/// `s` without its leading whitespace.
pub open spec fn trim_start(s: Seq<char>) -> Seq<char>
    decreases s.len(),
{
    if s.len() > 0 && is_whitespace(s[0]) {
        trim_start(s.drop_first())
    } else {
        s
    }
}

/// `s` without its trailing whitespace.
pub open spec fn trim_end(s: Seq<char>) -> Seq<char>
    decreases s.len(),
{
    if s.len() > 0 && is_whitespace(s.last()) {
        trim_end(s.drop_last())
    } else {
        s
    }
}

/// `str::trim`: `s` without leading and trailing whitespace.
pub open spec fn trim(s: Seq<char>) -> Seq<char> {
    trim_end(trim_start(s))
}

/// `pat` occurs in `s` starting at position `i`.
pub open spec fn occurs_at(s: Seq<char>, pat: Seq<char>, i: int) -> bool {
    &&& 0 <= i
    &&& i + pat.len() <= s.len()
    &&& s.subrange(i, i + pat.len()) == pat
}

/// `str::contains`: `pat` occurs somewhere in `s`.
pub open spec fn contains(s: Seq<char>, pat: Seq<char>) -> bool {
    exists|i: int| #[trigger] occurs_at(s, pat, i)
}

/// `str::starts_with`.
pub open spec fn starts_with(s: Seq<char>, pat: Seq<char>) -> bool {
    occurs_at(s, pat, 0)
}

/// `str::ends_with`.
pub open spec fn ends_with(s: Seq<char>, pat: Seq<char>) -> bool {
    occurs_at(s, pat, s.len() - pat.len())
}

/// `to` before, between and after the characters of `s`: what replacing
/// the empty pattern gives, since it matches at every character boundary.
pub open spec fn interleave(s: Seq<char>, to: Seq<char>) -> Seq<char>
    decreases s.len(),
{
    if s.len() == 0 {
        to
    } else {
        to + seq![s[0]] + interleave(s.drop_first(), to)
    }
}

/// `str::replace`: every non-overlapping occurrence of `from`, searched
/// from the left, is replaced by `to`. The empty pattern matches at every
/// character boundary.
pub open spec fn replace_all(s: Seq<char>, from: Seq<char>, to: Seq<char>) -> Seq<char>
    decreases s.len(),
{
    if from.len() == 0 {
        interleave(s, to)
    } else if s.len() == 0 {
        s
    } else if occurs_at(s, from, 0) {
        to + replace_all(s.skip(from.len() as int), from, to)
    } else {
        seq![s[0]] + replace_all(s.drop_first(), from, to)
    }
}

/// Position of the first `c` in `s`, or -1.
pub open spec fn find_char(s: Seq<char>, c: char) -> int
    decreases s.len(),
{
    if s.len() == 0 {
        -1
    } else if s[0] == c {
        0
    } else {
        let r = find_char(s.drop_first(), c);
        if r < 0 {
            -1
        } else {
            r + 1
        }
    }
}

/// Position of the last `c` in `s`, or -1.
pub open spec fn rfind_char(s: Seq<char>, c: char) -> int
    decreases s.len(),
{
    if s.len() == 0 {
        -1
    } else if s.last() == c {
        s.len() - 1
    } else {
        rfind_char(s.drop_last(), c)
    }
}

/// `str::split` on a one-character pattern: the pieces between the `sep`s.
pub open spec fn split(s: Seq<char>, sep: char) -> Seq<Seq<char>>
    decreases s.len(),
{
    let i = find_char(s, sep);
    proof {
        lemma_find_char(s, sep);
    }
    if i < 0 {
        seq![s]
    } else {
        seq![s.take(i)] + split(s.skip(i + 1), sep)
    }
}

/// `find_char` is the first position of `c`.
pub proof fn lemma_find_char(s: Seq<char>, c: char)
    ensures
        -1 <= find_char(s, c) < s.len(),
        find_char(s, c) >= 0 ==> s[find_char(s, c)] == c,
        forall|j: int| 0 <= j < s.len() && (find_char(s, c) < 0 || j < find_char(s, c)) ==> s[j] != c,
    decreases s.len(),
{
    if s.len() > 0 && s[0] != c {
        lemma_find_char(s.drop_first(), c);
        assert forall|j: int| 0 <= j < s.len() && (find_char(s, c) < 0 || j < find_char(s, c)) implies s[j] != c by {
            if j > 0 {
                assert(s[j] == s.drop_first()[j - 1]);
            }
        }
    }
}

/// `rfind_char` is the last position of `c`.
pub proof fn lemma_rfind_char(s: Seq<char>, c: char)
    ensures
        -1 <= rfind_char(s, c) < s.len(),
        rfind_char(s, c) >= 0 ==> s[rfind_char(s, c)] == c,
        forall|j: int| rfind_char(s, c) < j < s.len() ==> s[j] != c,
    decreases s.len(),
{
    if s.len() > 0 && s.last() != c {
        lemma_rfind_char(s.drop_last(), c);
        assert forall|j: int| rfind_char(s, c) < j < s.len() implies s[j] != c by {
            if j < s.len() - 1 {
                assert(s[j] == s.drop_last()[j]);
            }
        }
    }
}

/// A position holding `c` with no `c` before it is what `find_char` finds.
pub proof fn lemma_find_char_at(s: Seq<char>, c: char, k: int)
    requires
        k == -1 || (0 <= k < s.len() && s[k] == c),
        forall|j: int| 0 <= j < s.len() && (k < 0 || j < k) ==> s[j] != c,
    ensures
        find_char(s, c) == k,
{
    lemma_find_char(s, c);
    if find_char(s, c) >= 0 && k >= 0 && find_char(s, c) != k {
        if find_char(s, c) < k {
            assert(s[find_char(s, c)] != c);
        } else {
            assert(s[k] != c);
        }
    }
    if find_char(s, c) < 0 && k >= 0 {
        assert(s[k] != c);
    }
    if find_char(s, c) >= 0 && k < 0 {
        assert(s[find_char(s, c)] != c);
    }
}

/// Trimming leaves nothing exactly when everything is whitespace.
pub proof fn lemma_trim_empty(s: Seq<char>)
    ensures
        (trim(s).len() == 0) == all_whitespace(s),
{
    lemma_trim_start_empty(s);
    if trim_start(s).len() > 0 {
        lemma_trim_end_nonempty(trim_start(s));
    }
}

proof fn lemma_trim_start_empty(s: Seq<char>)
    ensures
        (trim_start(s).len() == 0) == all_whitespace(s),
        trim_start(s).len() > 0 ==> !is_whitespace(trim_start(s)[0]),
    decreases s.len(),
{
    if s.len() > 0 && is_whitespace(s[0]) {
        lemma_trim_start_empty(s.drop_first());
        if all_whitespace(s.drop_first()) {
            assert forall|i: int| 0 <= i < s.len() implies is_whitespace(#[trigger] s[i]) by {
                if i > 0 {
                    assert(s[i] == s.drop_first()[i - 1]);
                }
            }
        } else {
            let i = choose|i: int| 0 <= i < s.drop_first().len() && !is_whitespace(#[trigger] s.drop_first()[i]);
            assert(s[i + 1] == s.drop_first()[i]);
        }
    } else if s.len() > 0 {
        assert(!is_whitespace(s[0]));
    }
}

proof fn lemma_trim_end_nonempty(s: Seq<char>)
    requires
        s.len() > 0,
        !is_whitespace(s[0]),
    ensures
        trim_end(s).len() > 0,
    decreases s.len(),
{
    if is_whitespace(s.last()) {
        if s.len() > 1 {
            lemma_trim_end_nonempty(s.drop_last());
        }
    }
}

proof fn lemma_trim_end_props(s: Seq<char>)
    ensures
        trim_end(s).len() <= s.len(),
        trim_end(s) == s.take(trim_end(s).len() as int),
        trim_end(s).len() > 0 ==> !is_whitespace(trim_end(s).last()),
    decreases s.len(),
{
    if s.len() > 0 && is_whitespace(s.last()) {
        lemma_trim_end_props(s.drop_last());
        assert(s.drop_last().take(trim_end(s).len() as int) =~= s.take(trim_end(s).len() as int));
    } else {
        assert(s.take(s.len() as int) =~= s);
    }
}

/// Trimming twice is trimming once.
pub proof fn lemma_trim_idempotent(s: Seq<char>)
    ensures
        trim(trim(s)) == trim(s),
{
    let t = trim_start(s);
    lemma_trim_start_empty(s);
    let u = trim_end(t);
    lemma_trim_end_props(t);
    if u.len() > 0 {
        assert(u[0] == t[0]);
        assert(!is_whitespace(u[0]));
    }
    assert(trim_start(u) == u);
    lemma_trim_end_props(u);
    assert(trim_end(u) == u);
}

/// Exec counterpart of `is_whitespace`.
pub fn is_whitespace_char(c: char) -> (b: bool)
    ensures
        b == is_whitespace(c),
{
    let x = c as u32;
    (0x9 <= x && x <= 0xD) || x == 0x20 || x == 0x85 || x == 0xA0 || x == 0x1680 || (0x2000 <= x
        && x <= 0x200A) || x == 0x2028 || x == 0x2029 || x == 0x202F || x == 0x205F || x == 0x3000
}

/// `str::trim`.
pub fn trim_str(s: &str) -> (r: String)
    ensures
        r@ == trim(s@),
{
    let v = chars_of(s);
    let n = v.len();
    let mut lo: usize = 0;
    assert(v@.subrange(0, n as int) =~= v@);
    while lo < n && is_whitespace_char(v[lo])
        invariant
            lo <= n == v@.len(),
            v@ == s@,
            trim_start(s@) == trim_start(v@.subrange(lo as int, n as int)),
        decreases n - lo,
    {
        assert(v@.subrange(lo as int, n as int).drop_first() =~= v@.subrange(lo + 1, n as int));
        lo = lo + 1;
    }
    assert(trim_start(v@.subrange(lo as int, n as int)) == v@.subrange(lo as int, n as int));
    let mut hi: usize = n;
    while hi > lo && is_whitespace_char(v[hi - 1])
        invariant
            lo <= hi <= n == v@.len(),
            v@ == s@,
            trim(s@) == trim_end(v@.subrange(lo as int, hi as int)),
        decreases hi,
    {
        assert(v@.subrange(lo as int, hi as int).drop_last() =~= v@.subrange(lo as int, hi - 1));
        hi = hi - 1;
    }
    string_of(&v, lo, hi)
}

/// Whether `pat` occurs in `s` at position `i`.
fn occurs_at_exec(s: &Vec<char>, pat: &Vec<char>, i: usize) -> (b: bool)
    ensures
        b == occurs_at(s@, pat@, i as int),
{
    if i > s.len() || pat.len() > s.len() - i {
        return false;
    }
    let mut j: usize = 0;
    while j < pat.len()
        invariant
            j <= pat.len(),
            i + pat.len() <= s.len(),
            forall|k: int| 0 <= k < j ==> s@[i + k] == pat@[k],
        decreases pat.len() - j,
    {
        if s[i + j] != pat[j] {
            assert(s@.subrange(i as int, i + pat.len())[j as int] != pat@[j as int]);
            return false;
        }
        j = j + 1;
    }
    assert(s@.subrange(i as int, i + pat.len()) =~= pat@);
    true
}

/// String equality on views.
pub fn eq_str(a: &str, b: &str) -> (r: bool)
    ensures
        r == (a@ == b@),
{
    let v = chars_of(a);
    let w = chars_of(b);
    if v.len() != w.len() {
        return false;
    }
    let mut i: usize = 0;
    while i < v.len()
        invariant
            v@ == a@,
            w@ == b@,
            v.len() == w.len(),
            i <= v.len(),
            forall|k: int| 0 <= k < i ==> v@[k] == w@[k],
        decreases v.len() - i,
    {
        if v[i] != w[i] {
            return false;
        }
        i = i + 1;
    }
    assert(v@ =~= w@);
    true
}

/// `str::contains`.
pub fn contains_str(s: &str, pat: &str) -> (b: bool)
    ensures
        b == contains(s@, pat@),
{
    let v = chars_of(s);
    let p = chars_of(pat);
    if p.len() > v.len() {
        assert forall|i: int| !occurs_at(s@, pat@, i) by {}
        return false;
    }
    let lim = v.len() - p.len();
    let mut i: usize = 0;
    loop
        invariant
            v@ == s@,
            p@ == pat@,
            lim == v.len() - p.len(),
            i <= lim,
            forall|k: int| 0 <= k < i ==> !occurs_at(s@, pat@, k),
        decreases lim - i,
    {
        if occurs_at_exec(&v, &p, i) {
            return true;
        }
        if i == lim {
            assert forall|k: int| !occurs_at(s@, pat@, k) by {}
            return false;
        }
        i = i + 1;
    }
}

/// `str::starts_with`.
pub fn starts_with_str(s: &str, pat: &str) -> (b: bool)
    ensures
        b == starts_with(s@, pat@),
{
    let v = chars_of(s);
    let p = chars_of(pat);
    occurs_at_exec(&v, &p, 0)
}

/// `str::ends_with`.
pub fn ends_with_str(s: &str, pat: &str) -> (b: bool)
    ensures
        b == ends_with(s@, pat@),
{
    let v = chars_of(s);
    let p = chars_of(pat);
    if p.len() > v.len() {
        return false;
    }
    occurs_at_exec(&v, &p, v.len() - p.len())
}

/// `to` before, between and after the characters of `s`.
fn interleave_str(s: &str, to: &str) -> (r: String)
    ensures
        r@ == interleave(s@, to@),
{
    let v = chars_of(s);
    let mut out = String::new();
    let mut i: usize = 0;
    assert(v@.skip(0) =~= v@);
    while i < v.len()
        invariant
            v@ == s@,
            i <= v.len(),
            interleave(s@, to@) == out@ + interleave(v@.skip(i as int), to@),
        decreases v.len() - i,
    {
        let ghost rest = v@.skip(i as int);
        assert(rest.drop_first() =~= v@.skip(i + 1));
        let ghost before = out@;
        out.append(to);
        push_char(&mut out, v[i]);
        assert(out@ + interleave(v@.skip(i + 1), to@) =~= before + (to@ + seq![rest[0]]
            + interleave(rest.drop_first(), to@)));
        i = i + 1;
    }
    assert(v@.skip(i as int) =~= Seq::<char>::empty());
    out.append(to);
    out
}

/// `str::replace`.
pub fn replace_str(s: &str, from: &str, to: &str) -> (r: String)
    ensures
        r@ == replace_all(s@, from@, to@),
{
    if from.is_empty() {
        return interleave_str(s, to);
    }
    let v = chars_of(s);
    let f = chars_of(from);
    let mut out = String::new();
    let mut i: usize = 0;
    assert(v@.skip(0) =~= v@);
    while i < v.len()
        invariant
            v@ == s@,
            f@ == from@,
            f.len() > 0,
            i <= v.len(),
            replace_all(s@, from@, to@) == out@ + replace_all(v@.skip(i as int), from@, to@),
        decreases v.len() - i,
    {
        let ghost rest = v@.skip(i as int);
        if occurs_at_exec(&v, &f, i) {
            assert(rest.subrange(0, f@.len() as int) =~= v@.subrange(i as int, i + f@.len()));
            assert(rest.skip(f@.len() as int) =~= v@.skip(i + f@.len()));
            out.append(to);
            i = i + f.len();
        } else {
            assert(!occurs_at(rest, from@, 0)) by {
                if occurs_at(rest, from@, 0) {
                    assert(rest.subrange(0, f@.len() as int) =~= v@.subrange(i as int, i + f@.len()));
                }
            }
            assert(rest.drop_first() =~= v@.skip(i + 1));
            let ghost before = out@;
            push_char(&mut out, v[i]);
            assert(out@ + replace_all(v@.skip(i + 1), from@, to@) =~= before + (seq![rest[0]]
                + replace_all(rest.drop_first(), from@, to@)));
            i = i + 1;
        }
    }
    assert(v@.skip(i as int) =~= Seq::<char>::empty());
    assert(out@ + Seq::<char>::empty() =~= out@);
    out
}

/// The strings' views, in order.
pub open spec fn views(v: Seq<String>) -> Seq<Seq<char>> {
    v.map_values(|x: String| x@)
}

/// `str::split` on a one-character pattern, collected.
pub fn split_str(s: &str, sep: char) -> (r: Vec<String>)
    ensures
        views(r@) == split(s@, sep),
{
    let v = chars_of(s);
    let n = v.len();
    let mut pieces: Vec<String> = Vec::new();
    let mut start: usize = 0;
    let mut i: usize = 0;
    assert(v@.skip(0) =~= v@);
    while i < n
        invariant
            v@ == s@,
            n == v.len(),
            start <= i <= n,
            views(pieces@) + split(v@.skip(start as int), sep) == split(s@, sep),
            forall|j: int| start <= j < i ==> v@[j] != sep,
        decreases n - i,
    {
        if v[i] == sep {
            let ghost rest = v@.skip(start as int);
            proof {
                lemma_find_char_at(rest, sep, i - start);
                assert(rest.take(i - start) =~= v@.subrange(start as int, i as int));
                assert(rest.skip(i - start + 1) =~= v@.skip(i + 1));
            }
            let piece = string_of(&v, start, i);
            let ghost before = pieces@;
            pieces.push(piece);
            assert(views(pieces@) =~= views(before).push(piece@));
            assert(views(pieces@) + split(v@.skip(i + 1), sep) =~= views(before) + split(rest, sep));
            start = i + 1;
        }
        i = i + 1;
    }
    let ghost rest = v@.skip(start as int);
    proof {
        lemma_find_char_at(rest, sep, -1);
        assert(rest =~= v@.subrange(start as int, n as int));
    }
    let piece = string_of(&v, start, n);
    let ghost before = pieces@;
    pieces.push(piece);
    assert(views(pieces@) =~= views(before) + split(rest, sep));
    pieces
}

/// Position of the last `c` among the first `end` characters of `v`.
pub fn rfind_in(v: &Vec<char>, c: char, end: usize) -> (r: Option<usize>)
    requires
        end <= v.len(),
    ensures
        match r {
            Some(k) => k == rfind_char(v@.take(end as int), c),
            None => rfind_char(v@.take(end as int), c) == -1,
        },
{
    let mut i = end;
    while i > 0
        invariant
            i <= end <= v.len(),
            rfind_char(v@.take(end as int), c) == rfind_char(v@.take(i as int), c),
        decreases i,
    {
        if v[i - 1] == c {
            return Some(i - 1);
        }
        assert(v@.take(i as int).drop_last() =~= v@.take(i - 1));
        i = i - 1;
    }
    None
}

/// The lower-case form of `s` as `str::to_lowercase` computes it (full
/// Unicode case mapping).
pub uninterp spec fn lowercase(s: Seq<char>) -> Seq<char>;

/// ASCII lower-casing of one character.
pub open spec fn ascii_lower_char(c: char) -> char {
    if 'A' <= c <= 'Z' {
        ((c as u32) + 32) as char
    } else {
        c
    }
}

/// All characters are ASCII.
pub open spec fn all_ascii(s: Seq<char>) -> bool {
    forall|i: int| 0 <= i < s.len() ==> (#[trigger] s[i] as u32) < 128
}

/// `str::to_lowercase`. The result is the named `lowercase` of the input;
/// on ASCII input it lower-cases exactly the letters `A`..`Z`, as the
/// standard library documents for `char::to_lowercase` on ASCII. What it
/// does to other characters is left to the name.
#[verifier::external_body]
pub(crate) fn to_lowercase(s: &str) -> (r: String)
    ensures
        r@ == lowercase(s@),
        all_ascii(s@) ==> r@ == s@.map_values(|c: char| ascii_lower_char(c)),
{
    s.to_lowercase()
}

} // verus!

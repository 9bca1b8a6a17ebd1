//! Character-level string helpers shared by the library.
//!
//! Strings are reasoned about through their view, the sequence of `char`s.
use vstd::prelude::*;
use vstd::string::*;

verus! {

broadcast use vstd::string::group_string_axioms;

/// The Unicode `White_Space` property, which `char::is_whitespace` and
/// `str::trim` test.
pub open spec fn is_white_space(c: char) -> bool {
    let u = c as u32;
    ||| 0x09 <= u <= 0x0D
    ||| u == 0x20
    ||| u == 0x85
    ||| u == 0xA0
    ||| u == 0x1680
    ||| 0x2000 <= u <= 0x200A
    ||| u == 0x2028
    ||| u == 0x2029
    ||| u == 0x202F
    ||| u == 0x205F
    ||| u == 0x3000
}

/// `s` with leading white space removed.
pub open spec fn trim_start_spec(s: Seq<char>) -> Seq<char>
    decreases s.len(),
{
    if s.len() > 0 && is_white_space(s[0]) {
        trim_start_spec(s.drop_first())
    } else {
        s
    }
}

/// `s` with trailing white space removed.
pub open spec fn trim_end_spec(s: Seq<char>) -> Seq<char>
    decreases s.len(),
{
    if s.len() > 0 && is_white_space(s.last()) {
        trim_end_spec(s.drop_last())
    } else {
        s
    }
}

/// `s` with leading and trailing white space removed.
pub open spec fn trim_spec(s: Seq<char>) -> Seq<char> {
    trim_end_spec(trim_start_spec(s))
}

/// `str::trim`: the slice without leading and trailing characters that have
/// the Unicode `White_Space` property, as its documentation states.
#[verifier::external_body]
pub fn trim(s: &str) -> (r: &str)
    ensures
        r@ == trim_spec(s@),
{
    s.trim()
}

/// `String::push`: appends one character at the end.
#[verifier::external_body]
pub fn push_char(s: &mut String, c: char)
    ensures
        final(s)@ == old(s)@.push(c),
{
    s.push(c)
}

/// The characters of `s`, in order.
pub fn chars_of(s: &str) -> (v: Vec<char>)
    ensures
        v@ == s@,
{
    let mut v: Vec<char> = Vec::new();
    for c in it: s.chars()
        invariant
            v@ == it.seq().take(it.index()),
            it.seq() == s@,
    {
        v.push(c);
    }
    v
}

/// `str::starts_with` for a string pattern: whether `prefix` is a prefix of `s`.
pub fn starts_with(s: &str, prefix: &str) -> (r: bool)
    ensures
        r == prefix@.is_prefix_of(s@),
{
    let sc = chars_of(s);
    let pc = chars_of(prefix);
    if pc.len() > sc.len() {
        return false;
    }
    let mut i: usize = 0;
    while i < pc.len()
        invariant
            sc@ == s@,
            pc@ == prefix@,
            pc.len() <= sc.len(),
            i <= pc.len(),
            forall|j: int| 0 <= j < i ==> sc@[j] == pc@[j],
        decreases pc.len() - i,
    {
        if sc[i] != pc[i] {
            return false;
        }
        i = i + 1;
    }
    assert(prefix@ =~= s@.take(prefix@.len() as int));
    true
}

/// A `String` holding the characters `v`, in order.
pub fn string_of(v: &[char]) -> (r: String)
    ensures
        r@ == v@,
{
    let mut r = String::new();
    let mut i: usize = 0;
    while i < v.len()
        invariant
            i <= v.len(),
            r@ == v@.take(i as int),
        decreases v.len() - i,
    {
        push_char(&mut r, v[i]);
        assert(v@.take(i + 1) =~= v@.take(i as int).push(v@[i as int]));
        i = i + 1;
    }
    assert(v@.take(v.len() as int) =~= v@);
    r
}

/// Appends `v[from..to]` to `s`.
pub fn push_chars(s: &mut String, v: &Vec<char>, from: usize, to: usize)
    requires
        from <= to <= v.len(),
    ensures
        final(s)@ == old(s)@ + v@.subrange(from as int, to as int),
{
    let mut i: usize = from;
    while i < to
        invariant
            from <= i <= to <= v.len(),
            s@ == old(s)@ + v@.subrange(from as int, i as int),
        decreases to - i,
    {
        push_char(s, v[i]);
        assert(v@.subrange(from as int, i + 1) =~= v@.subrange(from as int, i as int).push(
            v@[i as int],
        ));
        i = i + 1;
    }
}

/// `r` is what precedes the first `c` in `s`: all of `s` when `s` holds no
/// `c`. This is the first piece that `s.split(c)` yields.
pub open spec fn is_before_first(r: Seq<char>, s: Seq<char>, c: char) -> bool {
    &&& r.is_prefix_of(s)
    &&& !r.contains(c)
    &&& (r.len() == s.len() || s[r.len() as int] == c)
}

/// `r` is what follows the last `c` in `s`: all of `s` when `s` holds no
/// `c`. This is the last piece that `s.split(c)` yields.
pub open spec fn is_after_last(r: Seq<char>, s: Seq<char>, c: char) -> bool {
    &&& r.is_suffix_of(s)
    &&& !r.contains(c)
    &&& (r.len() == s.len() || s[s.len() - r.len() - 1] == c)
}

/// What precedes the first `c` in `s`, all of `s` when it holds no `c`.
pub open spec fn before_first(s: Seq<char>, c: char) -> Seq<char>
    decreases s.len(),
{
    if s.len() == 0 {
        s
    } else if s[0] == c {
        seq![]
    } else {
        seq![s[0]] + before_first(s.drop_first(), c)
    }
}

/// Only one piece of `s` is what precedes its first `c`.
pub proof fn before_first_is_unique(r: Seq<char>, s: Seq<char>, c: char)
    requires
        is_before_first(r, s, c),
    ensures
        r == before_first(s, c),
    decreases s.len(),
{
    if s.len() > 0 {
        if s[0] == c {
            if r.len() > 0 {
                assert(r[0] == s[0]);
                assert(r.contains(c));
            }
            assert(r =~= seq![]);
        } else {
            if r.len() == 0 {
                assert(s[r.len() as int] == s[0]);
            }
            let r1 = r.drop_first();
            let s1 = s.drop_first();
            assert(r1.is_prefix_of(s1)) by {
                assert(r1 =~= s1.subrange(0, r1.len() as int));
            }
            assert(!r1.contains(c)) by {
                if r1.contains(c) {
                    let k = choose|k: int| 0 <= k < r1.len() && r1[k] == c;
                    assert(r[k + 1] == c);
                }
            }
            assert(r1.len() == s1.len() || s1[r1.len() as int] == c);
            before_first_is_unique(r1, s1, c);
            assert(r =~= seq![s[0]] + r1);
        }
    } else {
        assert(r =~= s);
    }
}

/// Whether `c` occurs in `s`.
pub fn contains_char(s: &str, c: char) -> (r: bool)
    ensures
        r == s@.contains(c),
{
    let v = chars_of(s);
    let mut i: usize = 0;
    while i < v.len()
        invariant
            v@ == s@,
            i <= v.len(),
            forall|j: int| 0 <= j < i ==> v@[j] != c,
        decreases v.len() - i,
    {
        if v[i] == c {
            return true;
        }
        i = i + 1;
    }
    false
}

/// The first piece of `s.split(c)`: what precedes the first `c`.
pub fn split_first<'a>(s: &'a str, c: char) -> (r: &'a str)
    ensures
        is_before_first(r@, s@, c),
        r@ == before_first(s@, c),
{
    let v = chars_of(s);
    let mut i: usize = 0;
    while i < v.len() && v[i] != c
        invariant
            v@ == s@,
            i <= v.len(),
            forall|j: int| 0 <= j < i ==> v@[j] != c,
        decreases v.len() - i,
    {
        i = i + 1;
    }
    let r = s.substring_char(0, i);
    assert(r@ =~= s@.take(i as int));
    assert(!r@.contains(c)) by {
        if r@.contains(c) {
            let k = choose|k: int| 0 <= k < r@.len() && r@[k] == c;
            assert(v@[k] == c);
        }
    }
    proof {
        before_first_is_unique(r@, s@, c);
    }
    r
}

/// The last piece of `s.split(c)`: what follows the last `c`.
pub fn split_last<'a>(s: &'a str, c: char) -> (r: &'a str)
    ensures
        is_after_last(r@, s@, c),
{
    let v = chars_of(s);
    let n = v.len();
    let mut i: usize = n;
    while i > 0 && v[i - 1] != c
        invariant
            v@ == s@,
            n == v.len(),
            i <= n,
            forall|j: int| i <= j < n ==> v@[j] != c,
        decreases i,
    {
        i = i - 1;
    }
    let r = s.substring_char(i, n);
    assert(r@ =~= s@.skip(i as int));
    assert(!r@.contains(c)) by {
        if r@.contains(c) {
            let k = choose|k: int| 0 <= k < r@.len() && r@[k] == c;
            assert(v@[i + k] == c);
        }
    }
    r
}

/// Whether `p` occurs in `v` at position `at`.
pub fn occurs_at(v: &Vec<char>, at: usize, p: &Vec<char>) -> (b: bool)
    requires
        at <= v.len(),
    ensures
        b == p@.is_prefix_of(v@.skip(at as int)),
{
    if p.len() > v.len() - at {
        return false;
    }
    let mut i: usize = 0;
    while i < p.len()
        invariant
            at + p.len() <= v.len(),
            i <= p.len(),
            forall|j: int| 0 <= j < i ==> v@[at + j] == p@[j],
        decreases p.len() - i,
    {
        if v[at + i] != p[i] {
            return false;
        }
        i = i + 1;
    }
    assert(p@ =~= v@.skip(at as int).subrange(0, p@.len() as int));
    true
}

/// `s` with every occurrence of `from` replaced by `to`, matching from the
/// left without overlap (`str::replace` for a non-empty pattern).
pub open spec fn replace_spec(s: Seq<char>, from: Seq<char>, to: Seq<char>) -> Seq<char>
    recommends
        from.len() > 0,
    decreases s.len(),
{
    if s.len() == 0 || from.len() == 0 {
        s
    } else if from.is_prefix_of(s) {
        to + replace_spec(s.skip(from.len() as int), from, to)
    } else {
        seq![s[0]] + replace_spec(s.drop_first(), from, to)
    }
}

/// `str::replace` for a non-empty pattern.
pub fn replace(s: &str, from: &str, to: &str) -> (r: String)
    requires
        from@.len() > 0,
    ensures
        r@ == replace_spec(s@, from@, to@),
{
    let v = chars_of(s);
    let f = chars_of(from);
    let mut out = String::new();
    let mut i: usize = 0;
    assert(v@.skip(0) =~= v@);
    while i < v.len()
        invariant
            v@ == s@,
            f@ == from@,
            f@.len() > 0,
            i <= v.len(),
            out@ + replace_spec(v@.skip(i as int), f@, to@) == replace_spec(v@, f@, to@),
        decreases v.len() - i,
    {
        let ghost rest = v@.skip(i as int);
        if occurs_at(&v, i, &f) {
            assert(rest.skip(f@.len() as int) =~= v@.skip(i + f.len()));
            assert(out@ + to@ + replace_spec(v@.skip(i + f.len()), f@, to@) == out@ + (to@
                + replace_spec(v@.skip(i + f.len()), f@, to@)));
            out.append(to);
            i = i + f.len();
        } else {
            assert(rest.drop_first() =~= v@.skip(i + 1));
            assert(out@.push(v@[i as int]) + replace_spec(v@.skip(i + 1), f@, to@) == out@ + (
            seq![v@[i as int]] + replace_spec(v@.skip(i + 1), f@, to@)));
            push_char(&mut out, v[i]);
            i = i + 1;
        }
    }
    assert(v@.skip(i as int) =~= Seq::<char>::empty());
    assert(out@ + Seq::<char>::empty() =~= out@);
    out
}

/// The number of bytes of `s` in UTF-8.
pub open spec fn utf8_len(s: Seq<char>) -> nat {
    vstd::utf8::encode_utf8(s).len()
}

/// The UTF-8 encoding of a concatenation is the concatenation of the
/// encodings.
pub proof fn encode_utf8_concat(a: Seq<char>, b: Seq<char>)
    ensures
        vstd::utf8::encode_utf8(a + b) == vstd::utf8::encode_utf8(a) + vstd::utf8::encode_utf8(b),
    decreases a.len(),
{
    if a.len() > 0 {
        assert((a + b).drop_first() =~= a.drop_first() + b);
        encode_utf8_concat(a.drop_first(), b);
        assert(vstd::utf8::encode_scalar(a[0] as u32) + (vstd::utf8::encode_utf8(a.drop_first())
            + vstd::utf8::encode_utf8(b)) =~= (vstd::utf8::encode_scalar(a[0] as u32)
            + vstd::utf8::encode_utf8(a.drop_first())) + vstd::utf8::encode_utf8(b));
    } else {
        assert(a + b =~= b);
        assert(Seq::<u8>::empty() + vstd::utf8::encode_utf8(b) =~= vstd::utf8::encode_utf8(b));
    }
}

/// The number of bytes of one character in UTF-8.
fn char_width(c: char) -> (w: usize)
    ensures
        w == vstd::utf8::encode_scalar(c as u32).len(),
        1 <= w <= 4,
{
    proof {
        vstd::utf8::char_is_scalar(c);
    }
    let u = c as u32;
    if u <= 0x7F {
        1
    } else if u <= 0x7FF {
        2
    } else if u <= 0xFFFF {
        3
    } else {
        4
    }
}

/// Whether `s` takes more than `k` bytes in UTF-8.
pub fn utf8_len_exceeds(s: &str, k: usize) -> (b: bool)
    ensures
        b == (utf8_len(s@) > k),
{
    let v = chars_of(s);
    let mut total: usize = 0;
    let mut i: usize = 0;
    assert(v@.take(0) =~= Seq::<char>::empty());
    while i < v.len()
        invariant
            v@ == s@,
            i <= v.len(),
            total <= k,
            total == utf8_len(v@.take(i as int)),
        decreases v.len() - i,
    {
        let w = char_width(v[i]);
        proof {
            assert(v@.take(i + 1) =~= v@.take(i as int) + seq![v@[i as int]]);
            encode_utf8_concat(v@.take(i as int), seq![v@[i as int]]);
            assert(seq![v@[i as int]].drop_first() =~= Seq::<char>::empty());
            reveal_with_fuel(vstd::utf8::encode_utf8, 2);
            assert(vstd::utf8::encode_utf8(seq![v@[i as int]]).len()
                == vstd::utf8::encode_scalar(v@[i as int] as u32).len());
        }
        i = i + 1;
        if w > k - total {
            proof {
                assert(v@ =~= v@.take(i as int) + v@.skip(i as int));
                encode_utf8_concat(v@.take(i as int), v@.skip(i as int));
            }
            return true;
        }
        total = total + w;
    }
    assert(v@.take(i as int) =~= v@);
    false
}

/// A `String` holding `a` followed by `b`.
pub fn concat(a: &str, b: &str) -> (r: String)
    ensures
        r@ == a@ + b@,
{
    let mut r = String::from_str(a);
    r.append(b);
    r
}

} // verus!

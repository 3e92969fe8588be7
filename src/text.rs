//! Byte-level text handling: splitting on a delimiter, trimming, decimal numbers and IPv4
//! addresses in dotted-quad form.
use vstd::prelude::*;
use vstd::slice::slice_subrange;

verus! {

/// Whether three bytes encode one of the three-byte whitespace characters: U+1680,
/// U+2000 to U+200A, U+2028, U+2029, U+202F, U+205F and U+3000.
pub open spec fn space3(a: u8, b: u8, c: u8) -> bool {
    ||| a == 0xE1 && b == 0x9A && c == 0x80
    ||| a == 0xE2 && b == 0x80 && (0x80 <= c <= 0x8A || c == 0xA8 || c == 0xA9 || c == 0xAF)
    ||| a == 0xE2 && b == 0x81 && c == 0x9F
    ||| a == 0xE3 && b == 0x80 && c == 0x80
}

/// Length of the whitespace character (Unicode White_Space, as `char::is_whitespace` has it)
/// that the UTF-8 text `s` starts with; 0 where it starts with none.
pub open spec fn lead_space(s: Seq<u8>) -> int {
    if s.len() >= 1 && (s[0] == 32 || 9 <= s[0] <= 13) {
        1
    } else if s.len() >= 2 && s[0] == 0xC2 && (s[1] == 0x85 || s[1] == 0xA0) {
        2
    } else if s.len() >= 3 && space3(s[0], s[1], s[2]) {
        3
    } else {
        0
    }
}

/// Length of the whitespace character that the UTF-8 text `s` ends with; 0 where it ends
/// with none.
pub open spec fn trail_space(s: Seq<u8>) -> int {
    let n = s.len() as int;
    if n >= 1 && (s[n - 1] == 32 || 9 <= s[n - 1] <= 13) {
        1
    } else if n >= 2 && s[n - 2] == 0xC2 && (s[n - 1] == 0x85 || s[n - 1] == 0xA0) {
        2
    } else if n >= 3 && space3(s[n - 3], s[n - 2], s[n - 1]) {
        3
    } else {
        0
    }
}

pub open spec fn trim_start(s: Seq<u8>) -> Seq<u8>
    decreases s.len(),
{
    if lead_space(s) > 0 {
        trim_start(s.subrange(lead_space(s), s.len() as int))
    } else {
        s
    }
}

pub open spec fn trim_end(s: Seq<u8>) -> Seq<u8>
    decreases s.len(),
{
    if trail_space(s) > 0 {
        trim_end(s.subrange(0, s.len() - trail_space(s)))
    } else {
        s
    }
}

/// The UTF-8 text `s` without leading and trailing whitespace, as `str::trim` gives it.
pub open spec fn trim(s: Seq<u8>) -> Seq<u8> {
    trim_end(trim_start(s))
}

/// The pieces of `s` between occurrences of `d`, in order; at least one piece.
pub open spec fn split_on(s: Seq<u8>, d: u8) -> Seq<Seq<u8>>
    decreases s.len(),
{
    if s.len() == 0 {
        seq![Seq::empty()]
    } else {
        let r = split_on(s.drop_last(), d);
        if s.last() == d {
            r.push(Seq::empty())
        } else {
            r.update(r.len() - 1, r.last().push(s.last()))
        }
    }
}

/// `s` cut at the first `d`: the part before it and the part after it.
pub open spec fn split_once(s: Seq<u8>, d: u8) -> Option<(Seq<u8>, Seq<u8>)> {
    let p = split_on(s, d);
    if p.len() > 1 {
        Some((p[0], s.subrange(p[0].len() as int + 1, s.len() as int)))
    } else {
        None
    }
}

pub open spec fn is_digit(c: u8) -> bool {
    48 <= c <= 57
}

pub open spec fn all_digits(s: Seq<u8>) -> bool {
    forall|i: int| 0 <= i < s.len() ==> is_digit(#[trigger] s[i])
}

/// The decimal value of a string of digits.
pub open spec fn dec_value(s: Seq<u8>) -> int
    decreases s.len(),
{
    if s.len() == 0 {
        0
    } else {
        dec_value(s.drop_last()) * 10 + (s.last() - 48)
    }
}

/// An unsigned decimal number as Rust's integer parsing reads it: an optional `+`, then one
/// or more digits, the value at most `max`.
pub open spec fn parse_dec(s: Seq<u8>, max: int) -> Option<int> {
    let d = if s.len() > 0 && s[0] == 43 { s.drop_first() } else { s };
    if d.len() == 0 || !all_digits(d) || dec_value(d) > max {
        None
    } else {
        Some(dec_value(d))
    }
}

/// One byte of a dotted quad: one to three digits, no leading zero, at most 255.
pub open spec fn octet_text(p: Seq<u8>) -> Option<u8> {
    if 1 <= p.len() <= 3 && all_digits(p) && !(p.len() > 1 && p[0] == 48) && dec_value(p) <= 255 {
        Some(dec_value(p) as u8)
    } else {
        None
    }
}

/// An IPv4 address written as four dot-separated bytes.
pub open spec fn ipv4_text(s: Seq<u8>) -> Option<Seq<u8>> {
    let p = split_on(s, 46);
    if p.len() == 4 && octet_text(p[0]) is Some && octet_text(p[1]) is Some && octet_text(p[2]) is Some
        && octet_text(p[3]) is Some {
        Some(
            seq![
                octet_text(p[0]).unwrap(),
                octet_text(p[1]).unwrap(),
                octet_text(p[2]).unwrap(),
                octet_text(p[3]).unwrap(),
            ],
        )
    } else {
        None
    }
}

pub open spec fn views(v: Seq<&[u8]>) -> Seq<Seq<u8>> {
    v.map_values(|p: &[u8]| p@)
}

pub proof fn lemma_split_first(s: Seq<u8>, d: u8)
    ensures
        split_on(s, d).len() >= 1,
        split_on(s, d)[0].len() <= s.len(),
        split_on(s, d).len() > 1 ==> split_on(s, d)[0].len() < s.len(),
    decreases s.len(),
{
    if s.len() > 0 {
        lemma_split_first(s.drop_last(), d);
    }
}

/// The pieces of `s` between occurrences of `d`.
pub fn split_bytes<'a>(s: &'a [u8], d: u8) -> (r: Vec<&'a [u8]>)
    ensures
        views(r@) == split_on(s@, d),
{
    let n = s.len();
    let mut r: Vec<&'a [u8]> = Vec::new();
    let mut start: usize = 0;
    let mut i: usize = 0;
    assert(s@.subrange(0, 0) =~= Seq::<u8>::empty());
    assert(views(r@) =~= Seq::<Seq<u8>>::empty());
    assert(views(r@) + seq![s@.subrange(0, 0)] =~= split_on(s@.subrange(0, 0), d));
    while i < n
        invariant
            n == s@.len(),
            start <= i <= n,
            views(r@) + seq![s@.subrange(start as int, i as int)] == split_on(s@.subrange(0, i as int), d),
        decreases n - i,
    {
        proof {
            let t = s@.subrange(0, i + 1);
            assert(t.drop_last() =~= s@.subrange(0, i as int));
            assert(t.last() == s@[i as int]);
        }
        let ghost old_v = views(r@);
        let ghost old_start = start;
        if s[i] == d {
            r.push(slice_subrange(s, start, i));
            assert(views(r@) =~= old_v.push(s@.subrange(old_start as int, i as int)));
            start = i + 1;
            assert(s@.subrange(start as int, i + 1) =~= Seq::<u8>::empty());
            assert(views(r@) + seq![s@.subrange(start as int, i + 1)] =~= split_on(s@.subrange(0, i + 1), d));
        } else {
            assert(s@.subrange(start as int, i + 1) =~= s@.subrange(start as int, i as int).push(s@[i as int]));
            assert(views(r@) + seq![s@.subrange(start as int, i + 1)] =~= split_on(s@.subrange(0, i + 1), d));
        }
        i = i + 1;
    }
    r.push(slice_subrange(s, start, n));
    assert(s@.subrange(0, n as int) =~= s@);
    assert(views(r@) =~= split_on(s@, d));
    r
}

/// `s` cut at the first `d`.
pub fn split_once_bytes<'a>(s: &'a [u8], d: u8) -> (r: Option<(&'a [u8], &'a [u8])>)
    ensures
        match r {
            Some((a, b)) => split_once(s@, d) == Some((a@, b@)),
            None => split_once(s@, d) is None,
        },
{
    let p = split_bytes(s, d);
    proof {
        lemma_split_first(s@, d);
        assert(views(p@)[0] == p@[0]@);
    }
    if p.len() > 1 {
        let k = p[0].len();
        assert(views(p@).len() == p@.len());
        assert(k < s.len());
        Some((p[0], slice_subrange(s, k + 1, s.len())))
    } else {
        None
    }
}

fn is_space3(a: u8, b: u8, c: u8) -> (r: bool)
    ensures
        r == space3(a, b, c),
{
    (a == 0xE1 && b == 0x9A && c == 0x80) || (a == 0xE2 && b == 0x80 && ((0x80 <= c && c <= 0x8A)
        || c == 0xA8 || c == 0xA9 || c == 0xAF)) || (a == 0xE2 && b == 0x81 && c == 0x9F) || (a
        == 0xE3 && b == 0x80 && c == 0x80)
}

/// Length of the whitespace character that `s[i..j]` starts with.
fn space_at(s: &[u8], i: usize, j: usize) -> (r: usize)
    requires
        i <= j <= s@.len(),
    ensures
        r as int == lead_space(s@.subrange(i as int, j as int)),
        r <= j - i,
{
    let ghost t = s@.subrange(i as int, j as int);
    let m = j - i;
    if m >= 1 && (s[i] == 32 || (9 <= s[i] && s[i] <= 13)) {
        assert(t[0] == s@[i as int]);
        1
    } else if m >= 2 && s[i] == 0xC2 && (s[i + 1] == 0x85 || s[i + 1] == 0xA0) {
        assert(t[0] == s@[i as int] && t[1] == s@[i + 1]);
        2
    } else if m >= 3 && is_space3(s[i], s[i + 1], s[i + 2]) {
        assert(t[0] == s@[i as int] && t[1] == s@[i + 1] && t[2] == s@[i + 2]);
        3
    } else {
        proof {
            if m >= 1 {
                assert(t[0] == s@[i as int]);
            }
            if m >= 2 {
                assert(t[1] == s@[i + 1]);
            }
            if m >= 3 {
                assert(t[2] == s@[i + 2]);
            }
        }
        0
    }
}

/// Length of the whitespace character that `s[i..j]` ends with.
fn space_before(s: &[u8], i: usize, j: usize) -> (r: usize)
    requires
        i <= j <= s@.len(),
    ensures
        r as int == trail_space(s@.subrange(i as int, j as int)),
        r <= j - i,
{
    let ghost t = s@.subrange(i as int, j as int);
    let m = j - i;
    if m >= 1 && (s[j - 1] == 32 || (9 <= s[j - 1] && s[j - 1] <= 13)) {
        assert(t[m - 1] == s@[j - 1]);
        1
    } else if m >= 2 && s[j - 2] == 0xC2 && (s[j - 1] == 0x85 || s[j - 1] == 0xA0) {
        assert(t[m - 2] == s@[j - 2] && t[m - 1] == s@[j - 1]);
        2
    } else if m >= 3 && is_space3(s[j - 3], s[j - 2], s[j - 1]) {
        assert(t[m - 3] == s@[j - 3] && t[m - 2] == s@[j - 2] && t[m - 1] == s@[j - 1]);
        3
    } else {
        proof {
            if m >= 1 {
                assert(t[m - 1] == s@[j - 1]);
            }
            if m >= 2 {
                assert(t[m - 2] == s@[j - 2]);
            }
            if m >= 3 {
                assert(t[m - 3] == s@[j - 3]);
            }
        }
        0
    }
}

/// The UTF-8 text `s` without leading and trailing whitespace.
pub fn trim_bytes<'a>(s: &'a [u8]) -> (r: &'a [u8])
    ensures
        r@ == trim(s@),
{
    let n = s.len();
    let mut i: usize = 0;
    assert(s@.subrange(0, n as int) =~= s@);
    loop
        invariant
            n == s@.len(),
            i <= n,
            trim_start(s@) == trim_start(s@.subrange(i as int, n as int)),
        ensures
            i <= n,
            trim_start(s@) == s@.subrange(i as int, n as int),
        decreases n - i,
    {
        let k = space_at(s, i, n);
        if k == 0 {
            break;
        }
        assert(s@.subrange(i as int, n as int).subrange(k as int, n - i) =~= s@.subrange(i + k, n as int));
        i = i + k;
    }
    assert(trim_start(s@) == s@.subrange(i as int, n as int));
    let mut j: usize = n;
    loop
        invariant
            n == s@.len(),
            i <= j <= n,
            trim(s@) == trim_end(s@.subrange(i as int, j as int)),
        ensures
            i <= j <= n,
            trim(s@) == s@.subrange(i as int, j as int),
        decreases j - i,
    {
        let k = space_before(s, i, j);
        if k == 0 {
            break;
        }
        assert(s@.subrange(i as int, j as int).subrange(0, j - i - k) =~= s@.subrange(i as int, j - k));
        j = j - k;
    }
    slice_subrange(s, i, j)
}

/// Reads an unsigned decimal number of at most `max` as Rust's integer parsing does.
pub fn read_dec(s: &[u8], max: u32) -> (r: Option<u32>)
    requires
        max < 65536,
    ensures
        match r {
            Some(v) => parse_dec(s@, max as int) == Some(v as int),
            None => parse_dec(s@, max as int) is None,
        },
{
    let n = s.len();
    let start: usize = if n > 0 && s[0] == 43 { 1 } else { 0 };
    let ghost d = if s@.len() > 0 && s@[0] == 43 { s@.drop_first() } else { s@ };
    assert(d =~= s@.subrange(start as int, n as int));
    if start == n {
        return None;
    }
    let mut acc: u32 = 0;
    let mut i: usize = start;
    while i < n
        invariant
            n == s@.len(),
            start <= i <= n,
            d == s@.subrange(start as int, n as int),
            d == if s@.len() > 0 && s@[0] == 43 { s@.drop_first() } else { s@ },
            max < 65536,
            all_digits(s@.subrange(start as int, i as int)),
            acc as int == if dec_value(s@.subrange(start as int, i as int)) > max {
                max + 1
            } else {
                dec_value(s@.subrange(start as int, i as int))
            },
        decreases n - i,
    {
        let c = s[i];
        if c < 48 || c > 57 {
            assert(!all_digits(d)) by {
                assert(d[i - start] == c);
            }
            return None;
        }
        proof {
            let p = s@.subrange(start as int, i + 1);
            assert(p.drop_last() =~= s@.subrange(start as int, i as int));
            assert(p.last() == c);
            assert(dec_value(s@.subrange(start as int, i as int)) >= 0) by {
                lemma_dec_nonneg(s@.subrange(start as int, i as int));
            }
        }
        if acc > max {
            acc = max + 1;
        } else {
            let v = acc * 10 + (c - 48) as u32;
            acc = if v > max { max + 1 } else { v };
        }
        i = i + 1;
    }
    assert(s@.subrange(start as int, n as int) == d);
    if acc > max {
        None
    } else {
        Some(acc)
    }
}

pub proof fn lemma_dec_nonneg(s: Seq<u8>)
    requires
        all_digits(s),
    ensures
        dec_value(s) >= 0,
    decreases s.len(),
{
    if s.len() > 0 {
        assert(all_digits(s.drop_last())) by {
            assert forall|i: int| 0 <= i < s.drop_last().len() implies is_digit(#[trigger] s.drop_last()[i]) by {
                assert(s.drop_last()[i] == s[i]);
            }
        }
        lemma_dec_nonneg(s.drop_last());
        assert(is_digit(s[s.len() - 1]));
    }
}

fn read_octet(p: &[u8]) -> (r: Option<u8>)
    ensures
        r == octet_text(p@),
{
    let n = p.len();
    if n < 1 || n > 3 || (n > 1 && p[0] == 48) || (n > 0 && p[0] == 43) {
        return None;
    }
    match read_dec(p, 255) {
        Some(v) => Some(v as u8),
        None => None,
    }
}

/// Reads an IPv4 address written as four dot-separated bytes.
pub fn read_ipv4(s: &[u8]) -> (r: Option<[u8; 4]>)
    ensures
        match r {
            Some(a) => ipv4_text(s@) == Some(a@),
            None => ipv4_text(s@) is None,
        },
{
    let p = split_bytes(s, 46);
    if p.len() != 4 {
        return None;
    }
    proof {
        assert(views(p@)[0] == p@[0]@);
        assert(views(p@)[1] == p@[1]@);
        assert(views(p@)[2] == p@[2]@);
        assert(views(p@)[3] == p@[3]@);
    }
    let a = match read_octet(p[0]) {
        Some(v) => v,
        None => {
            return None;
        },
    };
    let b = match read_octet(p[1]) {
        Some(v) => v,
        None => {
            return None;
        },
    };
    let c = match read_octet(p[2]) {
        Some(v) => v,
        None => {
            return None;
        },
    };
    let e = match read_octet(p[3]) {
        Some(v) => v,
        None => {
            return None;
        },
    };
    let r = [a, b, c, e];
    assert(r@ =~= seq![a, b, c, e]);
    Some(r)
}

} // verus!

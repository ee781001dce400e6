//! Verified string utilities: character-level equality and prefix tests,
//! decimal formatting and parsing, splitting and joining.
//!
//! The template scanner works on labels and cell text character by character,
//! so everything here is stated over `Seq<char>` views.

use vstd::prelude::*;
use vstd::string::*;

verus! {

/// `p` is a prefix of `s`.
pub open spec fn is_prefix_of(p: Seq<char>, s: Seq<char>) -> bool {
    p.len() <= s.len() && s.subrange(0, p.len() as int) == p
}

/// Character-for-character equality of two string slices.
pub fn str_eq(a: &str, b: &str) -> (r: bool)
    ensures
        r == (a@ == b@),
{
    let alen = a.unicode_len();
    let blen = b.unicode_len();
    if alen != blen {
        proof {
            if a@ == b@ {
                assert(a@.len() == b@.len());
            }
        }
        return false;
    }
    let mut i: usize = 0;
    while i < alen
        invariant
            i <= alen,
            alen == a@.len(),
            alen == b@.len(),
            forall|j: int| 0 <= j < i ==> a@[j] == b@[j],
        decreases alen - i,
    {
        let ca = a.get_char(i);
        let cb = b.get_char(i);
        if ca != cb {
            proof {
                if a@ == b@ {
                    assert(a@[i as int] == b@[i as int]);
                }
            }
            return false;
        }
        i = i + 1;
    }
    proof {
        assert(a@ =~= b@);
    }
    true
}

/// Does `s` start with `p`, character for character?
pub fn has_prefix(s: &str, p: &str) -> (r: bool)
    ensures
        r == is_prefix_of(p@, s@),
{
    let slen = s.unicode_len();
    let plen = p.unicode_len();
    if plen > slen {
        return false;
    }
    let mut i: usize = 0;
    while i < plen
        invariant
            i <= plen,
            plen == p@.len(),
            slen == s@.len(),
            plen <= slen,
            forall|j: int| 0 <= j < i ==> s@[j] == p@[j],
        decreases plen - i,
    {
        let cs = s.get_char(i);
        let cp = p.get_char(i);
        if cs != cp {
            proof {
                if is_prefix_of(p@, s@) {
                    assert(s@.subrange(0, p@.len() as int)[i as int] == p@[i as int]);
                }
            }
            return false;
        }
        i = i + 1;
    }
    proof {
        assert(s@.subrange(0, p@.len() as int) =~= p@);
    }
    true
}

/// The character for one decimal digit.
pub open spec fn dec_digit(d: nat) -> char
    recommends
        d < 10,
{
    ((48 + d) as u8) as char
}

/// The usual decimal representation of `n`, most significant digit first.
pub open spec fn dec_rep(n: nat) -> Seq<char>
    decreases n,
{
    if n < 10 {
        seq![dec_digit(n)]
    } else {
        dec_rep(n / 10).push(dec_digit(n % 10))
    }
}

fn append_digit(s: &mut String, d: u8)
    requires
        d < 10,
    ensures
        final(s)@ == old(s)@ + seq![dec_digit(d as nat)],
{
    proof {
        reveal_strlit("0");
        reveal_strlit("1");
        reveal_strlit("2");
        reveal_strlit("3");
        reveal_strlit("4");
        reveal_strlit("5");
        reveal_strlit("6");
        reveal_strlit("7");
        reveal_strlit("8");
        reveal_strlit("9");
    }
    match d {
        0 => {
            proof { assert("0"@ =~= seq![dec_digit(0)]); }
            s.append("0");
        }
        1 => {
            proof { assert("1"@ =~= seq![dec_digit(1)]); }
            s.append("1");
        }
        2 => {
            proof { assert("2"@ =~= seq![dec_digit(2)]); }
            s.append("2");
        }
        3 => {
            proof { assert("3"@ =~= seq![dec_digit(3)]); }
            s.append("3");
        }
        4 => {
            proof { assert("4"@ =~= seq![dec_digit(4)]); }
            s.append("4");
        }
        5 => {
            proof { assert("5"@ =~= seq![dec_digit(5)]); }
            s.append("5");
        }
        6 => {
            proof { assert("6"@ =~= seq![dec_digit(6)]); }
            s.append("6");
        }
        7 => {
            proof { assert("7"@ =~= seq![dec_digit(7)]); }
            s.append("7");
        }
        8 => {
            proof { assert("8"@ =~= seq![dec_digit(8)]); }
            s.append("8");
        }
        _ => {
            proof { assert("9"@ =~= seq![dec_digit(9)]); }
            s.append("9");
        }
    }
}

/// Appends the decimal representation of `n` to `s`.
pub fn append_dec_u64(s: &mut String, n: u64)
    ensures
        final(s)@ == old(s)@ + dec_rep(n as nat),
    decreases n,
{
    if n >= 10 {
        append_dec_u64(s, n / 10);
    }
    append_digit(s, (n % 10) as u8);
}

/// The decimal representation of `n` as a fresh string.
pub fn u64_to_dec(n: u64) -> (s: String)
    ensures
        s@ == dec_rep(n as nat),
{
    let mut s = String::new();
    append_dec_u64(&mut s, n);
    proof {
        assert(Seq::<char>::empty() + dec_rep(n as nat) =~= dec_rep(n as nat));
    }
    s
}

/// The decimal representation of a signed value: a minus sign for negatives.
pub open spec fn dec_rep_signed(n: int) -> Seq<char> {
    if n < 0 {
        seq!['-'] + dec_rep((-n) as nat)
    } else {
        dec_rep(n as nat)
    }
}

/// Appends the decimal representation of the signed value `n` to `s`.
pub fn append_dec_i64(s: &mut String, n: i64)
    ensures
        final(s)@ == old(s)@ + dec_rep_signed(n as int),
{
    if n < 0 {
        proof {
            reveal_strlit("-");
            assert("-"@ =~= seq!['-']);
        }
        s.append("-");
        let mag: u64 = (-(n as i128)) as u64;
        append_dec_u64(s, mag);
        proof {
            assert(old(s)@ + "-"@ + dec_rep(mag as nat) =~= old(s)@ + dec_rep_signed(n as int));
        }
    } else {
        append_dec_u64(s, (n as u64));
    }
}

/// `c` is an ASCII decimal digit.
pub open spec fn is_digit_char(c: char) -> bool {
    48 <= c as int && c as int <= 57
}

/// The numeric value of a digit character.
pub open spec fn digit_val(c: char) -> nat
    recommends
        is_digit_char(c),
{
    (c as int - 48) as nat
}

/// Every character of `s` is a decimal digit.
pub open spec fn all_digits(s: Seq<char>) -> bool {
    forall|i: int| 0 <= i < s.len() ==> is_digit_char(#[trigger] s[i])
}

/// The numeric value of a digit string, most significant digit first.
pub open spec fn dec_val(s: Seq<char>) -> nat
    decreases s.len(),
{
    if s.len() == 0 {
        0
    } else {
        dec_val(s.drop_last()) * 10 + digit_val(s.last())
    }
}

/// A digit string with an optional leading plus sign stripped, as the standard
/// unsigned integer parser accepts it.
pub open spec fn plus_body(s: Seq<char>) -> Seq<char> {
    if s.len() > 0 && s[0] == '+' {
        s.skip(1)
    } else {
        s
    }
}

/// What parsing `s` as a `u64` yields: the standard parser accepts an optional
/// leading `+`, then one or more digits, and rejects values that overflow.
pub open spec fn parse_u64_spec(s: Seq<char>) -> Option<u64> {
    let b = plus_body(s);
    if b.len() > 0 && all_digits(b) && dec_val(b) <= u64::MAX {
        Some(dec_val(b) as u64)
    } else {
        None
    }
}

proof fn lemma_dec_val_step(s: Seq<char>, k: int)
    requires
        0 <= k < s.len(),
    ensures
        dec_val(s.take(k + 1)) == dec_val(s.take(k)) * 10 + digit_val(s[k]),
{
    assert(s.take(k + 1).drop_last() =~= s.take(k));
    assert(s.take(k + 1).last() == s[k]);
}

proof fn lemma_dec_val_mono(s: Seq<char>, k: int, j: int)
    requires
        0 <= k <= j <= s.len(),
    ensures
        dec_val(s.take(k)) <= dec_val(s.take(j)),
    decreases j - k,
{
    if j > k {
        lemma_dec_val_mono(s, k, j - 1);
        lemma_dec_val_step(s, j - 1);
    }
}

/// Parses `s` as a `u64` exactly as the standard library does.
pub fn parse_u64_str(s: &str) -> (r: Option<u64>)
    ensures
        r == parse_u64_spec(s@),
{
    let len = s.unicode_len();
    let start: usize = if len > 0 && s.get_char(0) == '+' { 1 } else { 0 };
    let ghost body = plus_body(s@);
    proof {
        assert(body =~= s@.skip(start as int));
    }
    if start >= len {
        return None;
    }
    let mut acc: u64 = 0;
    let mut i: usize = start;
    while i < len
        invariant
            start <= i <= len,
            len == s@.len(),
            body == plus_body(s@),
            body == s@.skip(start as int),
            body.len() == len - start,
            forall|j: int| 0 <= j < i - start ==> is_digit_char(#[trigger] body[j]),
            acc as nat == dec_val(body.take(i - start)),
        decreases len - i,
    {
        let c = s.get_char(i);
        let cv = c as u32;
        proof {
            assert(body[i - start] == s@[i as int]);
        }
        if cv < 48 || cv > 57 {
            proof {
                assert(!is_digit_char(body[i - start]));
                assert(!all_digits(body));
            }
            return None;
        }
        let d: u64 = (cv - 48) as u64;
        proof {
            lemma_dec_val_step(body, i - start);
            assert(digit_val(body[i - start]) == d as nat);
        }
        if acc > (u64::MAX - d) / 10 {
            proof {
                assert((acc as int) * 10 + (d as int) > u64::MAX as int) by (nonlinear_arith)
                    requires
                        acc as int > (u64::MAX as int - d as int) / 10,
                        0 <= d as int <= 9,
                        acc as int >= 0,
                ;
                lemma_dec_val_mono(body, i - start + 1, body.len() as int);
                assert(body.take(body.len() as int) =~= body);
                assert(dec_val(body) >= dec_val(body.take(i - start + 1)));
                assert(dec_val(body) > u64::MAX as nat);
            }
            return None;
        }
        proof {
            assert((acc as int) * 10 + (d as int) <= u64::MAX as int) by (nonlinear_arith)
                requires
                    acc as int <= (u64::MAX as int - d as int) / 10,
                    0 <= d as int <= 9,
                    acc as int >= 0,
            ;
        }
        acc = acc * 10 + d;
        i = i + 1;
    }
    proof {
        assert(body.take(body.len() as int) =~= body);
    }
    Some(acc)
}

/// What parsing `s` as a `u32` yields.
pub open spec fn parse_u32_spec(s: Seq<char>) -> Option<u32> {
    match parse_u64_spec(s) {
        Some(v) => if v <= u32::MAX as u64 {
            Some(v as u32)
        } else {
            None
        },
        None => None,
    }
}

/// Parses `s` as a `u32` exactly as the standard library does.
pub fn parse_u32_str(s: &str) -> (r: Option<u32>)
    ensures
        r == parse_u32_spec(s@),
{
    match parse_u64_str(s) {
        Some(v) => if v <= u32::MAX as u64 {
            Some(v as u32)
        } else {
            None
        },
        None => None,
    }
}

/// What parsing `s` as a `usize` yields.
pub open spec fn parse_usize_spec(s: Seq<char>) -> Option<usize> {
    match parse_u64_spec(s) {
        Some(v) => if v <= usize::MAX as u64 {
            Some(v as usize)
        } else {
            None
        },
        None => None,
    }
}

/// Parses `s` as a `usize` exactly as the standard library does.
pub fn parse_usize_str(s: &str) -> (r: Option<usize>)
    ensures
        r == parse_usize_spec(s@),
{
    match parse_u64_str(s) {
        Some(v) => if v <= usize::MAX as u64 {
            Some(v as usize)
        } else {
            None
        },
        None => None,
    }
}

/// `s` with every leading repetition of `p` removed.
pub open spec fn trim_prefix_spec(s: Seq<char>, p: Seq<char>) -> Seq<char>
    recommends
        p.len() > 0,
    decreases s.len(),
{
    if p.len() > 0 && is_prefix_of(p, s) {
        trim_prefix_spec(s.skip(p.len() as int), p)
    } else {
        s
    }
}

/// Strips every leading repetition of `p` from `s`.
pub fn trim_prefix<'a>(s: &'a str, p: &str) -> (r: &'a str)
    requires
        p@.len() > 0,
    ensures
        r@ == trim_prefix_spec(s@, p@),
{
    let mut cur: &'a str = s;
    let plen = p.unicode_len();
    loop
        invariant
            plen == p@.len(),
            plen > 0,
            trim_prefix_spec(cur@, p@) == trim_prefix_spec(s@, p@),
        decreases cur@.len(),
    {
        if has_prefix(cur, p) {
            let clen = cur.unicode_len();
            let next = cur.substring_char(plen, clen);
            proof {
                assert(next@ =~= cur@.skip(plen as int));
            }
            cur = next;
        } else {
            return cur;
        }
    }
}

/// The index of the first occurrence of `sep` in `s`, or `-1` if there is none.
pub open spec fn find_sep(s: Seq<char>, sep: char) -> int
    decreases s.len(),
{
    if s.len() == 0 {
        -1
    } else if s[0] == sep {
        0
    } else {
        let r = find_sep(s.skip(1), sep);
        if r < 0 {
            -1
        } else {
            r + 1
        }
    }
}

pub proof fn lemma_find_sep(s: Seq<char>, sep: char)
    ensures
        find_sep(s, sep) == -1 ==> (forall|j: int| 0 <= j < s.len() ==> s[j] != sep),
        find_sep(s, sep) != -1 ==> 0 <= find_sep(s, sep) < s.len(),
        find_sep(s, sep) != -1 ==> s[find_sep(s, sep)] == sep,
        find_sep(s, sep) != -1 ==> (forall|j: int| 0 <= j < find_sep(s, sep) ==> s[j] != sep),
    decreases s.len(),
{
    if s.len() > 0 && s[0] != sep {
        lemma_find_sep(s.skip(1), sep);
        assert forall|j: int| 1 <= j < s.len() implies s[j] == s.skip(1)[j - 1] by {}
    }
}

/// The parts of `s` between occurrences of `sep`, as the standard splitter
/// yields them: one part more than there are separators.
pub open spec fn split_on(s: Seq<char>, sep: char) -> Seq<Seq<char>>
    decreases s.len(),
        via split_on_dec
{
    let i = find_sep(s, sep);
    if i < 0 {
        seq![s]
    } else {
        seq![s.take(i)] + split_on(s.skip(i + 1), sep)
    }
}

#[via_fn]
proof fn split_on_dec(s: Seq<char>, sep: char) {
    lemma_find_sep(s, sep);
}

fn find_char_from(s: &str, from: usize, sep: char) -> (r: Option<usize>)
    requires
        from <= s@.len(),
    ensures
        match r {
            Some(i) => from <= i < s@.len() && s@[i as int] == sep && (forall|j: int|
                from <= j < i ==> s@[j] != sep),
            None => forall|j: int| from <= j < s@.len() ==> s@[j] != sep,
        },
{
    let len = s.unicode_len();
    let mut i: usize = from;
    while i < len
        invariant
            from <= i <= len,
            len == s@.len(),
            forall|j: int| from <= j < i ==> s@[j] != sep,
        decreases len - i,
    {
        let c = s.get_char(i);
        if c == sep {
            return Some(i);
        }
        i = i + 1;
    }
    None
}

/// Splits `s` at every occurrence of `sep`.
pub fn split_str(s: &str, sep: char) -> (parts: Vec<String>)
    ensures
        parts.deep_view() == split_on(s@, sep),
{
    let mut parts: Vec<String> = Vec::new();
    let mut from: usize = 0;
    let len = s.unicode_len();
    proof {
        assert(s@.skip(0) =~= s@);
        assert(parts.deep_view() =~= Seq::<Seq<char>>::empty());
        assert(Seq::<Seq<char>>::empty() + split_on(s@, sep) =~= split_on(s@, sep));
    }
    loop
        invariant
            from <= len,
            len == s@.len(),
            split_on(s@, sep) == parts.deep_view() + split_on(s@.skip(from as int), sep),
        decreases len - from,
    {
        let ghost old_from = from as int;
        let ghost old_dv = parts.deep_view();
        let ghost t = s@.skip(old_from);
        match find_char_from(s, from, sep) {
            Some(idx) => {
                let part = s.substring_char(from, idx).to_owned();
                parts.push(part);
                from = idx + 1;
                proof {
                    lemma_find_sep(t, sep);
                    assert forall|j: int| 0 <= j < t.len() implies t[j] == s@[j + old_from] by {}
                    let f = find_sep(t, sep);
                    assert(t[idx - old_from] == sep);
                    assert(f != -1);
                    if f < idx - old_from {
                        assert(s@[f + old_from] != sep);
                        assert(t[f] == sep);
                        assert(false);
                    }
                    if f > idx - old_from {
                        assert(t[idx - old_from] != sep);
                        assert(false);
                    }
                    assert(f == idx - old_from);
                    assert(t.take(f) =~= part@);
                    assert(t.skip(f + 1) =~= s@.skip(from as int));
                    assert(parts.deep_view() =~= old_dv.push(part@));
                    assert(old_dv + (seq![part@] + split_on(s@.skip(from as int), sep))
                        =~= old_dv.push(part@) + split_on(s@.skip(from as int), sep));
                }
            }
            None => {
                let part = s.substring_char(from, len).to_owned();
                parts.push(part);
                proof {
                    lemma_find_sep(t, sep);
                    assert forall|j: int| 0 <= j < t.len() implies t[j] == s@[j + old_from] by {}
                    let f = find_sep(t, sep);
                    if f != -1 {
                        assert(t[f] == sep);
                        assert(s@[f + old_from] != sep);
                        assert(false);
                    }
                    assert(part@ =~= t);
                    assert(parts.deep_view() =~= old_dv.push(part@));
                    assert(old_dv + seq![t] =~= old_dv.push(part@));
                }
                return parts;
            }
        }
    }
}

/// The parts joined with `sep` between them.
pub open spec fn join_with(parts: Seq<Seq<char>>, sep: Seq<char>) -> Seq<char>
    decreases parts.len(),
{
    if parts.len() == 0 {
        Seq::empty()
    } else if parts.len() == 1 {
        parts[0]
    } else {
        parts[0] + sep + join_with(parts.drop_first(), sep)
    }
}

pub proof fn lemma_join_push(parts: Seq<Seq<char>>, sep: Seq<char>, x: Seq<char>)
    requires
        parts.len() >= 1,
    ensures
        join_with(parts.push(x), sep) == join_with(parts, sep) + sep + x,
    decreases parts.len(),
{
    if parts.len() == 1 {
        assert(parts.push(x).drop_first() =~= seq![x]);
        assert(join_with(seq![x], sep) == x);
        assert(parts.push(x)[0] == parts[0]);
    } else {
        lemma_join_push(parts.drop_first(), sep, x);
        assert(parts.push(x).drop_first() =~= parts.drop_first().push(x));
        assert(parts.push(x)[0] == parts[0]);
        assert(parts[0] + sep + (join_with(parts.drop_first(), sep) + sep + x) =~= (parts[0] + sep
            + join_with(parts.drop_first(), sep)) + sep + x);
    }
}

} // verus!

//! Text helpers on Unicode scalar sequences: substring search, first-match
//! replacement and decimal rendering of integers.

use vstd::prelude::*;

verus! {

/// `needle` occurs in `hay` starting at index `i`.
pub open spec fn occurs_at(hay: Seq<char>, needle: Seq<char>, i: int) -> bool {
    &&& 0 <= i
    &&& i + needle.len() <= hay.len()
    &&& hay.subrange(i, i + needle.len()) == needle
}

/// `needle` is a contiguous part of `hay`.
pub open spec fn contains_seq(hay: Seq<char>, needle: Seq<char>) -> bool {
    exists|i: int| #[trigger] occurs_at(hay, needle, i)
}

/// `i` is the leftmost position at which `needle` occurs in `hay`.
pub open spec fn is_first_occurrence(hay: Seq<char>, needle: Seq<char>, i: int) -> bool {
    &&& occurs_at(hay, needle, i)
    &&& forall|j: int| 0 <= j < i ==> !#[trigger] occurs_at(hay, needle, j)
}

/// `s` with its leftmost occurrence of `from` replaced by `to`
/// (`s` itself when `from` does not occur).
pub open spec fn replace_first(s: Seq<char>, from: Seq<char>, to: Seq<char>) -> Seq<char> {
    if contains_seq(s, from) {
        let i = choose|i: int| is_first_occurrence(s, from, i);
        s.take(i) + to + s.skip(i + from.len())
    } else {
        s
    }
}

/// The character of a decimal digit.
pub open spec fn digit_char(d: nat) -> char {
    (48 + d) as char
}

/// The decimal numeral of `n`, without leading zeros.
pub open spec fn decimal(n: nat) -> Seq<char>
    decreases n,
{
    if n < 10 {
        seq![digit_char(n)]
    } else {
        decimal(n / 10) + seq![digit_char(n % 10)]
    }
}

/// A decimal numeral is made of digits.
pub proof fn lemma_decimal_digits(n: nat)
    ensures
        forall|i: int| 0 <= i < decimal(n).len() ==> 48 <= (#[trigger] decimal(n)[i]) as int <= 57,
    decreases n,
{
    if n >= 10 {
        lemma_decimal_digits(n / 10);
        let d = (n % 10) as nat;
        assert(digit_char(d) as int == 48 + d);
        assert forall|i: int| 0 <= i < decimal(n).len() implies 48 <= (#[trigger] decimal(n)[i]) as int <= 57 by {
            if i < decimal(n / 10).len() {
                assert(decimal(n)[i] == decimal(n / 10)[i]);
            }
        }
    } else {
        assert(digit_char(n) as int == 48 + n);
    }
}

/// A text in which the first character of `needle` never appears does not
/// contain `needle`.
pub proof fn lemma_absent_first_char(hay: Seq<char>, needle: Seq<char>)
    requires
        needle.len() > 0,
        forall|i: int| 0 <= i < hay.len() ==> #[trigger] hay[i] != needle[0],
    ensures
        !contains_seq(hay, needle),
{
    assert forall|i: int| !#[trigger] occurs_at(hay, needle, i) by {
        if occurs_at(hay, needle, i) {
            assert(hay.subrange(i, i + needle.len())[0] == needle[0]);
        }
    }
}

/// The leftmost occurrence is unique.
pub proof fn lemma_first_occurrence_unique(hay: Seq<char>, needle: Seq<char>, i: int, j: int)
    requires
        is_first_occurrence(hay, needle, i),
        is_first_occurrence(hay, needle, j),
    ensures
        i == j,
{
    if i < j {
        assert(occurs_at(hay, needle, i));
    } else if j < i {
        assert(occurs_at(hay, needle, j));
    }
}

/// Appends one character (`String::push`).
#[verifier::external_body]
fn push_char(s: &mut String, c: char)
    ensures
        final(s)@ == old(s)@.push(c),
{
    s.push(c);
}

/// The characters of `s`, in order.
pub fn chars_of(s: &str) -> (v: Vec<char>)
    ensures
        v@ == s@,
{
    let n = s.unicode_len();
    let mut v: Vec<char> = Vec::new();
    for i in 0..n
        invariant
            n == s@.len(),
            v@ == s@.take(i as int),
    {
        v.push(s.get_char(i));
        assert(v@ =~= s@.take(i + 1));
    }
    assert(s@.take(n as int) =~= s@);
    v
}

/// A string made of the characters of `v`, in order.
pub fn string_from_chars(v: &Vec<char>) -> (s: String)
    ensures
        s@ == v@,
{
    let mut s = String::new();
    for i in 0..v.len()
        invariant
            s@ == v@.take(i as int),
    {
        push_char(&mut s, v[i]);
        assert(s@ =~= v@.take(i + 1));
    }
    assert(v@.take(v@.len() as int) =~= v@);
    s
}

fn occurs_at_exec(hay: &Vec<char>, needle: &Vec<char>, i: usize) -> (r: bool)
    requires
        i + needle@.len() <= hay@.len(),
    ensures
        r == occurs_at(hay@, needle@, i as int),
{
    let m = needle.len();
    let hl = hay.len();
    let mut k: usize = 0;
    while k < m
        invariant
            m == needle@.len(),
            hl == hay@.len(),
            i + m <= hay@.len(),
            k <= m,
            forall|t: int| 0 <= t < k ==> hay@[i + t] == needle@[t],
        decreases m - k,
    {
        if hay[i + k] != needle[k] {
            assert(hay@.subrange(i as int, i + m)[k as int] != needle@[k as int]);
            return false;
        }
        k = k + 1;
    }
    assert(hay@.subrange(i as int, i + m) =~= needle@);
    true
}

/// The leftmost position at which `needle` occurs in `hay`, if any.
pub fn find_first(hay: &Vec<char>, needle: &Vec<char>) -> (r: Option<usize>)
    ensures
        match r {
            Some(i) => is_first_occurrence(hay@, needle@, i as int),
            None => !contains_seq(hay@, needle@),
        },
{
    if needle.len() > hay.len() {
        assert forall|i: int| !#[trigger] occurs_at(hay@, needle@, i) by {}
        return None;
    }
    let last = hay.len() - needle.len();
    let mut i: usize = 0;
    loop
        invariant
            i <= last,
            last == hay@.len() - needle@.len(),
            forall|j: int| 0 <= j < i ==> !#[trigger] occurs_at(hay@, needle@, j),
        ensures
            forall|j: int| 0 <= j <= last ==> !#[trigger] occurs_at(hay@, needle@, j),
        decreases last - i,
    {
        if occurs_at_exec(hay, needle, i) {
            return Some(i);
        }
        if i == last {
            break;
        }
        i = i + 1;
    }
    assert forall|j: int| !#[trigger] occurs_at(hay@, needle@, j) by {
        if 0 <= j <= last {
        }
    }
    None
}

/// Whether `needle` is a contiguous part of `hay` (`str::contains`).
pub fn str_contains(hay: &str, needle: &str) -> (r: bool)
    ensures
        r == contains_seq(hay@, needle@),
{
    let h = chars_of(hay);
    let n = chars_of(needle);
    match find_first(&h, &n) {
        Some(_) => true,
        None => false,
    }
}

/// `s` with its leftmost occurrence of `from` replaced by `to`
/// (`str::replacen(from, to, 1)`).
pub fn replace_first_str(s: &str, from: &str, to: &str) -> (r: String)
    ensures
        r@ == replace_first(s@, from@, to@),
{
    let sv = chars_of(s);
    let fv = chars_of(from);
    let tv = chars_of(to);
    match find_first(&sv, &fv) {
        None => string_from_chars(&sv),
        Some(i) => {
            let mut out: Vec<char> = Vec::new();
            for k in 0..i
                invariant
                    i <= sv@.len(),
                    out@ == sv@.take(k as int),
            {
                out.push(sv[k]);
                assert(out@ =~= sv@.take(k + 1));
            }
            for k in 0..tv.len()
                invariant
                    out@ == sv@.take(i as int) + tv@.take(k as int),
            {
                out.push(tv[k]);
                assert(out@ =~= sv@.take(i as int) + tv@.take(k + 1));
            }
            let n = sv.len();
            assert(i + fv@.len() <= sv@.len());
            let start = i + fv.len();
            for k in start..n
                invariant
                    start <= n,
                    n == sv@.len(),
                    out@ == sv@.take(i as int) + tv@ + sv@.subrange(start as int, k as int),
            {
                out.push(sv[k]);
                assert(out@ =~= sv@.take(i as int) + tv@ + sv@.subrange(start as int, k + 1));
            }
            proof {
                assert(tv@.take(tv@.len() as int) =~= tv@);
                assert(sv@.subrange(start as int, n as int) =~= sv@.skip(start as int));
                assert(contains_seq(sv@, fv@));
                let j = choose|j: int| is_first_occurrence(sv@, fv@, j);
                lemma_first_occurrence_unique(sv@, fv@, i as int, j);
            }
            string_from_chars(&out)
        },
    }
}

/// The decimal numeral of `n` (`usize::to_string`).
pub fn decimal_string(n: usize) -> (s: String)
    ensures
        s@ == decimal(n as nat),
    decreases n,
{
    if n < 10 {
        let mut s = String::new();
        push_char(&mut s, digit(n));
        assert(s@ =~= decimal(n as nat));
        s
    } else {
        let mut s = decimal_string(n / 10);
        push_char(&mut s, digit(n % 10));
        s
    }
}

fn digit(d: usize) -> (c: char)
    requires
        d < 10,
    ensures
        c == digit_char(d as nat),
{
    let b: u8 = 48u8 + (d as u8);
    b as char
}

} // verus!

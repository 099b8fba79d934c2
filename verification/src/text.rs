//! Small verified utilities over strings: comparison, affix and substring
//! tests, and decimal rendering of unsigned integers.

use vstd::prelude::*;

verus! {

/// `needle` occurs in `hay` starting at position `at`.
pub open spec fn spec_match_at(hay: Seq<char>, needle: Seq<char>, at: int) -> bool {
    0 <= at && at + needle.len() <= hay.len() && hay.subrange(at, at + needle.len()) == needle
}

/// `hay` holds `needle` somewhere as a contiguous run.
pub open spec fn spec_contains(hay: Seq<char>, needle: Seq<char>) -> bool {
    exists|at: int| spec_match_at(hay, needle, at)
}

/// `s` begins with `prefix`.
pub open spec fn spec_starts_with(s: Seq<char>, prefix: Seq<char>) -> bool {
    spec_match_at(s, prefix, 0)
}

/// `s` ends with `suffix`.
pub open spec fn spec_ends_with(s: Seq<char>, suffix: Seq<char>) -> bool {
    suffix.len() <= s.len() && spec_match_at(s, suffix, s.len() - suffix.len())
}

/// Character-wise string equality.
pub fn str_eq(a: &str, b: &str) -> (r: bool)
    ensures
        r == (a@ == b@),
{
    let alen = a.unicode_len();
    let blen = b.unicode_len();
    if alen != blen {
        proof {
            assert(a@.len() != b@.len());
        }
        return false;
    }
    let mut i: usize = 0;
    while i < alen
        invariant
            alen == a@.len(),
            blen == b@.len(),
            alen == blen,
            i <= alen,
            forall|j: int| 0 <= j < i ==> a@[j] == b@[j],
        decreases alen - i,
    {
        if a.get_char(i) != b.get_char(i) {
            return false;
        }
        i = i + 1;
    }
    proof {
        assert(a@ =~= b@);
    }
    true
}

/// `needle` occurs in `hay` starting at `at`.
pub fn match_at(hay: &str, needle: &str, at: usize) -> (r: bool)
    requires
        at + needle@.len() <= hay@.len(),
    ensures
        r == spec_match_at(hay@, needle@, at as int),
{
    let hlen = hay.unicode_len();
    let nlen = needle.unicode_len();
    let mut i: usize = 0;
    while i < nlen
        invariant
            hlen == hay@.len(),
            nlen == needle@.len(),
            at + nlen <= hlen,
            i <= nlen,
            forall|j: int| 0 <= j < i ==> hay@[at + j] == needle@[j],
        decreases nlen - i,
    {
        if hay.get_char(at + i) != needle.get_char(i) {
            assert(!spec_match_at(hay@, needle@, at as int)) by {
                assert(hay@.subrange(at as int, at + needle@.len())[i as int] == hay@[at + i]);
            }
            return false;
        }
        i = i + 1;
    }
    proof {
        assert(hay@.subrange(at as int, at + needle@.len()) =~= needle@);
    }
    true
}

/// `hay` holds `needle` as a contiguous run.
pub fn contains_str(hay: &str, needle: &str) -> (r: bool)
    ensures
        r == spec_contains(hay@, needle@),
{
    let hlen = hay.unicode_len();
    let nlen = needle.unicode_len();
    if nlen > hlen {
        proof {
            assert(forall|at: int| !spec_match_at(hay@, needle@, at));
        }
        return false;
    }
    if nlen == 0 {
        proof {
            assert(hay@.subrange(0, 0) =~= needle@);
            assert(spec_match_at(hay@, needle@, 0));
        }
        return true;
    }
    let mut at: usize = 0;
    while at <= hlen - nlen
        invariant
            hlen == hay@.len(),
            nlen == needle@.len(),
            1 <= nlen <= hlen,
            at <= hlen - nlen + 1,
            forall|k: int| 0 <= k < at ==> !spec_match_at(hay@, needle@, k),
        decreases hlen - at,
    {
        if match_at(hay, needle, at) {
            return true;
        }
        at = at + 1;
    }
    proof {
        assert(forall|k: int| spec_match_at(hay@, needle@, k) ==> 0 <= k && k + needle@.len() <= hay@.len());
    }
    false
}

/// `s` begins with `prefix`.
pub fn starts_with(s: &str, prefix: &str) -> (r: bool)
    ensures
        r == spec_starts_with(s@, prefix@),
{
    let slen = s.unicode_len();
    let plen = prefix.unicode_len();
    if plen > slen {
        return false;
    }
    match_at(s, prefix, 0)
}

/// `s` ends with `suffix`.
pub fn ends_with(s: &str, suffix: &str) -> (r: bool)
    ensures
        r == spec_ends_with(s@, suffix@),
{
    let slen = s.unicode_len();
    let xlen = suffix.unicode_len();
    if xlen > slen {
        return false;
    }
    match_at(s, suffix, slen - xlen)
}

/// The position of the first occurrence of `c` in `s`, or `s.len()` if
/// there is none.
pub open spec fn spec_first_index(s: Seq<char>, c: char) -> int
    decreases s.len(),
{
    if s.len() == 0 {
        0
    } else if s[0] == c {
        0
    } else {
        1 + spec_first_index(s.drop_first(), c)
    }
}

pub proof fn lemma_first_index(s: Seq<char>, c: char)
    ensures
        0 <= spec_first_index(s, c) <= s.len(),
        forall|j: int| 0 <= j < spec_first_index(s, c) ==> s[j] != c,
        spec_first_index(s, c) < s.len() ==> s[spec_first_index(s, c)] == c,
    decreases s.len(),
{
    if s.len() == 0 {
    } else if s[0] == c {
    } else {
        lemma_first_index(s.drop_first(), c);
        assert(forall|j: int| 1 <= j < spec_first_index(s, c) ==> s[j] == s.drop_first()[j - 1]);
    }
}

/// `spec_first_index` is pinned down by its characteristic facts.
pub proof fn lemma_first_index_unique(s: Seq<char>, c: char, d: int)
    requires
        0 <= d <= s.len(),
        forall|j: int| 0 <= j < d ==> s[j] != c,
        d < s.len() ==> s[d] == c,
    ensures
        spec_first_index(s, c) == d,
    decreases s.len(),
{
    if s.len() == 0 {
    } else if s[0] == c {
        assert(d == 0);
    } else {
        assert(d >= 1);
        lemma_first_index_unique(s.drop_first(), c, d - 1);
    }
}

/// The character for one decimal digit.
pub open spec fn spec_digit_char(d: int) -> char {
    if d == 0 {
        '0'
    } else if d == 1 {
        '1'
    } else if d == 2 {
        '2'
    } else if d == 3 {
        '3'
    } else if d == 4 {
        '4'
    } else if d == 5 {
        '5'
    } else if d == 6 {
        '6'
    } else if d == 7 {
        '7'
    } else if d == 8 {
        '8'
    } else {
        '9'
    }
}

/// The decimal rendering of `n`, most significant digit first.
pub open spec fn spec_dec(n: nat) -> Seq<char>
    decreases n,
{
    if n < 10 {
        seq![spec_digit_char(n as int)]
    } else {
        spec_dec(n / 10) + seq![spec_digit_char((n % 10) as int)]
    }
}

fn push_digit(out: &mut String, d: usize)
    requires
        d < 10,
    ensures
        final(out)@ == old(out)@ + seq![spec_digit_char(d as int)],
{
    match d {
        0 => {
            proof {
                reveal_strlit("0");
            }
            out.append("0");
        },
        1 => {
            proof {
                reveal_strlit("1");
            }
            out.append("1");
        },
        2 => {
            proof {
                reveal_strlit("2");
            }
            out.append("2");
        },
        3 => {
            proof {
                reveal_strlit("3");
            }
            out.append("3");
        },
        4 => {
            proof {
                reveal_strlit("4");
            }
            out.append("4");
        },
        5 => {
            proof {
                reveal_strlit("5");
            }
            out.append("5");
        },
        6 => {
            proof {
                reveal_strlit("6");
            }
            out.append("6");
        },
        7 => {
            proof {
                reveal_strlit("7");
            }
            out.append("7");
        },
        8 => {
            proof {
                reveal_strlit("8");
            }
            out.append("8");
        },
        _ => {
            proof {
                reveal_strlit("9");
            }
            out.append("9");
        },
    }
    proof {
        assert(out@ =~= old(out)@ + seq![spec_digit_char(d as int)]);
    }
}

/// Appends the decimal rendering of `n` to `out`.
pub fn write_dec(out: &mut String, n: usize)
    ensures
        final(out)@ == old(out)@ + spec_dec(n as nat),
    decreases n,
{
    if n < 10 {
        push_digit(out, n);
    } else {
        write_dec(out, n / 10);
        push_digit(out, n % 10);
        proof {
            assert(out@ =~= old(out)@ + spec_dec(n as nat));
        }
    }
}

/// `c` is a decimal digit.
pub open spec fn spec_is_digit(c: char) -> bool {
    48 <= c as u32 <= 57
}

/// The decimal digits of `s`, in order, everything else dropped.
pub open spec fn spec_digits(s: Seq<char>) -> Seq<char>
    decreases s.len(),
{
    if s.len() == 0 {
        Seq::empty()
    } else {
        (if spec_is_digit(s[0]) {
            seq![s[0]]
        } else {
            Seq::empty()
        }) + spec_digits(s.drop_first())
    }
}

pub proof fn lemma_digits_singleton(c: char)
    ensures
        spec_digits(seq![c]) == if spec_is_digit(c) {
            seq![c]
        } else {
            Seq::<char>::empty()
        },
{
    reveal_with_fuel(spec_digits, 3);
    assert(seq![c].drop_first() =~= Seq::<char>::empty());
    if spec_is_digit(c) {
        assert(spec_digits(seq![c]) =~= seq![c]);
    } else {
        assert(spec_digits(seq![c]) =~= Seq::<char>::empty());
    }
}

pub proof fn lemma_digits_app(a: Seq<char>, b: Seq<char>)
    ensures
        spec_digits(a + b) == spec_digits(a) + spec_digits(b),
    decreases a.len(),
{
    if a.len() == 0 {
        assert(a + b =~= b);
        assert(spec_digits(a) + spec_digits(b) =~= spec_digits(b));
    } else {
        lemma_digits_app(a.drop_first(), b);
        assert((a + b).drop_first() =~= a.drop_first() + b);
        assert(spec_digits(a + b) =~= spec_digits(a) + spec_digits(b));
    }
}

pub proof fn lemma_digits_are_digits(s: Seq<char>)
    ensures
        forall|i: int| 0 <= i < spec_digits(s).len() ==> spec_is_digit(#[trigger] spec_digits(s)[i]),
    decreases s.len(),
{
    if s.len() > 0 {
        lemma_digits_are_digits(s.drop_first());
        let head: Seq<char> = if spec_is_digit(s[0]) {
            seq![s[0]]
        } else {
            Seq::empty()
        };
        assert(spec_digits(s) == head + spec_digits(s.drop_first()));
        assert forall|i: int| 0 <= i < spec_digits(s).len() implies spec_is_digit(
            #[trigger] spec_digits(s)[i],
        ) by {
            if i < head.len() {
                assert(spec_digits(s)[i] == s[0]);
            } else {
                assert(spec_digits(s)[i] == spec_digits(s.drop_first())[i - head.len()]);
            }
        }
    }
}

/// The numeric value of a run of decimal digits, most significant first.
pub open spec fn spec_dec_value(ds: Seq<char>) -> int
    decreases ds.len(),
{
    if ds.len() == 0 {
        0
    } else {
        spec_dec_value(ds.drop_last()) * 10 + (ds.last() as u32 - 48)
    }
}

pub proof fn lemma_dec_value_nonneg(ds: Seq<char>)
    requires
        forall|i: int| 0 <= i < ds.len() ==> spec_is_digit(#[trigger] ds[i]),
    ensures
        spec_dec_value(ds) >= 0,
    decreases ds.len(),
{
    if ds.len() > 0 {
        lemma_dec_value_nonneg(ds.drop_last());
    }
}

/// Appending digits never shrinks the value.
pub proof fn lemma_dec_value_extend_mono(a: Seq<char>, b: Seq<char>)
    requires
        forall|i: int| 0 <= i < a.len() ==> spec_is_digit(#[trigger] a[i]),
        forall|i: int| 0 <= i < b.len() ==> spec_is_digit(#[trigger] b[i]),
    ensures
        spec_dec_value(a + b) >= spec_dec_value(a),
    decreases b.len(),
{
    lemma_dec_value_nonneg(a);
    if b.len() == 0 {
        assert(a + b =~= a);
    } else {
        lemma_dec_value_extend_mono(a, b.drop_last());
        assert((a + b).drop_last() =~= a + b.drop_last());
        assert(forall|i: int| 0 <= i < (a + b.drop_last()).len()
            ==> spec_is_digit(#[trigger] (a + b.drop_last())[i]));
        lemma_dec_value_nonneg(a + b.drop_last());
    }
}

/// A path joined with `/`, the engine's separator.
pub open spec fn spec_join(dir: Seq<char>, name: Seq<char>) -> Seq<char> {
    dir + seq!['/'] + name
}

/// Joins a directory path and a file name with `/`.
pub fn join_path(dir: &str, name: &str) -> (r: String)
    ensures
        r@ == spec_join(dir@, name@),
{
    let mut out = String::from_str(dir);
    proof {
        reveal_strlit("/");
    }
    out.append("/");
    out.append(name);
    proof {
        assert(out@ =~= spec_join(dir@, name@));
    }
    out
}

/// The decimal rendering of a signed number: a leading `-` for a negative
/// one, then the digits of its magnitude.
pub open spec fn spec_dec_signed(n: int) -> Seq<char> {
    if n < 0 {
        seq!['-'] + spec_dec((-n) as nat)
    } else {
        spec_dec(n as nat)
    }
}

/// Appends the decimal rendering of the signed `n` to `out`.
pub fn write_dec_signed(out: &mut String, n: i32)
    ensures
        final(out)@ == old(out)@ + spec_dec_signed(n as int),
{
    if n < 0 {
        proof {
            reveal_strlit("-");
        }
        out.append("-");
        let magnitude: usize = if n == i32::MIN {
            2147483648
        } else {
            (-n) as usize
        };
        write_dec(out, magnitude);
        proof {
            assert(out@ =~= old(out)@ + spec_dec_signed(n as int));
        }
    } else {
        write_dec(out, n as usize);
    }
}

} // verus!

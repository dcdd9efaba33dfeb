//! Decimal notation for the integers that appear in a descriptor.
//!
//! The wire format writes an image size as a plain decimal number; these are
//! the conversions between `i64` and that notation, together with the proof
//! that printing and re-reading a number gives it back.

use vstd::prelude::*;

verus! {

broadcast use vstd::std_specs::vec::group_vec_axioms, vstd::seq::group_seq_axioms;

// ---------------------------------------------------------------------------
// Number lexemes of the wire format
// ---------------------------------------------------------------------------

pub open spec fn is_digit(c: char) -> bool {
    '0' <= c && c <= '9'
}

pub open spec fn all_digits(s: Seq<char>) -> bool {
    forall|i: int| 0 <= i < s.len() ==> is_digit(#[trigger] s[i])
}

/// The integer part of a JSON number: `0`, or digits without a leading zero.
pub open spec fn is_int_lexeme(s: Seq<char>) -> bool {
    s.len() > 0 && all_digits(s) && (s.len() > 1 ==> s[0] != '0')
}

/// A fraction part: `.` followed by one or more digits.
pub open spec fn is_frac_lexeme(s: Seq<char>) -> bool {
    s.len() >= 2 && s[0] == '.' && all_digits(s.drop_first())
}

/// An exponent part: `e`/`E`, an optional sign, one or more digits.
pub open spec fn is_exp_lexeme(s: Seq<char>) -> bool {
    s.len() >= 2 && (s[0] == 'e' || s[0] == 'E') && {
        let t = if s[1] == '+' || s[1] == '-' {
            s.subrange(2, s.len() as int)
        } else {
            s.drop_first()
        };
        t.len() > 0 && all_digits(t)
    }
}

/// An unsigned JSON number lexeme: integer part, optional fraction, optional
/// exponent.
pub open spec fn is_unsigned_num_lexeme(s: Seq<char>) -> bool {
    exists|i: int, j: int|
        #![trigger s.subrange(0, i), s.subrange(i, j)]
        0 < i <= j <= s.len() && is_int_lexeme(s.subrange(0, i)) && (i == j || is_frac_lexeme(
            s.subrange(i, j),
        )) && (j == s.len() || is_exp_lexeme(s.subrange(j, s.len() as int)))
}

/// A JSON number lexeme, as the grammar of the wire format defines it.
pub open spec fn is_num_lexeme(s: Seq<char>) -> bool {
    if s.len() > 0 && s[0] == '-' {
        is_unsigned_num_lexeme(s.drop_first())
    } else {
        is_unsigned_num_lexeme(s)
    }
}

/// Plain decimal notation of an integer in machine range: digits without a
/// leading zero, under an optional `-` for a strictly negative value down to
/// the least `i64`; a positive value must fit in a `u64`.  The wire reader
/// holds such a number exactly and writes it back in the same notation.
pub open spec fn is_canonical_int(s: Seq<char>) -> bool {
    if s.len() > 0 && s[0] == '-' {
        let t = s.drop_first();
        is_int_lexeme(t) && digits_val(t) >= 1 && -digits_val(t) >= i64::MIN
    } else {
        is_int_lexeme(s) && digits_val(s) <= u64::MAX
    }
}

/// The digit character for a value below ten.
pub open spec fn dec_digit(d: int) -> char {
    if d == 0 {
        '0'
    } else if d == 1 {
        '1'
    } else if d == 2 {
        '2'
    } else if d == 3 {
        '3'
    } else if d == 4 {
        '4'
    } else if d == 5 {
        '5'
    } else if d == 6 {
        '6'
    } else if d == 7 {
        '7'
    } else if d == 8 {
        '8'
    } else {
        '9'
    }
}

/// The value of a digit character.
pub open spec fn digit_val(c: char) -> int {
    c as int - '0' as int
}

/// The decimal notation of a non-negative number.
pub open spec fn spec_u64_dec(n: int) -> Seq<char>
    decreases n,
{
    if n < 10 {
        seq![dec_digit(n)]
    } else {
        spec_u64_dec(n / 10).push(dec_digit(n % 10))
    }
}

/// The decimal notation of a number, with `-` ahead of a negative one.
pub open spec fn spec_i64_dec(n: int) -> Seq<char> {
    if n < 0 {
        seq!['-'] + spec_u64_dec(-n)
    } else {
        spec_u64_dec(n)
    }
}

/// The number a digit string stands for.
pub open spec fn digits_val(s: Seq<char>) -> int
    decreases s.len(),
{
    if s.len() == 0 {
        0
    } else {
        digits_val(s.drop_last()) * 10 + digit_val(s.last())
    }
}

/// The number a decimal string stands for, within the `i64` range; `None`
/// where the string is not plain decimal notation or the value does not fit.
pub open spec fn spec_parse_i64(s: Seq<char>) -> Option<int> {
    if s.len() > 0 && s[0] == '-' {
        let t = s.drop_first();
        if t.len() > 0 && all_digits(t) && -digits_val(t) >= i64::MIN {
            Some(-digits_val(t))
        } else {
            None
        }
    } else {
        if s.len() > 0 && all_digits(s) && digits_val(s) <= i64::MAX {
            Some(digits_val(s))
        } else {
            None
        }
    }
}

pub proof fn lemma_u64_dec_digits(n: int)
    requires
        n >= 0,
    ensures
        spec_u64_dec(n).len() > 0,
        all_digits(spec_u64_dec(n)),
        spec_u64_dec(n)[0] != '0' || n < 10,
    decreases n,
{
    if n < 10 {
        assert(is_digit(dec_digit(n)));
    } else {
        lemma_u64_dec_digits(n / 10);
        let s = spec_u64_dec(n / 10);
        assert(is_digit(dec_digit(n % 10)));
        assert(forall|i: int|
            0 <= i < s.push(dec_digit(n % 10)).len() ==> is_digit(
                #[trigger] s.push(dec_digit(n % 10))[i],
            ));
        assert(n / 10 >= 1);
        assert(s[0] != '0');
        assert(s.push(dec_digit(n % 10))[0] == s[0]);
    }
}

pub proof fn lemma_u64_dec_val(n: int)
    requires
        n >= 0,
    ensures
        digits_val(spec_u64_dec(n)) == n,
    decreases n,
{
    if n < 10 {
        let s = spec_u64_dec(n);
        assert(s.drop_last() =~= Seq::<char>::empty());
        assert(digits_val(Seq::<char>::empty()) == 0);
        assert(s.last() == dec_digit(n));
        assert(digits_val(s) == digits_val(s.drop_last()) * 10 + digit_val(s.last()));
        assert(digit_val(dec_digit(n)) == n);
    } else {
        lemma_u64_dec_val(n / 10);
        let s = spec_u64_dec(n / 10);
        let t = s.push(dec_digit(n % 10));
        assert(t.drop_last() =~= s);
        assert(t.last() == dec_digit(n % 10));
        assert(digit_val(dec_digit(n % 10)) == n % 10);
        assert(digits_val(t) == n / 10 * 10 + n % 10);
        vstd::arithmetic::div_mod::lemma_fundamental_div_mod(n, 10);
    }
}

/// Decimal notation is a number lexeme of the wire format.
pub proof fn lemma_i64_dec_is_num_lexeme(n: int)
    requires
        n >= i64::MIN,
        n <= i64::MAX,
    ensures
        is_num_lexeme(spec_i64_dec(n)),
{
    let m: int = if n < 0 {
        -n
    } else {
        n
    };
    lemma_u64_dec_digits(m);
    let u = spec_u64_dec(m);
    assert(is_int_lexeme(u)) by {
        if u.len() > 1 {
            assert(m >= 10) by {
                if m < 10 {
                    assert(u =~= seq![dec_digit(m)]);
                }
            }
        }
    }
    assert(is_unsigned_num_lexeme(u)) by {
        let l = u.len() as int;
        assert(u.subrange(0, l) =~= u);
        assert(is_int_lexeme(u.subrange(0, l)));
        assert(u.subrange(l, l).len() == 0);
    }
    if n < 0 {
        let s = spec_i64_dec(n);
        assert(s[0] == '-');
        assert(s.drop_first() =~= u);
    }
}

/// Printed decimal notation is a canonical integer lexeme.
pub proof fn lemma_i64_dec_canonical(n: int)
    requires
        n >= i64::MIN,
        n <= i64::MAX,
    ensures
        is_canonical_int(spec_i64_dec(n)),
{
    let m: int = if n < 0 {
        -n
    } else {
        n
    };
    lemma_u64_dec_digits(m);
    lemma_u64_dec_val(m);
    let u = spec_u64_dec(m);
    assert(is_int_lexeme(u)) by {
        if u.len() > 1 {
            assert(m >= 10) by {
                if m < 10 {
                    assert(u =~= seq![dec_digit(m)]);
                }
            }
        }
    }
    if n < 0 {
        let s = spec_i64_dec(n);
        assert(s[0] == '-');
        assert(s.drop_first() =~= u);
    } else {
        assert(is_digit(u[0]));
    }
}

/// Re-reading printed decimal notation gives the number back.
pub proof fn lemma_dec_roundtrip(n: int)
    requires
        n >= i64::MIN,
        n <= i64::MAX,
    ensures
        spec_parse_i64(spec_i64_dec(n)) == Some(n),
{
    if n < 0 {
        lemma_u64_dec_digits(-n);
        lemma_u64_dec_val(-n);
        let s = spec_i64_dec(n);
        assert(s[0] == '-');
        assert(s.drop_first() =~= spec_u64_dec(-n));
    } else {
        lemma_u64_dec_digits(n);
        lemma_u64_dec_val(n);
        let s = spec_i64_dec(n);
        assert(is_digit(s[0]));
        assert(s[0] != '-');
    }
}

/// A value that plain decimal notation yields is within the `i64` range.
pub proof fn lemma_parse_i64_bounds(s: Seq<char>)
    ensures
        spec_parse_i64(s) matches Some(v) ==> i64::MIN <= v <= i64::MAX,
{
    if s.len() > 0 && s[0] == '-' {
        let t = s.drop_first();
        if t.len() > 0 && all_digits(t) {
            lemma_digits_val_nonneg(t);
        }
    } else {
        if s.len() > 0 && all_digits(s) {
            lemma_digits_val_nonneg(s);
        }
    }
}

fn digit_str(d: u64) -> (r: &'static str)
    requires
        d < 10,
    ensures
        r@ == seq![dec_digit(d as int)],
{
    let r: &'static str = if d == 0 {
        "0"
    } else if d == 1 {
        "1"
    } else if d == 2 {
        "2"
    } else if d == 3 {
        "3"
    } else if d == 4 {
        "4"
    } else if d == 5 {
        "5"
    } else if d == 6 {
        "6"
    } else if d == 7 {
        "7"
    } else if d == 8 {
        "8"
    } else {
        "9"
    };
    proof {
        reveal_strlit("0");
        reveal_strlit("1");
        reveal_strlit("2");
        reveal_strlit("3");
        reveal_strlit("4");
        reveal_strlit("5");
        reveal_strlit("6");
        reveal_strlit("7");
        reveal_strlit("8");
        reveal_strlit("9");
        assert(r@ =~= seq![dec_digit(d as int)]);
    }
    r
}

fn push_u64_dec(s: &mut String, n: u64)
    ensures
        final(s)@ == old(s)@ + spec_u64_dec(n as int),
    decreases n,
{
    if n < 10 {
        s.append(digit_str(n));
        assert(final(s)@ =~= old(s)@ + spec_u64_dec(n as int));
    } else {
        push_u64_dec(s, n / 10);
        s.append(digit_str(n % 10));
        assert(final(s)@ =~= old(s)@ + spec_u64_dec(n as int));
    }
}

/// The decimal notation of `n`.
pub fn u64_to_dec(n: u64) -> (r: String)
    ensures
        r@ == spec_u64_dec(n as int),
{
    let mut s = String::new();
    push_u64_dec(&mut s, n);
    proof {
        assert(s@ =~= spec_u64_dec(n as int));
    }
    s
}

/// The decimal notation of `n`, signed.
pub fn i64_to_dec(n: i64) -> (r: String)
    ensures
        r@ == spec_i64_dec(n as int),
{
    if n >= 0 {
        u64_to_dec(n as u64)
    } else {
        let m: u64 = ((-(n + 1)) as u64) + 1;
        assert(m as int == -(n as int));
        let mut s = String::from_str("-");
        proof {
            reveal_strlit("-");
        }
        push_u64_dec(&mut s, m);
        proof {
            assert(s@ =~= spec_i64_dec(n as int));
        }
        s
    }
}

proof fn lemma_digits_val_nonneg(s: Seq<char>)
    requires
        all_digits(s),
    ensures
        digits_val(s) >= 0,
    decreases s.len(),
{
    if s.len() > 0 {
        assert(all_digits(s.drop_last())) by {
            assert(forall|i: int| 0 <= i < s.len() - 1 ==> #[trigger] s.drop_last()[i] == s[i]);
        }
        lemma_digits_val_nonneg(s.drop_last());
        assert(is_digit(s.last()));
    }
}

proof fn lemma_digits_val_take_step(s: Seq<char>, i: int)
    requires
        0 <= i < s.len(),
    ensures
        digits_val(s.take(i + 1)) == digits_val(s.take(i)) * 10 + digit_val(s[i]),
{
    assert(s.take(i + 1).drop_last() =~= s.take(i));
    assert(s.take(i + 1).last() == s[i]);
}

proof fn lemma_digits_val_grows(s: Seq<char>, i: int)
    requires
        all_digits(s),
        0 <= i <= s.len(),
    ensures
        digits_val(s) >= digits_val(s.take(i)),
    decreases s.len() - i,
{
    assert(forall|k: int, j: int|
        0 <= k <= s.len() && 0 <= j < k ==> #[trigger] s.take(k)[j] == s[j]);
    if i == s.len() {
        assert(s.take(i) =~= s);
    } else {
        lemma_digits_val_take_step(s, i);
        assert(all_digits(s.take(i))) by {
            assert(forall|j: int| 0 <= j < i ==> is_digit(#[trigger] s.take(i)[j]));
        }
        lemma_digits_val_nonneg(s.take(i));
        assert(is_digit(s[i]));
        assert(digits_val(s.take(i + 1)) >= digits_val(s.take(i)));
        lemma_digits_val_grows(s, i + 1);
    }
}

/// Reads plain decimal notation, with an optional leading `-`, as an `i64`.
///
/// Fails exactly where [`spec_parse_i64`] does: on empty or non-digit text
/// and on values outside the `i64` range.
pub fn parse_dec_i64(s: &str) -> (r: Option<i64>)
    ensures
        match r {
            Some(v) => spec_parse_i64(s@) == Some(v as int),
            None => spec_parse_i64(s@) is None,
        },
{
    let len = s.unicode_len();
    if len == 0 {
        return None;
    }
    let neg = s.get_char(0) == '-';
    let start: usize = if neg {
        1
    } else {
        0
    };
    let digits_len: usize = len - start;
    if digits_len == 0 {
        return None;
    }
    let ghost d: Seq<char> = if neg {
        s@.drop_first()
    } else {
        s@
    };
    proof {
        assert(d.len() == digits_len);
        assert(forall|i: int| 0 <= i < d.len() ==> d[i] == s@[i + start]);
    }
    let mut i: usize = 0;
    let mut acc: u64 = 0;
    while i < digits_len
        invariant
            0 <= i <= digits_len,
            start + digits_len == s@.len(),
            digits_len == d.len(),
            neg ==> start == 1 && s@[0] == '-' && d == s@.drop_first(),
            !neg ==> start == 0 && d == s@ && s@[0] != '-',
            forall|k: int| 0 <= k < d.len() ==> d[k] == s@[k + start],
            forall|k: int| 0 <= k < i ==> is_digit(#[trigger] d[k]),
            acc as int == digits_val(d.take(i as int)),
        decreases digits_len - i,
    {
        let c = s.get_char(start + i);
        proof {
            assert(c == d[i as int]);
        }
        if !(c >= '0' && c <= '9') {
            proof {
                assert(!is_digit(d[i as int]));
                assert(!all_digits(d));
            }
            return None;
        }
        let dv: u64 = (c as u32 as u64) - 48;
        proof {
            assert(dv as int == digit_val(c)) by {
                assert('0' as int == 48);
            }
        }
        let next = match acc.checked_mul(10) {
            Some(t) => t.checked_add(dv),
            None => None,
        };
        proof {
            lemma_digits_val_take_step(d, i as int);
        }
        match next {
            Some(t) => {
                acc = t;
            },
            None => {
                proof {
                    assert(digits_val(d.take(i as int + 1)) > u64::MAX);
                    assert(forall|k: int| 0 <= k < i + 1 ==> is_digit(#[trigger] d[k]));
                    if all_digits(d) {
                        lemma_digits_val_grows(d, i as int + 1);
                        assert(digits_val(d) > u64::MAX);
                    }
                }
                return None;
            },
        }
        i = i + 1;
    }
    proof {
        assert(d.take(digits_len as int) =~= d);
        assert(all_digits(d));
        assert(acc as int == digits_val(d));
    }
    if neg {
        if acc <= 9223372036854775807u64 {
            Some(-(acc as i64))
        } else if acc == 9223372036854775808u64 {
            Some(i64::MIN)
        } else {
            proof {
                assert(-digits_val(d) < i64::MIN);
            }
            None
        }
    } else {
        if acc <= 9223372036854775807u64 {
            Some(acc as i64)
        } else {
            proof {
                assert(digits_val(d) > i64::MAX);
            }
            None
        }
    }
}

} // verus!

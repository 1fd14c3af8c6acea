//! Text building blocks: character-level access to strings and the exact
//! decimal form of 32-bit integers.

use vstd::prelude::*;
use vstd::std_specs::iter::IteratorSpec;

verus! {

broadcast use vstd::std_specs::vec::group_vec_axioms;

/// Relies on String::push: appends the given character to the end of the string.
#[verifier::external_body]
pub fn push_char(s: &mut String, c: char)
    ensures
        final(s)@ == old(s)@.push(c),
{
    s.push(c);
}

/// The characters of `s`, in order.
pub fn str_to_chars(s: &str) -> (r: Vec<char>)
    ensures
        r@ == s@,
{
    broadcast use vstd::string::next_postcondition, vstd::string::axiom_spec_iter;

    let mut it = s.chars();
    let mut out: Vec<char> = Vec::new();
    loop
        invariant
            it.obeys_prophetic_iter_laws(),
            out@ + it.remaining() == s@,
            out@.len() <= s@.len(),
        decreases s@.len() - out@.len(),
    {
        match it.next() {
            Some(c) => {
                out.push(c);
                proof {
                    assert(out@ + it.remaining() =~= s@);
                }
            },
            None => {
                proof {
                    assert(out@ =~= s@);
                }
                return out;
            },
        }
    }
}

pub open spec fn is_digit(c: char) -> bool {
    '0' as u32 <= c as u32 <= '9' as u32
}

pub open spec fn digit_val(c: char) -> int {
    c as u32 - '0' as u32
}

pub open spec fn all_digits(s: Seq<char>) -> bool {
    forall|i: int| 0 <= i < s.len() ==> is_digit(#[trigger] s[i])
}

/// The value of a string of decimal digits.
pub open spec fn dec_value(s: Seq<char>) -> int
    decreases s.len(),
{
    if s.len() == 0 {
        0
    } else {
        dec_value(s.drop_last()) * 10 + digit_val(s.last())
    }
}

pub open spec fn digit_char(d: int) -> char {
    if d == 0 {
        '0'
    } else if d == 1 {
        '1'
    } else if d == 2 {
        '2'
    } else if d == 3 {
        '3'
    } else if d == 4 {
        '4'
    } else if d == 5 {
        '5'
    } else if d == 6 {
        '6'
    } else if d == 7 {
        '7'
    } else if d == 8 {
        '8'
    } else {
        '9'
    }
}

/// The decimal digits of `n`, most significant first, without leading zeros.
pub open spec fn spec_digits(n: nat) -> Seq<char>
    decreases n,
{
    if n < 10 {
        seq![digit_char(n as int)]
    } else {
        spec_digits(n / 10).push(digit_char((n % 10) as int))
    }
}

/// The decimal text of a signed 32-bit integer.
pub open spec fn spec_i32_text(n: i32) -> Seq<char> {
    if n < 0 {
        seq!['-'] + spec_digits((-(n as int)) as nat)
    } else {
        spec_digits(n as nat)
    }
}

/// An optional minus sign followed by at least one decimal digit.
pub open spec fn is_int_lexeme(t: Seq<char>) -> bool {
    if t.len() > 0 && t[0] == '-' {
        t.len() > 1 && all_digits(t.skip(1))
    } else {
        t.len() > 0 && all_digits(t)
    }
}

/// The signed value named by an integer lexeme.
pub open spec fn int_lexeme_value(t: Seq<char>) -> int {
    if t.len() > 0 && t[0] == '-' {
        -dec_value(t.skip(1))
    } else {
        dec_value(t)
    }
}

/// The `i32` a decimal text names: `None` unless the text is an integer
/// lexeme whose value fits.
pub open spec fn spec_i32_of_text(t: Seq<char>) -> Option<i32> {
    if is_int_lexeme(t) && i32::MIN <= int_lexeme_value(t) <= i32::MAX {
        Some(int_lexeme_value(t) as i32)
    } else {
        None
    }
}

pub proof fn lemma_dec_value_bounds(s: Seq<char>)
    requires
        all_digits(s),
    ensures
        0 <= dec_value(s),
    decreases s.len(),
{
    if s.len() > 0 {
        assert(all_digits(s.drop_last())) by {
            assert(forall|i: int|
                0 <= i < s.len() - 1 ==> #[trigger] s.drop_last()[i] == s[i]);
        }
        lemma_dec_value_bounds(s.drop_last());
    }
}

/// Appending digits never shrinks the value.
pub proof fn lemma_dec_value_extend(s: Seq<char>, k: int)
    requires
        all_digits(s),
        0 <= k <= s.len(),
    ensures
        dec_value(s) >= dec_value(s.take(k)),
    decreases s.len() - k,
{
    if k < s.len() {
        lemma_dec_value_extend(s, k + 1);
        assert(s.take(k + 1).drop_last() =~= s.take(k));
        assert(s.take(k + 1).last() == s[k]);
        assert(all_digits(s.take(k))) by {
            assert(forall|i: int| 0 <= i < k ==> #[trigger] s.take(k)[i] == s[i]);
        }
        lemma_dec_value_bounds(s.take(k));
        assert(dec_value(s.take(k + 1)) == dec_value(s.take(k)) * 10 + digit_val(s[k]));
    } else {
        assert(s.take(k) =~= s);
    }
}

pub proof fn lemma_spec_digits_all_digits(n: nat)
    ensures
        all_digits(spec_digits(n)),
        spec_digits(n).len() >= 1,
        spec_digits(n)[0] != '-',
    decreases n,
{
    if n >= 10 {
        lemma_spec_digits_all_digits(n / 10);
    }
}

pub proof fn lemma_dec_value_of_digits(n: nat)
    ensures
        dec_value(spec_digits(n)) == n,
    decreases n,
{
    if n < 10 {
        reveal_with_fuel(dec_value, 3);
        assert(spec_digits(n) =~= seq![digit_char(n as int)]);
        assert(spec_digits(n).drop_last() =~= Seq::<char>::empty());
        assert(dec_value(spec_digits(n)) == dec_value(Seq::<char>::empty()) * 10 + digit_val(
            digit_char(n as int),
        ));
        assert(digit_val(digit_char(n as int)) == n);
    } else {
        lemma_dec_value_of_digits(n / 10);
        assert(spec_digits(n).drop_last() =~= spec_digits(n / 10));
        assert(spec_digits(n).last() == digit_char((n % 10) as int));
        assert(digit_val(digit_char((n % 10) as int)) == n % 10);
        vstd::arithmetic::div_mod::lemma_fundamental_div_mod(n as int, 10);
    }
}

/// The decimal text of an `i32` names that integer and nothing else.
pub proof fn lemma_i32_text_round_trip(n: i32)
    ensures
        spec_i32_of_text(spec_i32_text(n)) == Some(n),
{
    if n < 0 {
        let mag = (-(n as int)) as nat;
        lemma_spec_digits_all_digits(mag);
        lemma_dec_value_of_digits(mag);
        let t = spec_i32_text(n);
        assert(t.skip(1) =~= spec_digits(mag));
    } else {
        lemma_spec_digits_all_digits(n as nat);
        lemma_dec_value_of_digits(n as nat);
    }
}

/// One decimal digit as a character.
pub fn digit_to_char(d: u32) -> (c: char)
    requires
        d < 10,
    ensures
        c == digit_char(d as int),
{
    match d {
        0 => '0',
        1 => '1',
        2 => '2',
        3 => '3',
        4 => '4',
        5 => '5',
        6 => '6',
        7 => '7',
        8 => '8',
        _ => '9',
    }
}

fn push_u32_digits(n: u32, out: &mut String)
    ensures
        final(out)@ == old(out)@ + spec_digits(n as nat),
    decreases n,
{
    if n >= 10 {
        push_u32_digits(n / 10, out);
    }
    push_char(out, digit_to_char(n % 10));
    proof {
        if n < 10 {
            assert(old(out)@ + spec_digits(n as nat) =~= old(out)@.push(digit_char(n as int)));
        } else {
            assert(old(out)@ + spec_digits(n as nat) =~= (old(out)@ + spec_digits(
                (n / 10) as nat,
            )).push(digit_char((n % 10) as int)));
        }
    }
}

/// The decimal text of `n`.
pub fn i32_to_text(n: i32) -> (r: String)
    ensures
        r@ == spec_i32_text(n),
{
    let mut out = String::new();
    if n < 0 {
        push_char(&mut out, '-');
        let mag: u32 = (-(n as i64)) as u32;
        push_u32_digits(mag, &mut out);
        proof {
            assert(out@ =~= seq!['-'] + spec_digits((-(n as int)) as nat));
        }
    } else {
        push_u32_digits(n as u32, &mut out);
    }
    out
}

/// Reads the `i32` a decimal text names, exactly when one does.
pub fn i32_of_text(t: &str) -> (r: Option<i32>)
    ensures
        r == spec_i32_of_text(t@),
{
    let v = str_to_chars(t);
    let n = v.len();
    if n == 0 {
        return None;
    }
    let neg = v[0] == '-';
    let start: usize = if neg {
        1
    } else {
        0
    };
    if neg && n == 1 {
        return None;
    }
    let ghost digits = if neg {
        t@.skip(1)
    } else {
        t@
    };
    let mut mag: u64 = 0;
    let mut i: usize = start;
    while i < n
        invariant
            v@ == t@,
            n == v@.len(),
            start <= i <= n,
            start == if neg {
                1int
            } else {
                0int
            },
            neg ==> n > 1,
            neg == (n > 0 && v@[0] == '-'),
            digits == if neg {
                t@.skip(1)
            } else {
                t@
            },
            all_digits(digits.take(i - start)),
            mag == dec_value(digits.take(i - start)),
            mag <= 0x8000_0000u64,
        decreases n - i,
    {
        let c = v[i];
        let u = c as u32;
        if u < '0' as u32 || u > '9' as u32 {
            proof {
                assert(digits[i - start] == c);
                assert(!is_int_lexeme(t@));
            }
            return None;
        }
        let d: u64 = (u - '0' as u32) as u64;
        let next: u64 = mag * 10 + d;
        proof {
            assert(digits.take(i + 1 - start).drop_last() =~= digits.take(i - start));
            assert(digits.take(i + 1 - start).last() == c);
        }
        if next > 0x8000_0000u64 {
            // Every digit that may follow only grows the value further.
            proof {
                let k = i + 1 - start;
                if is_int_lexeme(t@) {
                    assert(all_digits(digits));
                    lemma_dec_value_extend(digits, k);
                    assert(dec_value(digits) >= dec_value(digits.take(k)));
                    assert(int_lexeme_value(t@) > i32::MAX || int_lexeme_value(t@)
                        < i32::MIN);
                }
            }
            return None;
        }
        mag = next;
        i = i + 1;
    }
    proof {
        assert(digits.take(n - start) =~= digits);
    }
    if neg {
        if mag == 0x8000_0000u64 {
            Some(i32::MIN)
        } else {
            Some(-((mag as i64) as i32))
        }
    } else {
        if mag > 0x7FFF_FFFFu64 {
            proof {
                assert(int_lexeme_value(t@) > i32::MAX);
            }
            None
        } else {
            Some(mag as i32)
        }
    }
}

} // verus!

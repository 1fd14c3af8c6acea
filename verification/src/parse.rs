//! Reading a JSON document out of wire text.
//!
//! The grammar is the standard one: the literals, numbers with optional
//! fraction and exponent, strings with the short escapes and `\uxxxx` for
//! codes up to `0x7f`, arrays and objects. Numbers are kept as their exact
//! decimal text. A document with anything but whitespace after the value,
//! or with a shape outside the grammar, reads as nothing.

use vstd::prelude::*;
use crate::json::{Json, JsonModel, Member};
use crate::json::{elem_models, member_models, json_model, lemma_elem_models_len,
    lemma_member_models_len, lemma_elem_models_push, lemma_member_models_push};
use crate::text::{is_digit, push_char};

verus! {

broadcast use vstd::std_specs::vec::group_vec_axioms;

pub open spec fn is_ws(c: char) -> bool {
    c == ' ' || c == '\t' || c == '\n' || c == '\r'
}

pub open spec fn spec_skip_ws(s: Seq<char>, i: int) -> int
    decreases s.len() - i
        when 0 <= i <= s.len()
{
    if i < s.len() && is_ws(s[i]) {
        spec_skip_ws(s, i + 1)
    } else {
        i
    }
}

pub open spec fn hex_val(c: char) -> Option<u32> {
    if '0' as u32 <= c as u32 <= '9' as u32 {
        Some((c as u32 - '0' as u32) as u32)
    } else if 'a' as u32 <= c as u32 <= 'f' as u32 {
        Some((c as u32 - 'a' as u32 + 10) as u32)
    } else if 'A' as u32 <= c as u32 <= 'F' as u32 {
        Some((c as u32 - 'A' as u32 + 10) as u32)
    } else {
        None
    }
}

/// The character a short escape stands for.
pub open spec fn esc_char(c: char) -> Option<char> {
    if c == '"' {
        Some('"')
    } else if c == '\\' {
        Some('\\')
    } else if c == '/' {
        Some('/')
    } else if c == 'n' {
        Some('\n')
    } else if c == 'r' {
        Some('\r')
    } else if c == 't' {
        Some('\t')
    } else if c == 'b' {
        Some('\u{0008}')
    } else if c == 'f' {
        Some('\u{000C}')
    } else {
        None
    }
}

/// Reads string content from just after the opening quote to just past the
/// closing one.
pub open spec fn spec_parse_string(s: Seq<char>, i: int) -> Option<(Seq<char>, int)>
    decreases s.len() - i
        when 0 <= i <= s.len()
{
    if i >= s.len() {
        None
    } else {
        let c = s[i];
        if c == '"' {
            Some((Seq::empty(), i + 1))
        } else if c == '\\' {
            if i + 1 >= s.len() {
                None
            } else {
                let e = s[i + 1];
                if e == 'u' {
                    if i + 6 > s.len() {
                        None
                    } else {
                        match (hex_val(s[i + 2]), hex_val(s[i + 3]), hex_val(s[i + 4]), hex_val(
                            s[i + 5],
                        )) {
                            (Some(d1), Some(d2), Some(d3), Some(d4)) => {
                                let v = ((d1 * 16 + d2) * 16 + d3) * 16 + d4;
                                if v < 0x80 {
                                    match spec_parse_string(s, i + 6) {
                                        Some((rest, j)) => Some(
                                            (seq![(v as u8) as char] + rest, j),
                                        ),
                                        None => None,
                                    }
                                } else {
                                    None
                                }
                            },
                            _ => None,
                        }
                    }
                } else {
                    match esc_char(e) {
                        Some(u) => match spec_parse_string(s, i + 2) {
                            Some((rest, j)) => Some((seq![u] + rest, j)),
                            None => None,
                        },
                        None => None,
                    }
                }
            }
        } else if (c as u32) < 0x20 {
            None
        } else {
            match spec_parse_string(s, i + 1) {
                Some((rest, j)) => Some((seq![c] + rest, j)),
                None => None,
            }
        }
    }
}

pub proof fn lemma_parse_string_range(s: Seq<char>, i: int)
    requires
        0 <= i <= s.len(),
    ensures
        match spec_parse_string(s, i) {
            Some((_, j)) => i < j <= s.len(),
            None => true,
        },
    decreases s.len() - i,
{
    if i < s.len() {
        let c = s[i];
        if c == '\\' && i + 1 < s.len() {
            if s[i + 1] == 'u' {
                if i + 6 <= s.len() {
                    lemma_parse_string_range(s, i + 6);
                }
            } else {
                lemma_parse_string_range(s, i + 2);
            }
        } else if c != '"' && (c as u32) >= 0x20 {
            lemma_parse_string_range(s, i + 1);
        }
    }
}

/// First index at or past `i` that does not hold a decimal digit.
pub open spec fn spec_digits_end(s: Seq<char>, i: int) -> int
    decreases s.len() - i
        when 0 <= i <= s.len()
{
    if i < s.len() && is_digit(s[i]) {
        spec_digits_end(s, i + 1)
    } else {
        i
    }
}

pub proof fn lemma_digits_end_range(s: Seq<char>, i: int)
    requires
        0 <= i <= s.len(),
    ensures
        i <= spec_digits_end(s, i) <= s.len(),
    decreases s.len() - i,
{
    if i < s.len() && is_digit(s[i]) {
        lemma_digits_end_range(s, i + 1);
    }
}

/// End of the number that starts at `i`, by the JSON number grammar.
pub open spec fn spec_number_end(s: Seq<char>, i: int) -> Option<int> {
    let a = if i < s.len() && s[i] == '-' {
        i + 1
    } else {
        i
    };
    if a >= s.len() || !is_digit(s[a]) {
        None
    } else {
        let b = if s[a] == '0' {
            a + 1
        } else {
            spec_digits_end(s, a)
        };
        if !(a < b <= s.len()) {
            None
        } else {
            let c = if b < s.len() && s[b] == '.' {
                if b + 1 < s.len() && is_digit(s[b + 1]) {
                    spec_digits_end(s, b + 1)
                } else {
                    -1
                }
            } else {
                b
            };
            if !(b <= c <= s.len()) {
                None
            } else {
                let d = if c < s.len() && (s[c] == 'e' || s[c] == 'E') {
                    let e0 = if c + 1 < s.len() && (s[c + 1] == '+' || s[c + 1] == '-') {
                        c + 2
                    } else {
                        c + 1
                    };
                    if e0 < s.len() && is_digit(s[e0]) {
                        spec_digits_end(s, e0)
                    } else {
                        -1
                    }
                } else {
                    c
                };
                if !(c <= d <= s.len()) {
                    None
                } else {
                    Some(d)
                }
            }
        }
    }
}

/// Reads one value beginning at `i` (leading whitespace allowed) and yields
/// it with the index just past it.
pub open spec fn spec_parse_value(s: Seq<char>, i: int) -> Option<(JsonModel, int)>
    decreases s.len() - i, 1int
        when 0 <= i <= s.len()
{
    let k = spec_skip_ws(s, i);
    if !(i <= k < s.len()) {
        None
    } else {
        let c = s[k];
        if c == 'n' {
            if k + 4 <= s.len() && s[k + 1] == 'u' && s[k + 2] == 'l' && s[k + 3] == 'l' {
                Some((JsonModel::Null, k + 4))
            } else {
                None
            }
        } else if c == 't' {
            if k + 4 <= s.len() && s[k + 1] == 'r' && s[k + 2] == 'u' && s[k + 3] == 'e' {
                Some((JsonModel::Bool(true), k + 4))
            } else {
                None
            }
        } else if c == 'f' {
            if k + 5 <= s.len() && s[k + 1] == 'a' && s[k + 2] == 'l' && s[k + 3] == 's' && s[k
                + 4] == 'e' {
                Some((JsonModel::Bool(false), k + 5))
            } else {
                None
            }
        } else if c == '"' {
            match spec_parse_string(s, k + 1) {
                Some((t, j)) => Some((JsonModel::Str(t), j)),
                None => None,
            }
        } else if c == '[' {
            let m = spec_skip_ws(s, k + 1);
            if k + 1 <= m < s.len() && s[m] == ']' {
                Some((JsonModel::Arr(Seq::empty()), m + 1))
            } else {
                match spec_parse_elems(s, k + 1) {
                    Some((elems, j)) => Some((JsonModel::Arr(elems), j)),
                    None => None,
                }
            }
        } else if c == '{' {
            let m = spec_skip_ws(s, k + 1);
            if k + 1 <= m < s.len() && s[m] == '}' {
                Some((JsonModel::Obj(Seq::empty()), m + 1))
            } else {
                match spec_parse_membs(s, k + 1) {
                    Some((members, j)) => Some((JsonModel::Obj(members), j)),
                    None => None,
                }
            }
        } else if c == '-' || is_digit(c) {
            match spec_number_end(s, k) {
                Some(e) => if k < e <= s.len() {
                    Some((JsonModel::Num(s.subrange(k, e)), e))
                } else {
                    None
                },
                None => None,
            }
        } else {
            None
        }
    }
}

/// Reads the elements of an array from just after a `[` or `,` through the
/// closing `]`.
pub open spec fn spec_parse_elems(s: Seq<char>, i: int) -> Option<(Seq<JsonModel>, int)>
    decreases s.len() - i, 2int
        when 0 <= i <= s.len()
{
    match spec_parse_value(s, i) {
        Some((v, j)) => if !(i < j <= s.len()) {
            None
        } else {
            let m = spec_skip_ws(s, j);
            if !(j <= m < s.len()) {
                None
            } else if s[m] == ',' {
                match spec_parse_elems(s, m + 1) {
                    Some((rest, e)) => Some((seq![v] + rest, e)),
                    None => None,
                }
            } else if s[m] == ']' {
                Some((seq![v], m + 1))
            } else {
                None
            }
        },
        None => None,
    }
}

/// Reads the members of an object from just after a `{` or `,` through the
/// closing `}`.
pub open spec fn spec_parse_membs(s: Seq<char>, i: int) -> Option<
    (Seq<(Seq<char>, JsonModel)>, int),
>
    decreases s.len() - i, 2int
        when 0 <= i <= s.len()
{
    let k = spec_skip_ws(s, i);
    if !(i <= k < s.len() && s[k] == '"') {
        None
    } else {
        match spec_parse_string(s, k + 1) {
            Some((key, j)) => if !(k < j <= s.len()) {
                None
            } else {
                let m = spec_skip_ws(s, j);
                if !(j <= m < s.len() && s[m] == ':') {
                    None
                } else {
                    match spec_parse_value(s, m + 1) {
                        Some((v, j2)) => if !(m < j2 <= s.len()) {
                            None
                        } else {
                            let p = spec_skip_ws(s, j2);
                            if !(j2 <= p < s.len()) {
                                None
                            } else if s[p] == ',' {
                                match spec_parse_membs(s, p + 1) {
                                    Some((rest, e)) => Some((seq![(key, v)] + rest, e)),
                                    None => None,
                                }
                            } else if s[p] == '}' {
                                Some((seq![(key, v)], p + 1))
                            } else {
                                None
                            }
                        },
                        None => None,
                    }
                }
            },
            None => None,
        }
    }
}

/// The document the whole text holds: one value with nothing but whitespace
/// around it.
pub open spec fn spec_json_parse(s: Seq<char>) -> Option<JsonModel> {
    match spec_parse_value(s, 0) {
        Some((v, j)) => if 0 <= j <= s.len() && spec_skip_ws(s, j) == s.len() {
            Some(v)
        } else {
            None
        },
        None => None,
    }
}

fn skip_ws(v: &Vec<char>, i: usize) -> (r: usize)
    requires
        i <= v@.len(),
    ensures
        r == spec_skip_ws(v@, i as int),
        i <= r <= v@.len(),
{
    let n = v.len();
    let mut k = i;
    while k < n && (v[k] == ' ' || v[k] == '\t' || v[k] == '\n' || v[k] == '\r')
        invariant
            i <= k <= n,
            n == v@.len(),
            spec_skip_ws(v@, i as int) == spec_skip_ws(v@, k as int),
        decreases n - k,
    {
        k = k + 1;
    }
    k
}

fn hex_digit_val(c: char) -> (r: Option<u32>)
    ensures
        r == hex_val(c),
{
    let u = c as u32;
    if '0' as u32 <= u && u <= '9' as u32 {
        Some(u - '0' as u32)
    } else if 'a' as u32 <= u && u <= 'f' as u32 {
        Some(u - 'a' as u32 + 10)
    } else if 'A' as u32 <= u && u <= 'F' as u32 {
        Some(u - 'A' as u32 + 10)
    } else {
        None
    }
}

fn escape_code(c: char) -> (r: Option<char>)
    ensures
        r == esc_char(c),
{
    if c == '"' {
        Some('"')
    } else if c == '\\' {
        Some('\\')
    } else if c == '/' {
        Some('/')
    } else if c == 'n' {
        Some('\n')
    } else if c == 'r' {
        Some('\r')
    } else if c == 't' {
        Some('\t')
    } else if c == 'b' {
        Some('\u{0008}')
    } else if c == 'f' {
        Some('\u{000C}')
    } else {
        None
    }
}

#[verifier::loop_isolation(false)]
fn parse_string_at(v: &Vec<char>, i: usize) -> (r: Option<(String, usize)>)
    requires
        i <= v@.len(),
    ensures
        match r {
            Some((t, j)) => spec_parse_string(v@, i as int) == Some((t@, j as int)) && j
                <= v@.len(),
            None => spec_parse_string(v@, i as int) is None,
        },
{
    let n = v.len();
    let mut acc = String::new();
    let mut k = i;
    loop
        invariant
            i <= k <= n,
            n == v@.len(),
            spec_parse_string(v@, i as int) == (match spec_parse_string(v@, k as int) {
                Some((rest, j)) => Some((acc@ + rest, j)),
                None => None::<(Seq<char>, int)>,
            }),
        decreases n - k,
    {
        if k >= n {
            return None;
        }
        let c = v[k];
        if c == '"' {
            proof {
                assert(acc@ + Seq::<char>::empty() =~= acc@);
            }
            return Some((acc, k + 1));
        } else if c == '\\' {
            if n - k < 2 {
                return None;
            }
            let e = v[k + 1];
            if e == 'u' {
                if n - k < 6 {
                    return None;
                }
                let d1 = hex_digit_val(v[k + 2]);
                let d2 = hex_digit_val(v[k + 3]);
                let d3 = hex_digit_val(v[k + 4]);
                let d4 = hex_digit_val(v[k + 5]);
                match (d1, d2, d3, d4) {
                    (Some(h1), Some(h2), Some(h3), Some(h4)) => {
                        let val: u32 = ((h1 * 16 + h2) * 16 + h3) * 16 + h4;
                        if val < 0x80 {
                            let u = (val as u8) as char;
                            let ghost acc0 = acc@;
                            push_char(&mut acc, u);
                            proof {
                                assert(forall|rest: Seq<char>|
                                    acc0 + (seq![u] + rest) =~= #[trigger] (acc@ + rest));
                            }
                            k = k + 6;
                        } else {
                            return None;
                        }
                    },
                    _ => {
                        return None;
                    },
                }
            } else {
                match escape_code(e) {
                    Some(u) => {
                        let ghost acc0 = acc@;
                        push_char(&mut acc, u);
                        proof {
                            assert(forall|rest: Seq<char>|
                                acc0 + (seq![u] + rest) =~= #[trigger] (acc@ + rest));
                        }
                        k = k + 2;
                    },
                    None => {
                        return None;
                    },
                }
            }
        } else if (c as u32) < 0x20 {
            return None;
        } else {
            let ghost acc0 = acc@;
            push_char(&mut acc, c);
            proof {
                assert(forall|rest: Seq<char>|
                    acc0 + (seq![c] + rest) =~= #[trigger] (acc@ + rest));
            }
            k = k + 1;
        }
    }
}

fn digits_end(v: &Vec<char>, i: usize) -> (r: usize)
    requires
        i <= v@.len(),
    ensures
        r == spec_digits_end(v@, i as int),
        i <= r <= v@.len(),
{
    let n = v.len();
    let mut k = i;
    while k < n && '0' as u32 <= v[k] as u32 && v[k] as u32 <= '9' as u32
        invariant
            i <= k <= n,
            n == v@.len(),
            spec_digits_end(v@, i as int) == spec_digits_end(v@, k as int),
        decreases n - k,
    {
        k = k + 1;
    }
    k
}

pub fn number_end(v: &Vec<char>, i: usize) -> (r: Option<usize>)
    requires
        i <= v@.len(),
    ensures
        match r {
            Some(e) => spec_number_end(v@, i as int) == Some(e as int) && e <= v@.len(),
            None => spec_number_end(v@, i as int) is None,
        },
{
    let n = v.len();
    let a = if i < n && v[i] == '-' {
        i + 1
    } else {
        i
    };
    if a >= n || !('0' as u32 <= v[a] as u32 && v[a] as u32 <= '9' as u32) {
        return None;
    }
    let b = if v[a] == '0' {
        a + 1
    } else {
        let r = digits_end(v, a);
        proof {
            assert(spec_digits_end(v@, a as int) == spec_digits_end(v@, a + 1));
            lemma_digits_end_range(v@, a + 1);
        }
        r
    };
    let c = if b < n && v[b] == '.' {
        if b + 1 < n && '0' as u32 <= v[b + 1] as u32 && v[b + 1] as u32 <= '9' as u32 {
            digits_end(v, b + 1)
        } else {
            return None;
        }
    } else {
        b
    };
    let d = if c < n && (v[c] == 'e' || v[c] == 'E') {
        let e0 = if c + 1 < n && (v[c + 1] == '+' || v[c + 1] == '-') {
            c + 2
        } else {
            c + 1
        };
        if e0 < n && '0' as u32 <= v[e0] as u32 && v[e0] as u32 <= '9' as u32 {
            digits_end(v, e0)
        } else {
            return None;
        }
    } else {
        c
    };
    Some(d)
}

fn copy_range_to_string(v: &Vec<char>, a: usize, b: usize) -> (r: String)
    requires
        a <= b <= v@.len(),
    ensures
        r@ == v@.subrange(a as int, b as int),
{
    let mut out = String::new();
    let mut k = a;
    while k < b
        invariant
            a <= k <= b <= v@.len(),
            out@ == v@.subrange(a as int, k as int),
        decreases b - k,
    {
        push_char(&mut out, v[k]);
        proof {
            assert(v@.subrange(a as int, k as int).push(v@[k as int]) =~= v@.subrange(
                a as int,
                k + 1,
            ));
        }
        k = k + 1;
    }
    out
}

/// Reads one value beginning at `i`, as `spec_parse_value` says.
#[verifier::loop_isolation(false)]
#[verifier::rlimit(100)]
pub fn parse_value_at(v: &Vec<char>, i: usize) -> (r: Option<(Json, usize)>)
    requires
        i <= v@.len(),
    ensures
        match r {
            Some((j, e)) => spec_parse_value(v@, i as int) == Some((j@, e as int)) && e
                <= v@.len(),
            None => spec_parse_value(v@, i as int) is None,
        },
    decreases v@.len() - i, 1int,
{
    let n = v.len();
    let k = skip_ws(v, i);
    if k >= n {
        return None;
    }
    let c = v[k];
    if c == 'n' {
        if n - k >= 4 && v[k + 1] == 'u' && v[k + 2] == 'l' && v[k + 3] == 'l' {
            Some((Json::Null, k + 4))
        } else {
            None
        }
    } else if c == 't' {
        if n - k >= 4 && v[k + 1] == 'r' && v[k + 2] == 'u' && v[k + 3] == 'e' {
            Some((Json::Bool(true), k + 4))
        } else {
            None
        }
    } else if c == 'f' {
        if n - k >= 5 && v[k + 1] == 'a' && v[k + 2] == 'l' && v[k + 3] == 's' && v[k + 4]
            == 'e' {
            Some((Json::Bool(false), k + 5))
        } else {
            None
        }
    } else if c == '"' {
        match parse_string_at(v, k + 1) {
            Some((t, j)) => Some((Json::Str(t), j)),
            None => None,
        }
    } else if c == '[' {
        let m = skip_ws(v, k + 1);
        if m < n && v[m] == ']' {
            Some((Json::Arr(Vec::new()), m + 1))
        } else {
            match parse_elems_at(v, k + 1) {
                Some((elems, j)) => Some((Json::Arr(elems), j)),
                None => None,
            }
        }
    } else if c == '{' {
        let m = skip_ws(v, k + 1);
        if m < n && v[m] == '}' {
            Some((Json::Obj(Vec::new()), m + 1))
        } else {
            match parse_membs_at(v, k + 1) {
                Some((members, j)) => Some((Json::Obj(members), j)),
                None => None,
            }
        }
    } else if c == '-' || ('0' as u32 <= c as u32 && c as u32 <= '9' as u32) {
        match number_end(v, k) {
            Some(e) => {
                if k < e {
                    let t = copy_range_to_string(v, k, e);
                    Some((Json::Num(t), e))
                } else {
                    None
                }
            },
            None => None,
        }
    } else {
        None
    }
}

/// Reads array elements from just after a `[` or `,`, as `spec_parse_elems`
/// says.
#[verifier::loop_isolation(false)]
#[verifier::rlimit(100)]
fn parse_elems_at(v: &Vec<char>, i: usize) -> (r: Option<(Vec<Json>, usize)>)
    requires
        i <= v@.len(),
    ensures
        match r {
            Some((elems, e)) => spec_parse_elems(v@, i as int) == Some(
                (elem_models(elems@), e as int),
            ) && e <= v@.len(),
            None => spec_parse_elems(v@, i as int) is None,
        },
    decreases v@.len() - i, 2int,
{
    broadcast use lemma_elem_models_len;

    let n = v.len();
    let mut acc: Vec<Json> = Vec::new();
    let mut k = i;
    loop
        invariant
            i <= k <= n,
            n == v@.len(),
            spec_parse_elems(v@, i as int) == (match spec_parse_elems(v@, k as int) {
                Some((rest, e)) => Some((elem_models(acc@) + rest, e)),
                None => None::<(Seq<JsonModel>, int)>,
            }),
        decreases n - k,
    {
        let step = parse_value_at(v, k);
        match step {
            Some((val, j)) => {
                if !(k < j) {
                    return None;
                }
                let m = skip_ws(v, j);
                if m >= n {
                    return None;
                }
                if v[m] == ',' {
                    let ghost acc0 = acc@;
                    let ghost val0 = val;
                    let ghost vm = val@;
                    acc.push(val);
                    proof {
                        lemma_elem_models_push(acc0, val0);
                        assert(forall|rest: Seq<JsonModel>|
                            elem_models(acc0) + (seq![vm] + rest) =~= #[trigger] (elem_models(
                            acc@,
                        ) + rest));
                    }
                    k = m + 1;
                } else if v[m] == ']' {
                    let ghost acc0 = acc@;
                    let ghost val0 = val;
                    let ghost vm = val@;
                    acc.push(val);
                    proof {
                        lemma_elem_models_push(acc0, val0);
                        assert(elem_models(acc0) + seq![vm] =~= elem_models(acc@));
                    }
                    return Some((acc, m + 1));
                } else {
                    return None;
                }
            },
            None => {
                return None;
            },
        }
    }
}

/// Reads object members from just after a `{` or `,`, as `spec_parse_membs`
/// says.
#[verifier::loop_isolation(false)]
#[verifier::rlimit(100)]
fn parse_membs_at(v: &Vec<char>, i: usize) -> (r: Option<(Vec<Member>, usize)>)
    requires
        i <= v@.len(),
    ensures
        match r {
            Some((members, e)) => spec_parse_membs(v@, i as int) == Some(
                (member_models(members@), e as int),
            ) && e <= v@.len(),
            None => spec_parse_membs(v@, i as int) is None,
        },
    decreases v@.len() - i, 2int,
{
    broadcast use lemma_member_models_len;

    let n = v.len();
    let mut acc: Vec<Member> = Vec::new();
    let mut k = i;
    loop
        invariant
            i <= k <= n,
            n == v@.len(),
            spec_parse_membs(v@, i as int) == (match spec_parse_membs(v@, k as int) {
                Some((rest, e)) => Some((member_models(acc@) + rest, e)),
                None => None::<(Seq<(Seq<char>, JsonModel)>, int)>,
            }),
        decreases n - k,
    {
        let q = skip_ws(v, k);
        if !(q < n && v[q] == '"') {
            return None;
        }
        match parse_string_at(v, q + 1) {
            Some((key, j)) => {
                proof {
                    lemma_parse_string_range(v@, q + 1);
                }
                let m = skip_ws(v, j);
                if !(m < n && v[m] == ':') {
                    return None;
                }
                match parse_value_at(v, m + 1) {
                    Some((val, j2)) => {
                        if !(m < j2) {
                            return None;
                        }
                        let p = skip_ws(v, j2);
                        if p >= n {
                            return None;
                        }
                        let ghost entry = (key@, val@);
                        if v[p] == ',' {
                            let ghost acc0 = acc@;
                            let ghost m0 = Member { key: key, value: val };
                            acc.push(Member { key, value: val });
                            proof {
                                lemma_member_models_push(acc0, m0);
                                assert(forall|rest: Seq<(Seq<char>, JsonModel)>|
                                    member_models(acc0) + (seq![entry] + rest) =~= #[trigger] (
                                    member_models(acc@) + rest));
                            }
                            k = p + 1;
                        } else if v[p] == '}' {
                            let ghost acc0 = acc@;
                            let ghost m0 = Member { key: key, value: val };
                            acc.push(Member { key, value: val });
                            proof {
                                lemma_member_models_push(acc0, m0);
                                assert(member_models(acc0) + seq![entry] =~= member_models(
                                    acc@,
                                ));
                            }
                            return Some((acc, p + 1));
                        } else {
                            return None;
                        }
                    },
                    None => {
                        return None;
                    },
                }
            },
            None => {
                return None;
            },
        }
    }
}

/// The document `s` holds, exactly when `spec_json_parse` names one.
pub fn json_parse(s: &str) -> (r: Option<Json>)
    ensures
        match r {
            Some(j) => spec_json_parse(s@) == Some(j@),
            None => spec_json_parse(s@) is None,
        },
{
    let v = crate::text::str_to_chars(s);
    match parse_value_at(&v, 0) {
        Some((j, e)) => {
            let t = skip_ws(&v, e);
            if t == v.len() {
                Some(j)
            } else {
                None
            }
        },
        None => None,
    }
}

} // verus!

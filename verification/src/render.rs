//! Rendering a JSON document as wire text.
//!
//! Strings are escaped as JSON requires: quote and backslash with a
//! two-character escape, the common control characters with their short
//! names, every other control character in `\u00xx` form. Everything else
//! passes through unchanged, so a value survives the trip byte for byte.

use vstd::prelude::*;
use vstd::string::StringExecFns;
use crate::json::{Json, JsonModel, Member, elem_models, member_models, json_model};
use crate::json::{lemma_elem_models_len, lemma_member_models_len};
use crate::text::push_char;

verus! {

broadcast use vstd::std_specs::vec::group_vec_axioms;

/// A hexadecimal digit, lowercase.
pub open spec fn hex_char(d: int) -> char {
    if d == 0 {
        '0'
    } else if d == 1 {
        '1'
    } else if d == 2 {
        '2'
    } else if d == 3 {
        '3'
    } else if d == 4 {
        '4'
    } else if d == 5 {
        '5'
    } else if d == 6 {
        '6'
    } else if d == 7 {
        '7'
    } else if d == 8 {
        '8'
    } else if d == 9 {
        '9'
    } else if d == 10 {
        'a'
    } else if d == 11 {
        'b'
    } else if d == 12 {
        'c'
    } else if d == 13 {
        'd'
    } else if d == 14 {
        'e'
    } else {
        'f'
    }
}

pub open spec fn spec_escape_char(c: char) -> Seq<char> {
    if c == '"' {
        seq!['\\', '"']
    } else if c == '\\' {
        seq!['\\', '\\']
    } else if c == '\n' {
        seq!['\\', 'n']
    } else if c == '\r' {
        seq!['\\', 'r']
    } else if c == '\t' {
        seq!['\\', 't']
    } else if (c as u32) < 0x20 {
        seq!['\\', 'u', '0', '0', hex_char(c as u32 as int / 16), hex_char(c as u32 as int % 16)]
    } else {
        seq![c]
    }
}

pub open spec fn spec_escape(s: Seq<char>) -> Seq<char>
    decreases s.len(),
{
    if s.len() == 0 {
        Seq::empty()
    } else {
        spec_escape_char(s[0]) + spec_escape(s.drop_first())
    }
}

/// A string literal on the wire: quoted and escaped.
pub open spec fn spec_render_string(s: Seq<char>) -> Seq<char> {
    seq!['"'] + spec_escape(s) + seq!['"']
}

pub open spec fn spec_render(m: JsonModel) -> Seq<char>
    decreases m,
{
    match m {
        JsonModel::Null => "null"@,
        JsonModel::Bool(b) => if b {
            "true"@
        } else {
            "false"@
        },
        JsonModel::Num(t) => t,
        JsonModel::Str(t) => spec_render_string(t),
        JsonModel::Arr(elems) => seq!['['] + spec_render_list(elems) + seq![']'],
        JsonModel::Obj(members) => seq!['{'] + spec_render_members(members) + seq!['}'],
    }
}

pub open spec fn spec_render_list(elems: Seq<JsonModel>) -> Seq<char>
    decreases elems,
{
    if elems.len() == 0 {
        Seq::empty()
    } else {
        spec_render(elems[0]) + spec_render_list_rest(elems.drop_first())
    }
}

pub open spec fn spec_render_list_rest(elems: Seq<JsonModel>) -> Seq<char>
    decreases elems,
{
    if elems.len() == 0 {
        Seq::empty()
    } else {
        seq![','] + spec_render(elems[0]) + spec_render_list_rest(elems.drop_first())
    }
}

pub open spec fn spec_render_member(m: (Seq<char>, JsonModel)) -> Seq<char>
    decreases m,
{
    spec_render_string(m.0) + seq![':'] + spec_render(m.1)
}

pub open spec fn spec_render_members(members: Seq<(Seq<char>, JsonModel)>) -> Seq<char>
    decreases members,
{
    if members.len() == 0 {
        Seq::empty()
    } else {
        spec_render_member(members[0]) + spec_render_members_rest(members.drop_first())
    }
}

pub open spec fn spec_render_members_rest(members: Seq<(Seq<char>, JsonModel)>) -> Seq<char>
    decreases members,
{
    if members.len() == 0 {
        Seq::empty()
    } else {
        seq![','] + spec_render_member(members[0]) + spec_render_members_rest(
            members.drop_first(),
        )
    }
}

fn hex_to_char(d: u32) -> (c: char)
    requires
        d < 16,
    ensures
        c == hex_char(d as int),
{
    match d {
        0 => '0',
        1 => '1',
        2 => '2',
        3 => '3',
        4 => '4',
        5 => '5',
        6 => '6',
        7 => '7',
        8 => '8',
        9 => '9',
        10 => 'a',
        11 => 'b',
        12 => 'c',
        13 => 'd',
        14 => 'e',
        _ => 'f',
    }
}

fn push_escaped_char(c: char, out: &mut String)
    ensures
        final(out)@ == old(out)@ + spec_escape_char(c),
{
    if c == '"' {
        push_char(out, '\\');
        push_char(out, '"');
    } else if c == '\\' {
        push_char(out, '\\');
        push_char(out, '\\');
    } else if c == '\n' {
        push_char(out, '\\');
        push_char(out, 'n');
    } else if c == '\r' {
        push_char(out, '\\');
        push_char(out, 'r');
    } else if c == '\t' {
        push_char(out, '\\');
        push_char(out, 't');
    } else if (c as u32) < 0x20 {
        let u = c as u32;
        push_char(out, '\\');
        push_char(out, 'u');
        push_char(out, '0');
        push_char(out, '0');
        push_char(out, hex_to_char(u / 16));
        push_char(out, hex_to_char(u % 16));
    } else {
        push_char(out, c);
    }
    proof {
        assert(final(out)@ =~= old(out)@ + spec_escape_char(c));
    }
}

/// Appends the quoted, escaped form of `s`.
fn render_string_into(s: &str, out: &mut String)
    ensures
        final(out)@ == old(out)@ + spec_render_string(s@),
{
    let chars = crate::text::str_to_chars(s);
    push_char(out, '"');
    proof {
        assert(s@.skip(0) =~= s@);
    }
    let n = chars.len();
    let mut i: usize = 0;
    while i < n
        invariant
            n == chars@.len(),
            chars@ == s@,
            i <= n,
            out@ + spec_escape(s@.skip(i as int)) == old(out)@ + seq!['"'] + spec_escape(s@),
        decreases n - i,
    {
        proof {
            assert(s@.skip(i as int)[0] == s@[i as int]);
            assert(s@.skip(i as int).drop_first() =~= s@.skip(i + 1));
        }
        push_escaped_char(chars[i], out);
        i = i + 1;
    }
    proof {
        assert(s@.skip(n as int) =~= Seq::<char>::empty());
    }
    push_char(out, '"');
    proof {
        assert(final(out)@ =~= old(out)@ + spec_render_string(s@));
    }
}

/// Appends the wire text of `j`.
#[verifier::loop_isolation(false)]
#[verifier::rlimit(60)]
pub fn render_into(j: &Json, out: &mut String)
    ensures
        final(out)@ == old(out)@ + spec_render(j@),
    decreases *j,
{
    match j {
        Json::Null => {
            out.append("null");
        },
        Json::Bool(b) => {
            if *b {
                out.append("true");
            } else {
                out.append("false");
            }
        },
        Json::Num(t) => {
            out.append(t.as_str());
        },
        Json::Str(t) => {
            render_string_into(t.as_str(), out);
        },
        Json::Arr(elems) => {
            let ghost ms = elem_models(elems@);
            proof {
                lemma_elem_models_len(elems@);
            }
            push_char(out, '[');
            let n = elems.len();
            let mut i: usize = 0;
            if n > 0 {
                proof {
                    assert(*j == Json::Arr(*elems));
                    assert(decreases_to!(*j => j->Arr_0));
                    assert(decreases_to!(j->Arr_0 => j->Arr_0@));
                    assert(decreases_to!(j->Arr_0@ => j->Arr_0@[0]));
                }
                render_into(&elems[0], out);
                proof {
                    assert(ms.drop_first() =~= ms.skip(1));
                    assert(spec_render(JsonModel::Arr(ms)).take(
                        spec_render(JsonModel::Arr(ms)).len() - 1,
                    ) =~= seq!['['] + spec_render_list(ms));
                }
                i = 1;
                while i < n
                    invariant
                        n == elems@.len(),
                        1 <= i <= n,
                        ms == elem_models(elems@),
                        ms.len() == n,
                        forall|k: int| 0 <= k < n ==> ms[k] == json_model(elems@[k]),
                        out@ + spec_render_list_rest(ms.skip(i as int)) == old(out)@
                            + spec_render(JsonModel::Arr(ms)).take(
                            spec_render(JsonModel::Arr(ms)).len() - 1,
                        ),
                    decreases n - i,
                {
                    proof {
                        assert(ms.skip(i as int)[0] == ms[i as int]);
                        assert(ms.skip(i as int).drop_first() =~= ms.skip(i + 1));
                    }
                    proof {
                        assert(*j == Json::Arr(*elems));
                        assert(decreases_to!(*j => j->Arr_0));
                        assert(decreases_to!(j->Arr_0 => j->Arr_0@));
                        assert(decreases_to!(j->Arr_0@ => j->Arr_0@[i as int]));
                    }
                    push_char(out, ',');
                    render_into(&elems[i], out);
                    i = i + 1;
                }
            }
            push_char(out, ']');
            proof {
                if n == 0 {
                    assert(final(out)@ =~= old(out)@ + spec_render(JsonModel::Arr(ms)));
                } else {
                    assert(ms.skip(n as int) =~= Seq::<JsonModel>::empty());
                    assert(final(out)@ =~= old(out)@ + spec_render(JsonModel::Arr(ms)));
                }
            }
        },
        Json::Obj(members) => {
            let ghost ms = member_models(members@);
            proof {
                lemma_member_models_len(members@);
            }
            push_char(out, '{');
            let n = members.len();
            let mut i: usize = 0;
            if n > 0 {
                render_string_into(members[0].key.as_str(), out);
                push_char(out, ':');
                proof {
                    assert(*j == Json::Obj(*members));
                    assert(decreases_to!(*j => j->Obj_0));
                    assert(decreases_to!(j->Obj_0 => j->Obj_0@));
                    assert(decreases_to!(j->Obj_0@ => j->Obj_0@[0]));
                }
                render_into(&members[0].value, out);
                proof {
                    assert(ms.drop_first() =~= ms.skip(1));
                    assert(ms[0] == (members@[0].key@, json_model(members@[0].value)));
                    assert(spec_render_member(ms[0]) == spec_render_string(members@[0].key@)
                        + seq![':'] + spec_render(json_model(members@[0].value)));
                    assert(spec_render(JsonModel::Obj(ms)).take(
                        spec_render(JsonModel::Obj(ms)).len() - 1,
                    ) =~= seq!['{'] + spec_render_members(ms));
                    assert(out@ + spec_render_members_rest(ms.skip(1)) =~= old(out)@
                        + spec_render(JsonModel::Obj(ms)).take(
                        spec_render(JsonModel::Obj(ms)).len() - 1,
                    ));
                }
                i = 1;
                while i < n
                    invariant
                        n == members@.len(),
                        1 <= i <= n,
                        ms == member_models(members@),
                        ms.len() == n,
                        forall|k: int|
                            0 <= k < n ==> ms[k] == (members@[k].key@, json_model(
                                members@[k].value,
                            )),
                        out@ + spec_render_members_rest(ms.skip(i as int)) == old(out)@
                            + spec_render(JsonModel::Obj(ms)).take(
                            spec_render(JsonModel::Obj(ms)).len() - 1,
                        ),
                    decreases n - i,
                {
                    proof {
                        assert(ms.skip(i as int)[0] == ms[i as int]);
                        assert(ms.skip(i as int).drop_first() =~= ms.skip(i + 1));
                    }
                    push_char(out, ',');
                    render_string_into(members[i].key.as_str(), out);
                    push_char(out, ':');
                    proof {
                        assert(*j == Json::Obj(*members));
                        assert(decreases_to!(*j => j->Obj_0));
                        assert(decreases_to!(j->Obj_0 => j->Obj_0@));
                        assert(decreases_to!(j->Obj_0@ => j->Obj_0@[i as int]));
                    }
                    render_into(&members[i].value, out);
                    proof {
                        assert(spec_render_member(ms[i as int]) == spec_render_string(
                            members@[i as int].key@,
                        ) + seq![':'] + spec_render(json_model(members@[i as int].value)));
                        assert(out@ + spec_render_members_rest(ms.skip(i + 1)) =~= old(out)@
                            + spec_render(JsonModel::Obj(ms)).take(
                            spec_render(JsonModel::Obj(ms)).len() - 1,
                        ));
                    }
                    i = i + 1;
                }
            }
            push_char(out, '}');
            proof {
                if n == 0 {
                    assert(final(out)@ =~= old(out)@ + spec_render(JsonModel::Obj(ms)));
                } else {
                    assert(ms.skip(n as int) =~= Seq::<(Seq<char>, JsonModel)>::empty());
                    assert(final(out)@ =~= old(out)@ + spec_render(JsonModel::Obj(ms)));
                }
            }
        },
    }
}

/// The wire text of `j`.
pub fn json_render(j: &Json) -> (r: String)
    ensures
        r@ == spec_render(j@),
{
    let mut out = String::new();
    render_into(j, &mut out);
    out
}

} // verus!

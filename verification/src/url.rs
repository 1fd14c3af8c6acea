//! Resolving the target URL of each remote capability.
//!
//! Every caller-supplied identifier and query value is percent-encoded
//! before it is substituted into the path, so an id holding `/`, `?` or a
//! space cannot change which resource the request names. Unreserved
//! characters pass through; every other character is encoded byte by byte
//! from its UTF-8 form.

use vstd::prelude::*;
use vstd::string::StringExecFns;
use crate::text::{push_char, str_to_chars, spec_i32_text, i32_to_text};

verus! {

/// A hexadecimal digit, uppercase.
pub open spec fn hex_upper(d: int) -> char {
    if d == 0 {
        '0'
    } else if d == 1 {
        '1'
    } else if d == 2 {
        '2'
    } else if d == 3 {
        '3'
    } else if d == 4 {
        '4'
    } else if d == 5 {
        '5'
    } else if d == 6 {
        '6'
    } else if d == 7 {
        '7'
    } else if d == 8 {
        '8'
    } else if d == 9 {
        '9'
    } else if d == 10 {
        'A'
    } else if d == 11 {
        'B'
    } else if d == 12 {
        'C'
    } else if d == 13 {
        'D'
    } else if d == 14 {
        'E'
    } else {
        'F'
    }
}

/// The characters that pass through a component unencoded.
pub open spec fn is_unreserved(c: char) -> bool {
    ('a' as u32 <= c as u32 && c as u32 <= 'z' as u32) || ('A' as u32 <= c as u32 && c as u32
        <= 'Z' as u32) || ('0' as u32 <= c as u32 && c as u32 <= '9' as u32) || c == '-' || c
        == '.' || c == '_' || c == '~'
}

/// The UTF-8 bytes of one character.
pub open spec fn spec_utf8_of_char(c: char) -> Seq<u8> {
    let u = c as u32;
    if u < 0x80 {
        seq![u as u8]
    } else if u < 0x800 {
        seq![(0xC0 + u / 64) as u8, (0x80 + u % 64) as u8]
    } else if u < 0x10000 {
        seq![(0xE0 + u / 4096) as u8, (0x80 + (u / 64) % 64) as u8, (0x80 + u % 64) as u8]
    } else {
        seq![
            (0xF0 + u / 262144) as u8,
            (0x80 + (u / 4096) % 64) as u8,
            (0x80 + (u / 64) % 64) as u8,
            (0x80 + u % 64) as u8,
        ]
    }
}

/// `%XX` for one byte.
pub open spec fn spec_pct_byte(b: u8) -> Seq<char> {
    seq!['%', hex_upper(b as int / 16), hex_upper(b as int % 16)]
}

pub open spec fn spec_pct_bytes(bs: Seq<u8>) -> Seq<char>
    decreases bs.len(),
{
    if bs.len() == 0 {
        Seq::empty()
    } else {
        spec_pct_byte(bs[0]) + spec_pct_bytes(bs.drop_first())
    }
}

pub open spec fn spec_pct_char(c: char) -> Seq<char> {
    if is_unreserved(c) {
        seq![c]
    } else {
        spec_pct_bytes(spec_utf8_of_char(c))
    }
}

/// The percent-encoded form of a path or query component.
pub open spec fn spec_pct(s: Seq<char>) -> Seq<char>
    decreases s.len(),
{
    if s.len() == 0 {
        Seq::empty()
    } else {
        spec_pct_char(s[0]) + spec_pct(s.drop_first())
    }
}

proof fn lemma_pct_bytes1(b0: u8)
    ensures
        spec_pct_bytes(seq![b0]) == spec_pct_byte(b0),
{
    assert(seq![b0].drop_first() =~= Seq::<u8>::empty());
    assert(spec_pct_bytes(Seq::<u8>::empty()) =~= Seq::<char>::empty());
    assert(spec_pct_bytes(seq![b0]) =~= spec_pct_byte(b0));
}

proof fn lemma_pct_bytes2(b0: u8, b1: u8)
    ensures
        spec_pct_bytes(seq![b0, b1]) == spec_pct_byte(b0) + spec_pct_byte(b1),
{
    assert(seq![b0, b1].drop_first() =~= seq![b1]);
    lemma_pct_bytes1(b1);
    assert(spec_pct_bytes(seq![b0, b1]) =~= spec_pct_byte(b0) + spec_pct_byte(b1));
}

proof fn lemma_pct_bytes3(b0: u8, b1: u8, b2: u8)
    ensures
        spec_pct_bytes(seq![b0, b1, b2]) == spec_pct_byte(b0) + spec_pct_byte(b1) + spec_pct_byte(
            b2,
        ),
{
    assert(seq![b0, b1, b2].drop_first() =~= seq![b1, b2]);
    lemma_pct_bytes2(b1, b2);
    assert(spec_pct_bytes(seq![b0, b1, b2]) =~= spec_pct_byte(b0) + spec_pct_byte(b1)
        + spec_pct_byte(b2));
}

proof fn lemma_pct_bytes4(b0: u8, b1: u8, b2: u8, b3: u8)
    ensures
        spec_pct_bytes(seq![b0, b1, b2, b3]) == spec_pct_byte(b0) + spec_pct_byte(b1)
            + spec_pct_byte(b2) + spec_pct_byte(b3),
{
    assert(seq![b0, b1, b2, b3].drop_first() =~= seq![b1, b2, b3]);
    lemma_pct_bytes3(b1, b2, b3);
    assert(spec_pct_bytes(seq![b0, b1, b2, b3]) =~= spec_pct_byte(b0) + spec_pct_byte(b1)
        + spec_pct_byte(b2) + spec_pct_byte(b3));
}

fn hex_upper_char(d: u32) -> (c: char)
    requires
        d < 16,
    ensures
        c == hex_upper(d as int),
{
    match d {
        0 => '0',
        1 => '1',
        2 => '2',
        3 => '3',
        4 => '4',
        5 => '5',
        6 => '6',
        7 => '7',
        8 => '8',
        9 => '9',
        10 => 'A',
        11 => 'B',
        12 => 'C',
        13 => 'D',
        14 => 'E',
        _ => 'F',
    }
}

fn push_pct_byte(b: u8, out: &mut String)
    ensures
        final(out)@ == old(out)@ + spec_pct_byte(b),
{
    push_char(out, '%');
    push_char(out, hex_upper_char(b as u32 / 16));
    push_char(out, hex_upper_char(b as u32 % 16));
    proof {
        assert(final(out)@ =~= old(out)@ + spec_pct_byte(b));
    }
}

fn push_pct_char(c: char, out: &mut String)
    ensures
        final(out)@ == old(out)@ + spec_pct_char(c),
{
    let u = c as u32;
    if (('a' as u32) <= u && u <= ('z' as u32)) || (('A' as u32) <= u && u <= ('Z' as u32)) || ((
    '0' as u32) <= u && u <= ('9' as u32)) || c == '-' || c == '.' || c == '_' || c == '~' {
        push_char(out, c);
        proof {
            assert(final(out)@ =~= old(out)@ + spec_pct_char(c));
        }
    } else {
        let ghost bs = spec_utf8_of_char(c);
        if u < 0x80 {
            push_pct_byte(u as u8, out);
            proof {
                assert(bs =~= seq![u as u8]);
                lemma_pct_bytes1(u as u8);
                assert(final(out)@ =~= old(out)@ + spec_pct_char(c));
            }
        } else if u < 0x800 {
            let b0: u8 = (0xC0 + u / 64) as u8;
            let b1: u8 = (0x80 + u % 64) as u8;
            push_pct_byte(b0, out);
            push_pct_byte(b1, out);
            proof {
                assert(bs =~= seq![b0, b1]);
                lemma_pct_bytes2(b0, b1);
                assert(final(out)@ =~= old(out)@ + spec_pct_char(c));
            }
        } else if u < 0x10000 {
            let b0: u8 = (0xE0 + u / 4096) as u8;
            let b1: u8 = (0x80 + (u / 64) % 64) as u8;
            let b2: u8 = (0x80 + u % 64) as u8;
            push_pct_byte(b0, out);
            push_pct_byte(b1, out);
            push_pct_byte(b2, out);
            proof {
                assert(bs =~= seq![b0, b1, b2]);
                lemma_pct_bytes3(b0, b1, b2);
                assert(final(out)@ =~= old(out)@ + spec_pct_char(c));
            }
        } else {
            let b0: u8 = (0xF0 + u / 262144) as u8;
            let b1: u8 = (0x80 + (u / 4096) % 64) as u8;
            let b2: u8 = (0x80 + (u / 64) % 64) as u8;
            let b3: u8 = (0x80 + u % 64) as u8;
            push_pct_byte(b0, out);
            push_pct_byte(b1, out);
            push_pct_byte(b2, out);
            push_pct_byte(b3, out);
            proof {
                assert(bs =~= seq![b0, b1, b2, b3]);
                lemma_pct_bytes4(b0, b1, b2, b3);
                assert(final(out)@ =~= old(out)@ + spec_pct_char(c));
            }
        }
    }
}

/// Appends the percent-encoded form of `s`.
#[verifier::loop_isolation(false)]
fn push_pct(s: &str, out: &mut String)
    ensures
        final(out)@ == old(out)@ + spec_pct(s@),
{
    let chars = str_to_chars(s);
    proof {
        assert(s@.skip(0) =~= s@);
    }
    let n = chars.len();
    let mut i: usize = 0;
    while i < n
        invariant
            n == chars@.len(),
            chars@ == s@,
            i <= n,
            out@ + spec_pct(s@.skip(i as int)) == old(out)@ + spec_pct(s@),
        decreases n - i,
    {
        proof {
            assert(s@.skip(i as int)[0] == s@[i as int]);
            assert(s@.skip(i as int).drop_first() =~= s@.skip(i + 1));
        }
        push_pct_char(chars[i], out);
        i = i + 1;
    }
    proof {
        assert(s@.skip(n as int) =~= Seq::<char>::empty());
    }
}

/// The path that scopes a capability to one agent.
pub open spec fn spec_agent_path(base: Seq<char>, agent_id: Seq<char>, suffix: Seq<char>) -> Seq<
    char,
> {
    base + "/api/v1/agents/"@ + spec_pct(agent_id) + suffix
}

/// `base` + `/api/v1/agents/` + the encoded agent id + `suffix`.
pub fn agent_path(base: &str, agent_id: &str, suffix: &str) -> (r: String)
    ensures
        r@ == spec_agent_path(base@, agent_id@, suffix@),
{
    let mut out = String::new();
    out.append(base);
    out.append("/api/v1/agents/");
    push_pct(agent_id, &mut out);
    out.append(suffix);
    proof {
        assert(out@ =~= spec_agent_path(base@, agent_id@, suffix@));
    }
    out
}

/// As `spec_agent_path`, with a second encoded identifier after it.
pub open spec fn spec_agent_item_path(
    base: Seq<char>,
    agent_id: Seq<char>,
    mid: Seq<char>,
    item_id: Seq<char>,
) -> Seq<char> {
    base + "/api/v1/agents/"@ + spec_pct(agent_id) + mid + spec_pct(item_id)
}

pub fn agent_item_path(base: &str, agent_id: &str, mid: &str, item_id: &str) -> (r: String)
    ensures
        r@ == spec_agent_item_path(base@, agent_id@, mid@, item_id@),
{
    let mut out = String::new();
    out.append(base);
    out.append("/api/v1/agents/");
    push_pct(agent_id, &mut out);
    out.append(mid);
    push_pct(item_id, &mut out);
    proof {
        assert(out@ =~= spec_agent_item_path(base@, agent_id@, mid@, item_id@));
    }
    out
}

/// The agents listing path, under no agent.
pub open spec fn spec_agents_path(base: Seq<char>) -> Seq<char> {
    base + "/api/v1/agents"@
}

pub fn agents_path(base: &str) -> (r: String)
    ensures
        r@ == spec_agents_path(base@),
{
    let mut out = String::new();
    out.append(base);
    out.append("/api/v1/agents");
    proof {
        assert(out@ =~= spec_agents_path(base@));
    }
    out
}

/// The query string of the documents listing: each parameter appears only
/// when the caller supplied it, and an empty set adds nothing.
pub open spec fn spec_docs_query(
    q: Option<Seq<char>>,
    limit: Option<i32>,
    offset: Option<i32>,
) -> Seq<char> {
    let parts = spec_docs_params(q, limit, offset);
    if parts.len() == 0 {
        Seq::empty()
    } else {
        seq!['?'] + spec_join_amp(parts)
    }
}

pub open spec fn spec_docs_params(
    q: Option<Seq<char>>,
    limit: Option<i32>,
    offset: Option<i32>,
) -> Seq<Seq<char>> {
    (match q {
        Some(t) => seq!["q="@ + spec_pct(t)],
        None => Seq::empty(),
    }) + (match limit {
        Some(l) => seq!["limit="@ + spec_i32_text(l)],
        None => Seq::empty(),
    }) + (match offset {
        Some(o) => seq!["offset="@ + spec_i32_text(o)],
        None => Seq::empty(),
    })
}

pub open spec fn spec_join_amp(parts: Seq<Seq<char>>) -> Seq<char>
    decreases parts.len(),
{
    if parts.len() == 0 {
        Seq::empty()
    } else {
        parts[0] + spec_join_rest(parts.drop_first())
    }
}

pub open spec fn spec_join_rest(parts: Seq<Seq<char>>) -> Seq<char>
    decreases parts.len(),
{
    if parts.len() == 0 {
        Seq::empty()
    } else {
        seq!['&'] + parts[0] + spec_join_rest(parts.drop_first())
    }
}

proof fn lemma_join1(a: Seq<char>)
    ensures
        spec_join_amp(seq![a]) == a,
{
    assert(seq![a].drop_first() =~= Seq::<Seq<char>>::empty());
    assert(spec_join_rest(Seq::<Seq<char>>::empty()) =~= Seq::<char>::empty());
    assert(spec_join_amp(seq![a]) =~= a);
}

proof fn lemma_join2(a: Seq<char>, b: Seq<char>)
    ensures
        spec_join_amp(seq![a, b]) == a + seq!['&'] + b,
{
    assert(seq![a, b].drop_first() =~= seq![b]);
    assert(seq![b].drop_first() =~= Seq::<Seq<char>>::empty());
    assert(spec_join_rest(Seq::<Seq<char>>::empty()) =~= Seq::<char>::empty());
    assert(spec_join_rest(seq![b]) =~= seq!['&'] + b);
    assert(spec_join_amp(seq![a, b]) =~= a + seq!['&'] + b);
}

proof fn lemma_join3(a: Seq<char>, b: Seq<char>, c: Seq<char>)
    ensures
        spec_join_amp(seq![a, b, c]) == a + seq!['&'] + b + seq!['&'] + c,
{
    assert(seq![a, b, c].drop_first() =~= seq![b, c]);
    assert(seq![b, c].drop_first() =~= seq![c]);
    assert(seq![c].drop_first() =~= Seq::<Seq<char>>::empty());
    assert(spec_join_rest(Seq::<Seq<char>>::empty()) =~= Seq::<char>::empty());
    assert(spec_join_rest(seq![c]) =~= seq!['&'] + c);
    assert(spec_join_rest(seq![b, c]) =~= seq!['&'] + b + seq!['&'] + c);
    assert(spec_join_amp(seq![a, b, c]) =~= a + seq!['&'] + b + seq!['&'] + c);
}

/// Appends `?q=..&limit=..&offset=..`, with only the parameters given.
#[verifier::rlimit(30)]
pub fn push_docs_query(q: &Option<String>, limit: &Option<i32>, offset: &Option<i32>, out: &mut
    String)
    ensures
        final(out)@ == old(out)@ + spec_docs_query(
            crate::domain::opt_view(*q),
            *limit,
            *offset,
        ),
{
    let ghost parts = spec_docs_params(crate::domain::opt_view(*q), *limit, *offset);
    let mut any = false;
    match q {
        Some(t) => {
            push_char(out, '?');
            out.append("q=");
            push_pct(t.as_str(), out);
            any = true;
        },
        None => {},
    }
    match limit {
        Some(l) => {
            if any {
                push_char(out, '&');
            } else {
                push_char(out, '?');
            }
            out.append("limit=");
            out.append(i32_to_text(*l).as_str());
            any = true;
        },
        None => {},
    }
    match offset {
        Some(o) => {
            if any {
                push_char(out, '&');
            } else {
                push_char(out, '?');
            }
            out.append("offset=");
            out.append(i32_to_text(*o).as_str());
            any = true;
        },
        None => {},
    }
    proof {
        let qm = crate::domain::opt_view(*q);
        let pq = "q="@ + (match qm {
            Some(t) => spec_pct(t),
            None => Seq::<char>::empty(),
        });
        let pl = "limit="@ + (match *limit {
            Some(l) => spec_i32_text(l),
            None => Seq::<char>::empty(),
        });
        let po = "offset="@ + (match *offset {
            Some(o) => spec_i32_text(o),
            None => Seq::<char>::empty(),
        });
        match (qm, *limit, *offset) {
            (Some(_), Some(_), Some(_)) => {
                assert(parts =~= seq![pq, pl, po]);
                lemma_join3(pq, pl, po);
            },
            (Some(_), Some(_), None) => {
                assert(parts =~= seq![pq, pl]);
                lemma_join2(pq, pl);
            },
            (Some(_), None, Some(_)) => {
                assert(parts =~= seq![pq, po]);
                lemma_join2(pq, po);
            },
            (Some(_), None, None) => {
                assert(parts =~= seq![pq]);
                lemma_join1(pq);
            },
            (None, Some(_), Some(_)) => {
                assert(parts =~= seq![pl, po]);
                lemma_join2(pl, po);
            },
            (None, Some(_), None) => {
                assert(parts =~= seq![pl]);
                lemma_join1(pl);
            },
            (None, None, Some(_)) => {
                assert(parts =~= seq![po]);
                lemma_join1(po);
            },
            (None, None, None) => {
                assert(parts =~= Seq::<Seq<char>>::empty());
            },
        }
        assert(final(out)@ =~= old(out)@ + spec_docs_query(
            crate::domain::opt_view(*q),
            *limit,
            *offset,
        ));
    }
}

} // verus!

//! The laws the codec obeys, stated once and proved for every value.
//!
//! Each request shape, written and read back through the document tree,
//! reproduces the value field for field; a response payload that carries
//! only its required fields still decodes, and one that misses a required
//! field does not.

use vstd::prelude::*;
use crate::json::{JsonModel, spec_obj_get};
use crate::text::{spec_i32_text, spec_digits, digit_char, is_digit, lemma_i32_text_round_trip,
    lemma_spec_digits_all_digits};
use crate::parse::{spec_digits_end, spec_number_end, spec_parse_string, esc_char, hex_val};
use crate::render::{spec_escape, spec_escape_char, hex_char};
use crate::domain::is_number_lexeme;
use crate::codec::{spec_encode_search_request, spec_decode_search_request,
    spec_encode_think_request, spec_decode_think_request, spec_encode_memory_item,
    spec_decode_memory_item, spec_encode_batch_memory_request, spec_decode_batch_memory_request,
    spec_encode_personality, spec_decode_personality, spec_encode_update_personality,
    spec_decode_update_personality, spec_encode_add_background, spec_decode_add_background,
    spec_decode_memory_items, spec_decode_strs, spec_decode_fact, spec_req_str, spec_req_bool,
    spec_items_json, spec_strs_json, spec_decode_batch_memory_response, spec_decode_trace,
    spec_decode_facts, spec_decode_search_response, spec_decode_profile,
    spec_decode_delete_response};
use crate::domain::{SearchRequestModel, ThinkRequestModel, MemoryItemModel,
    BatchMemoryRequestModel, PersonalityTraitsModel, UpdatePersonalityRequestModel,
    AddBackgroundRequestModel, FactModel, BatchMemoryResponseModel, TraceInfoModel,
    SearchResponseModel};

verus! {

/// A search request written to the wire tree reads back field for field.
pub proof fn lemma_search_request_round_trip(m: SearchRequestModel)
    ensures
        spec_decode_search_request(spec_encode_search_request(m)) == Some(m),
{
    reveal_with_fuel(spec_obj_get, 7);
    reveal_strlit("query");
    reveal_strlit("fact_type");
    reveal_strlit("thinking_budget");
    reveal_strlit("max_tokens");
    reveal_strlit("trace");
    let p0 = ("query"@, JsonModel::Str(m.query));
    let p1 = ("fact_type"@, JsonModel::Arr(spec_strs_json(m.fact_type)));
    let p2 = ("thinking_budget"@, JsonModel::Num(spec_i32_text(m.thinking_budget)));
    let p3 = ("max_tokens"@, JsonModel::Num(spec_i32_text(m.max_tokens)));
    let p4 = ("trace"@, JsonModel::Bool(m.trace));
    let ms = seq![p0, p1, p2, p3, p4];
    assert("query"@.len() == 5 && "fact_type"@.len() == 9 && "thinking_budget"@.len() == 15
        && "max_tokens"@.len() == 10 && "trace"@.len() == 5);
    assert("query"@[0] == 'q' && "trace"@[0] == 't');
    assert(ms.drop_first() =~= seq![p1, p2, p3, p4]);
    assert(seq![p1, p2, p3, p4].drop_first() =~= seq![p2, p3, p4]);
    assert(seq![p2, p3, p4].drop_first() =~= seq![p3, p4]);
    assert(seq![p3, p4].drop_first() =~= seq![p4]);
    assert(spec_obj_get(ms, "query"@) == Some(p0.1));
    assert(spec_obj_get(ms, "fact_type"@) == Some(p1.1));
    assert(spec_obj_get(ms, "thinking_budget"@) == Some(p2.1));
    assert(spec_obj_get(ms, "max_tokens"@) == Some(p3.1));
    assert(spec_obj_get(ms, "trace"@) == Some(p4.1));
    let es = spec_strs_json(m.fact_type);
    assert(forall|i: int| 0 <= i < es.len() ==> (#[trigger] es[i]) is Str);
    assert(Seq::new(es.len(), |i: int| es[i]->Str_0) =~= m.fact_type);
    assert(spec_decode_strs(p1.1) == Some(m.fact_type));
    lemma_i32_text_round_trip(m.thinking_budget);
    lemma_i32_text_round_trip(m.max_tokens);
    assert(spec_decode_search_request(spec_encode_search_request(m)) == Some(m));
}

/// A reasoning request written to the wire tree reads back field for field;
/// an absent context stays absent.
pub proof fn lemma_think_request_round_trip(m: ThinkRequestModel)
    ensures
        spec_decode_think_request(spec_encode_think_request(m)) == Some(m),
{
    reveal_with_fuel(spec_obj_get, 5);
    reveal_strlit("query");
    reveal_strlit("thinking_budget");
    reveal_strlit("context");
    let p0 = ("query"@, JsonModel::Str(m.query));
    let p1 = ("thinking_budget"@, JsonModel::Num(spec_i32_text(m.thinking_budget)));
    assert("query"@.len() == 5 && "thinking_budget"@.len() == 15 && "context"@.len() == 7);
    lemma_i32_text_round_trip(m.thinking_budget);
    match m.context {
        Some(c) => {
            let p2 = ("context"@, JsonModel::Str(c));
            let ms = seq![p0, p1, p2];
            assert(ms.drop_first() =~= seq![p1, p2]);
            assert(seq![p1, p2].drop_first() =~= seq![p2]);
            assert(spec_obj_get(ms, "query"@) == Some(p0.1));
            assert(spec_obj_get(ms, "thinking_budget"@) == Some(p1.1));
            assert(spec_obj_get(ms, "context"@) == Some(p2.1));
            assert(spec_decode_think_request(spec_encode_think_request(m)) == Some(m));
        },
        None => {
            let ms = seq![p0, p1];
            assert(ms.drop_first() =~= seq![p1]);
            assert(seq![p1].drop_first() =~= Seq::<(Seq<char>, JsonModel)>::empty());
            assert(spec_obj_get(ms, "query"@) == Some(p0.1));
            assert(spec_obj_get(ms, "thinking_budget"@) == Some(p1.1));
            assert(spec_obj_get(ms, "context"@) is None);
            assert(spec_decode_think_request(spec_encode_think_request(m)) == Some(m));
        },
    }
}

/// One batch item written to the wire tree reads back field for field; an
/// absent context is written as `null` and reads back as absent.
pub proof fn lemma_memory_item_round_trip(m: MemoryItemModel)
    ensures
        spec_decode_memory_item(spec_encode_memory_item(m)) == Some(m),
{
    reveal_with_fuel(spec_obj_get, 4);
    reveal_strlit("content");
    reveal_strlit("context");
    let j = spec_encode_memory_item(m);
    let ms = j->Obj_0;
    assert(ms.drop_first() =~= seq![ms[1]]);
    assert(seq![ms[1]].drop_first() =~= Seq::<(Seq<char>, JsonModel)>::empty());
    assert("content"@[5] == 'n' && "context"@[5] == 'x');
    assert(spec_obj_get(ms, "content"@) == Some(ms[0].1));
    assert(spec_obj_get(ms, "context"@) == Some(ms[1].1));
    assert(spec_decode_memory_item(j) == Some(m));
}

/// A whole ingestion batch written to the wire tree reads back field for
/// field, every item included and in order.
pub proof fn lemma_batch_memory_request_round_trip(m: BatchMemoryRequestModel)
    ensures
        spec_decode_batch_memory_request(spec_encode_batch_memory_request(m)) == Some(m),
{
    reveal_with_fuel(spec_obj_get, 4);
    reveal_strlit("items");
    reveal_strlit("document_id");
    let p0 = ("items"@, JsonModel::Arr(spec_items_json(m.items)));
    let p1 = ("document_id"@, crate::codec::spec_str_or_null(m.document_id));
    assert("items"@.len() == 5 && "document_id"@.len() == 11);
    let ms = seq![p0, p1];
    assert(ms.drop_first() =~= seq![p1]);
    assert(seq![p1].drop_first() =~= Seq::<(Seq<char>, JsonModel)>::empty());
    assert(spec_obj_get(ms, "items"@) == Some(p0.1));
    assert(spec_obj_get(ms, "document_id"@) == Some(p1.1));
    let es = spec_items_json(m.items);
    assert forall|i: int| 0 <= i < es.len() implies spec_decode_memory_item(
        #[trigger] es[i],
    ) is Some by {
        lemma_memory_item_round_trip(m.items[i]);
    }
    assert forall|i: int|
        0 <= i < es.len() implies spec_decode_memory_item(#[trigger] es[i])->0 == m.items[i] by {
        lemma_memory_item_round_trip(m.items[i]);
    }
    assert(Seq::new(es.len(), |i: int| spec_decode_memory_item(es[i])->0) =~= m.items);
    assert(spec_decode_memory_items(p0.1) == Some(m.items));
    assert(spec_decode_batch_memory_request(spec_encode_batch_memory_request(m)) == Some(m));
}

/// The six traits written to the wire tree read back exactly, digit for
/// digit: the client neither rounds nor truncates a trait value.
pub proof fn lemma_personality_round_trip(m: PersonalityTraitsModel)
    ensures
        spec_decode_personality(spec_encode_personality(m)) == Some(m),
{
    reveal_with_fuel(spec_obj_get, 8);
    reveal_strlit("openness");
    reveal_strlit("conscientiousness");
    reveal_strlit("extraversion");
    reveal_strlit("agreeableness");
    reveal_strlit("neuroticism");
    reveal_strlit("bias_strength");
    let p0 = ("openness"@, JsonModel::Num(m.openness));
    let p1 = ("conscientiousness"@, JsonModel::Num(m.conscientiousness));
    let p2 = ("extraversion"@, JsonModel::Num(m.extraversion));
    let p3 = ("agreeableness"@, JsonModel::Num(m.agreeableness));
    let p4 = ("neuroticism"@, JsonModel::Num(m.neuroticism));
    let p5 = ("bias_strength"@, JsonModel::Num(m.bias_strength));
    let ms = seq![p0, p1, p2, p3, p4, p5];
    assert("openness"@.len() == 8 && "conscientiousness"@.len() == 17 && "extraversion"@.len()
        == 12 && "agreeableness"@.len() == 13 && "neuroticism"@.len() == 11
        && "bias_strength"@.len() == 13);
    assert("agreeableness"@[0] == 'a' && "bias_strength"@[0] == 'b');
    assert(ms.drop_first() =~= seq![p1, p2, p3, p4, p5]);
    assert(seq![p1, p2, p3, p4, p5].drop_first() =~= seq![p2, p3, p4, p5]);
    assert(seq![p2, p3, p4, p5].drop_first() =~= seq![p3, p4, p5]);
    assert(seq![p3, p4, p5].drop_first() =~= seq![p4, p5]);
    assert(seq![p4, p5].drop_first() =~= seq![p5]);
    assert(spec_obj_get(ms, "openness"@) == Some(p0.1));
    assert(spec_obj_get(ms, "conscientiousness"@) == Some(p1.1));
    assert(spec_obj_get(ms, "extraversion"@) == Some(p2.1));
    assert(spec_obj_get(ms, "agreeableness"@) == Some(p3.1));
    assert(spec_obj_get(ms, "neuroticism"@) == Some(p4.1));
    assert(spec_obj_get(ms, "bias_strength"@) == Some(p5.1));
    assert(spec_decode_personality(spec_encode_personality(m)) == Some(m));
}

/// A personality update written to the wire tree reads back exactly.
pub proof fn lemma_update_personality_round_trip(m: UpdatePersonalityRequestModel)
    ensures
        spec_decode_update_personality(spec_encode_update_personality(m)) == Some(m),
{
    reveal_with_fuel(spec_obj_get, 3);
    reveal_strlit("personality");
    let p0 = ("personality"@, spec_encode_personality(m.personality));
    let ms = seq![p0];
    assert(ms.drop_first() =~= Seq::<(Seq<char>, JsonModel)>::empty());
    assert(spec_obj_get(ms, "personality"@) == Some(p0.1));
    lemma_personality_round_trip(m.personality);
    assert(spec_decode_update_personality(spec_encode_update_personality(m)) == Some(m));
}

/// A background request written to the wire tree reads back field for field.
pub proof fn lemma_add_background_round_trip(m: AddBackgroundRequestModel)
    ensures
        spec_decode_add_background(spec_encode_add_background(m)) == Some(m),
{
    reveal_with_fuel(spec_obj_get, 4);
    reveal_strlit("content");
    reveal_strlit("update_personality");
    let p0 = ("content"@, JsonModel::Str(m.content));
    let p1 = ("update_personality"@, JsonModel::Bool(m.update_personality));
    assert("content"@.len() == 7 && "update_personality"@.len() == 18);
    let ms = seq![p0, p1];
    assert(ms.drop_first() =~= seq![p1]);
    assert(seq![p1].drop_first() =~= Seq::<(Seq<char>, JsonModel)>::empty());
    assert(spec_obj_get(ms, "content"@) == Some(p0.1));
    assert(spec_obj_get(ms, "update_personality"@) == Some(p1.1));
    assert(spec_decode_add_background(spec_encode_add_background(m)) == Some(m));
}

/// A fact payload holding nothing but the required text still decodes, with
/// every optional field absent.
pub proof fn lemma_fact_optional_tolerance(text: Seq<char>)
    ensures
        spec_decode_fact(JsonModel::Obj(seq![("text"@, JsonModel::Str(text))])) == Some(
            FactModel {
                id: None,
                text: text,
                fact_type: None,
                activation: None,
                context: None,
                event_date: None,
            },
        ),
{
    reveal_with_fuel(spec_obj_get, 3);
    reveal_strlit("text");
    reveal_strlit("id");
    reveal_strlit("type");
    reveal_strlit("activation");
    reveal_strlit("context");
    reveal_strlit("event_date");
    let p0 = ("text"@, JsonModel::Str(text));
    let ms = seq![p0];
    assert("text"@.len() == 4 && "id"@.len() == 2 && "type"@.len() == 4
        && "activation"@.len() == 10 && "context"@.len() == 7 && "event_date"@.len() == 10);
    assert("text"@[2] == 'x' && "type"@[2] == 'p');
    assert(ms.drop_first() =~= Seq::<(Seq<char>, JsonModel)>::empty());
    assert(spec_obj_get(ms, "text"@) == Some(p0.1));
    assert(spec_obj_get(ms, "id"@) is None);
    assert(spec_obj_get(ms, "type"@) is None);
    assert(spec_obj_get(ms, "activation"@) is None);
    assert(spec_obj_get(ms, "context"@) is None);
    assert(spec_obj_get(ms, "event_date"@) is None);
}

/// A fact payload whose `text` member is missing or not a string does not
/// decode, whatever else it holds.
pub proof fn lemma_fact_requires_text(ms: Seq<(Seq<char>, JsonModel)>)
    requires
        spec_req_str(spec_obj_get(ms, "text"@)) is None,
    ensures
        spec_decode_fact(JsonModel::Obj(ms)) is None,
{
}

/// An ingestion outcome holding nothing but the required flag still
/// decodes, with every optional field absent.
pub proof fn lemma_batch_memory_response_optional_tolerance(success: bool)
    ensures
        spec_decode_batch_memory_response(
            JsonModel::Obj(seq![("success"@, JsonModel::Bool(success))]),
        ) == Some(
            BatchMemoryResponseModel { success, stored_count: None, error: None, job_id: None },
        ),
{
    reveal_with_fuel(spec_obj_get, 3);
    reveal_strlit("success");
    reveal_strlit("stored_count");
    reveal_strlit("error");
    reveal_strlit("job_id");
    let p0 = ("success"@, JsonModel::Bool(success));
    let ms = seq![p0];
    assert("success"@.len() == 7 && "stored_count"@.len() == 12 && "error"@.len() == 5
        && "job_id"@.len() == 6);
    assert(ms.drop_first() =~= Seq::<(Seq<char>, JsonModel)>::empty());
    assert(spec_obj_get(ms, "success"@) == Some(p0.1));
    assert(spec_obj_get(ms, "stored_count"@) is None);
    assert(spec_obj_get(ms, "error"@) is None);
    assert(spec_obj_get(ms, "job_id"@) is None);
}

/// An ingestion outcome whose `success` member is missing or not a boolean
/// does not decode, whatever else it holds.
pub proof fn lemma_batch_memory_response_requires_success(ms: Seq<(Seq<char>, JsonModel)>)
    requires
        spec_req_bool(spec_obj_get(ms, "success"@)) is None,
    ensures
        spec_decode_batch_memory_response(JsonModel::Obj(ms)) is None,
{
}

/// A trace payload with no field at all still decodes, both timings absent.
pub proof fn lemma_trace_optional_tolerance()
    ensures
        spec_decode_trace(
            JsonModel::Obj(Seq::<(Seq<char>, JsonModel)>::empty()),
        ) == Some(TraceInfoModel { total_time: None, activation_count: None }),
{
    reveal_strlit("total_time");
    reveal_strlit("activation_count");
}

/// A search payload holding only its required fact list still decodes, with
/// no trace.
pub proof fn lemma_search_response_optional_tolerance(facts: Seq<JsonModel>)
    requires
        spec_decode_facts(JsonModel::Arr(facts)) is Some,
    ensures
        spec_decode_search_response(
            JsonModel::Obj(seq![("results"@, JsonModel::Arr(facts))]),
        ) == Some(
            SearchResponseModel {
                results: spec_decode_facts(JsonModel::Arr(facts))->0,
                trace: None,
            },
        ),
{
    reveal_with_fuel(spec_obj_get, 3);
    reveal_strlit("results");
    reveal_strlit("trace");
    let p0 = ("results"@, JsonModel::Arr(facts));
    let ms = seq![p0];
    assert("results"@.len() == 7 && "trace"@.len() == 5);
    assert(ms.drop_first() =~= Seq::<(Seq<char>, JsonModel)>::empty());
    assert(spec_obj_get(ms, "results"@) == Some(p0.1));
    assert(spec_obj_get(ms, "trace"@) is None);
}

/// A search payload whose `results` member is missing or not a list of
/// facts does not decode, whatever else it holds.
pub proof fn lemma_search_response_requires_results(ms: Seq<(Seq<char>, JsonModel)>)
    requires
        match spec_obj_get(ms, "results"@) {
            Some(rj) => spec_decode_facts(rj) is None,
            None => true,
        },
    ensures
        spec_decode_search_response(JsonModel::Obj(ms)) is None,
{
}

/// A profile payload without a decodable `personality` member does not
/// decode, whatever else it holds.
pub proof fn lemma_profile_requires_personality(ms: Seq<(Seq<char>, JsonModel)>)
    requires
        match spec_obj_get(ms, "personality"@) {
            Some(pj) => spec_decode_personality(pj) is None,
            None => true,
        },
    ensures
        spec_decode_profile(JsonModel::Obj(ms)) is None,
{
}

/// A deletion outcome needs both its fields: with either one missing it
/// does not decode.
pub proof fn lemma_delete_response_requires_both(ms: Seq<(Seq<char>, JsonModel)>)
    requires
        spec_req_bool(spec_obj_get(ms, "success"@)) is None || spec_req_str(
            spec_obj_get(ms, "message"@),
        ) is None,
    ensures
        spec_decode_delete_response(JsonModel::Obj(ms)) is None,
{
}

proof fn lemma_digits_end_full(s: Seq<char>, a: int)
    requires
        0 <= a <= s.len(),
        forall|k: int| a <= k < s.len() ==> is_digit(#[trigger] s[k]),
    ensures
        spec_digits_end(s, a) == s.len(),
    decreases s.len() - a,
{
    if a < s.len() {
        lemma_digits_end_full(s, a + 1);
    }
}

proof fn lemma_spec_digits_first_nonzero(n: nat)
    requires
        n >= 1,
    ensures
        spec_digits(n)[0] != '0',
    decreases n,
{
    if n < 10 {
        assert(digit_char(n as int) != '0');
    } else {
        lemma_spec_digits_first_nonzero(n / 10);
    }
}

/// The decimal text of an `i32` is itself one whole number of the wire
/// grammar, so an integer field renders as a number the service can read.
pub proof fn lemma_i32_text_is_number_lexeme(n: i32)
    ensures
        is_number_lexeme(spec_i32_text(n)),
{
    let t = spec_i32_text(n);
    if n < 0 {
        let mag = (-(n as int)) as nat;
        lemma_spec_digits_all_digits(mag);
        lemma_spec_digits_first_nonzero(mag);
        assert(t[0] == '-');
        assert(forall|k: int| 1 <= k < t.len() ==> is_digit(#[trigger] t[k]));
        assert(t[1] == spec_digits(mag)[0]);
        lemma_digits_end_full(t, 1);
        assert(spec_number_end(t, 0) == Some(t.len() as int));
    } else if n == 0 {
        assert(t =~= seq!['0']);
        assert(spec_number_end(t, 0) == Some(t.len() as int));
    } else {
        lemma_spec_digits_all_digits(n as nat);
        lemma_spec_digits_first_nonzero(n as nat);
        assert(forall|k: int| 0 <= k < t.len() ==> is_digit(#[trigger] t[k]));
        lemma_digits_end_full(t, 0);
        assert(spec_number_end(t, 0) == Some(t.len() as int));
    }
}

proof fn lemma_parse_escaped_at(t: Seq<char>, s: Seq<char>, i: int, e: int)
    requires
        0 <= i <= e < s.len(),
        s.subrange(i, e) == spec_escape(t),
        s[e] == '"',
    ensures
        spec_parse_string(s, i) == Some((t, e + 1)),
    decreases t.len(),
{
    if t.len() == 0 {
        assert(e == i);
        assert(spec_parse_string(s, i) == Some((Seq::<char>::empty(), i + 1)));
        assert(t =~= Seq::<char>::empty());
    } else {
        let c = t[0];
        let esc0 = spec_escape_char(c);
        let rest = spec_escape(t.drop_first());
        assert(spec_escape(t) == esc0 + rest);
        assert(e - i == esc0.len() + rest.len());
        let w = esc0.len() as int;
        assert forall|k: int| 0 <= k < w implies s[i + k] == esc0[k] by {
            assert(s.subrange(i, e)[k] == (esc0 + rest)[k]);
        }
        assert(s.subrange(i + w, e) =~= rest) by {
            assert forall|k: int| 0 <= k < e - (i + w) implies s.subrange(i + w, e)[k]
                == rest[k] by {
                assert(s.subrange(i, e)[k + w] == (esc0 + rest)[k + w]);
            }
        }
        lemma_parse_escaped_at(t.drop_first(), s, i + w, e);
        assert(seq![c] + t.drop_first() =~= t);
        if c == '"' {
            assert(esc0 =~= seq!['\\', '"']);
            assert(s[i] == '\\' && s[i + 1] == '"');
            assert(esc_char(s[i + 1]) == Some('"'));
            assert(spec_parse_string(s, i) == Some((t, e + 1)));
        } else if c == '\\' {
            assert(esc0 =~= seq!['\\', '\\']);
            assert(s[i] == '\\' && s[i + 1] == '\\');
            assert(esc_char(s[i + 1]) == Some('\\'));
            assert(spec_parse_string(s, i) == Some((t, e + 1)));
        } else if c == '\n' {
            assert(esc0 =~= seq!['\\', 'n']);
            assert(s[i] == '\\' && s[i + 1] == 'n');
            assert(esc_char(s[i + 1]) == Some('\n'));
            assert(spec_parse_string(s, i) == Some((t, e + 1)));
        } else if c == '\r' {
            assert(esc0 =~= seq!['\\', 'r']);
            assert(s[i] == '\\' && s[i + 1] == 'r');
            assert(esc_char(s[i + 1]) == Some('\r'));
            assert(spec_parse_string(s, i) == Some((t, e + 1)));
        } else if c == '\t' {
            assert(esc0 =~= seq!['\\', 't']);
            assert(s[i] == '\\' && s[i + 1] == 't');
            assert(esc_char(s[i + 1]) == Some('\t'));
            assert(spec_parse_string(s, i) == Some((t, e + 1)));
        } else if (c as u32) < 0x20 {
            let u = c as u32 as int;
            assert(esc0 =~= seq!['\\', 'u', '0', '0', hex_char(u / 16), hex_char(u % 16)]);
            assert(s[i] == '\\' && s[i + 1] == 'u' && s[i + 2] == '0' && s[i + 3] == '0');
            assert(s[i + 4] == hex_char(u / 16) && s[i + 5] == hex_char(u % 16));
            assert(hex_val('0') == Some(0u32));
            assert(hex_val(hex_char(u / 16)) == Some((u / 16) as u32));
            assert(hex_val(hex_char(u % 16)) == Some((u % 16) as u32));
            vstd::arithmetic::div_mod::lemma_fundamental_div_mod(u, 16);
            assert(((0u32 * 16 + 0u32) * 16 + (u / 16) as u32) * 16 + (u % 16) as u32 == c
                as u32);
            let cu = c as u32;
            assert(cu < 0x20);
            assert(cu as u8 as u32 == cu) by (bit_vector)
                requires
                    cu < 0x20,
            ;
            vstd::utf8::char_u32_cast(c, cu);
            assert((cu as u8) as int == cu as int);
            assert(((c as u32) as u8) as char == c);
            assert(spec_parse_string(s, i) == Some((t, e + 1)));
        } else {
            assert(esc0 =~= seq![c]);
            assert(s[i] == c);
            assert(c != '"' && c != '\\' && (c as u32) >= 0x20);
            assert(spec_parse_string(s, i) == Some((t, e + 1)));
        }
    }
}

/// Any string content, escaped for the wire and read back through the
/// string grammar, reproduces itself exactly, with the reader stopping at
/// the closing quote.
pub proof fn lemma_string_escape_round_trip(t: Seq<char>)
    ensures
        spec_parse_string(spec_escape(t) + seq!['"'], 0) == Some(
            (t, spec_escape(t).len() + 1 as int),
        ),
{
    let s = spec_escape(t) + seq!['"'];
    assert(s.subrange(0, spec_escape(t).len() as int) =~= spec_escape(t));
    lemma_parse_escaped_at(t, s, 0, spec_escape(t).len() as int);
}

} // verus!

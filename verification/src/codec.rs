//! Decoding response documents into domain values and encoding request
//! values as documents.
//!
//! Each decoder succeeds exactly when every required field is present with
//! the right shape; a missing or null optional field reads as absent, an
//! optional field of the wrong shape is an error, and unknown members are
//! ignored. Wire names that differ from the field name (a fact's kind is
//! sent as `type`) are mapped here and nowhere else.

use vstd::prelude::*;
use vstd::string::StringExecFns;
use crate::json::{Json, JsonModel, Member, spec_obj_get, elem_models, member_models,
    lemma_elem_models_len, lemma_member_models_len, lemma_elem_models_push,
    lemma_member_models_push, json_model};
use crate::text::{spec_i32_text, spec_i32_of_text, i32_to_text, i32_of_text};
use crate::domain::{NumberText, opt_view, vals_view, Fact, FactModel, TraceInfo, TraceInfoModel,
    SearchResponse, SearchResponseModel, ThinkResponse, ThinkResponseModel, MemoryItem,
    MemoryItemModel, BatchMemoryRequest, BatchMemoryRequestModel, BatchMemoryResponse,
    BatchMemoryResponseModel, AgentsResponse, AgentsResponseModel, PersonalityTraits,
    PersonalityTraitsModel, AgentProfile, AgentProfileModel, UpdatePersonalityRequest,
    UpdatePersonalityRequestModel, AddBackgroundRequest, AddBackgroundRequestModel,
    BackgroundResponse, BackgroundResponseModel, CountEntry, CountEntryModel, GroupEntry,
    GroupEntryModel, AgentStats, AgentStatsModel, Document, DocumentModel, DocumentDetails,
    DocumentDetailsModel, DocumentsResponse, DocumentsResponseModel, Operation, OperationModel,
    OperationsResponse, OperationsResponseModel, DeleteResponse, DeleteResponseModel,
    SearchRequest, SearchRequestModel, ThinkRequest, ThinkRequestModel};

verus! {

broadcast use vstd::std_specs::vec::group_vec_axioms;

// ---------------------------------------------------------------- field readers

/// A required string member.
pub open spec fn spec_req_str(o: Option<JsonModel>) -> Option<Seq<char>> {
    match o {
        Some(JsonModel::Str(t)) => Some(t),
        _ => None,
    }
}

/// An optional string member: absent or null reads as absent.
pub open spec fn spec_opt_str(o: Option<JsonModel>) -> Option<Option<Seq<char>>> {
    match o {
        None => Some(None),
        Some(JsonModel::Null) => Some(None),
        Some(JsonModel::Str(t)) => Some(Some(t)),
        _ => None,
    }
}

/// A required boolean member.
pub open spec fn spec_req_bool(o: Option<JsonModel>) -> Option<bool> {
    match o {
        Some(JsonModel::Bool(b)) => Some(b),
        _ => None,
    }
}

/// A required integer member, within `i32` range.
pub open spec fn spec_req_i32(o: Option<JsonModel>) -> Option<i32> {
    match o {
        Some(JsonModel::Num(t)) => spec_i32_of_text(t),
        _ => None,
    }
}

/// An optional integer member.
pub open spec fn spec_opt_i32(o: Option<JsonModel>) -> Option<Option<i32>> {
    match o {
        None => Some(None),
        Some(JsonModel::Null) => Some(None),
        Some(JsonModel::Num(t)) => match spec_i32_of_text(t) {
            Some(v) => Some(Some(v)),
            None => None,
        },
        _ => None,
    }
}

/// A required numeric member, kept as its exact text.
pub open spec fn spec_req_num(o: Option<JsonModel>) -> Option<Seq<char>> {
    match o {
        Some(JsonModel::Num(t)) => Some(t),
        _ => None,
    }
}

/// An optional numeric member, kept as its exact text.
pub open spec fn spec_opt_num(o: Option<JsonModel>) -> Option<Option<Seq<char>>> {
    match o {
        None => Some(None),
        Some(JsonModel::Null) => Some(None),
        Some(JsonModel::Num(t)) => Some(Some(t)),
        _ => None,
    }
}

fn field_req_str(j: &Json, key: &String) -> (r: Option<String>)
    requires
        j@ is Obj,
    ensures
        match r {
            Some(s) => spec_req_str(spec_obj_get(j@->Obj_0, key@)) == Some(s@),
            None => spec_req_str(spec_obj_get(j@->Obj_0, key@)) is None,
        },
{
    match j.get(key) {
        Some(v) => match v {
            Json::Str(s) => Some(s.clone()),
            _ => None,
        },
        None => None,
    }
}

fn field_opt_str(j: &Json, key: &String) -> (r: Option<Option<String>>)
    requires
        j@ is Obj,
    ensures
        match r {
            Some(o) => spec_opt_str(spec_obj_get(j@->Obj_0, key@)) == Some(opt_view(o)),
            None => spec_opt_str(spec_obj_get(j@->Obj_0, key@)) is None,
        },
{
    match j.get(key) {
        Some(v) => match v {
            Json::Str(s) => Some(Some(s.clone())),
            Json::Null => Some(None),
            _ => None,
        },
        None => Some(None),
    }
}

fn field_req_bool(j: &Json, key: &String) -> (r: Option<bool>)
    requires
        j@ is Obj,
    ensures
        r == spec_req_bool(spec_obj_get(j@->Obj_0, key@)),
{
    match j.get(key) {
        Some(v) => match v {
            Json::Bool(b) => Some(*b),
            _ => None,
        },
        None => None,
    }
}

fn field_req_i32(j: &Json, key: &String) -> (r: Option<i32>)
    requires
        j@ is Obj,
    ensures
        r == spec_req_i32(spec_obj_get(j@->Obj_0, key@)),
{
    match j.get(key) {
        Some(v) => match v {
            Json::Num(t) => i32_of_text(t.as_str()),
            _ => None,
        },
        None => None,
    }
}

fn field_opt_i32(j: &Json, key: &String) -> (r: Option<Option<i32>>)
    requires
        j@ is Obj,
    ensures
        match r {
            Some(o) => spec_opt_i32(spec_obj_get(j@->Obj_0, key@)) == Some(o),
            None => spec_opt_i32(spec_obj_get(j@->Obj_0, key@)) is None,
        },
{
    match j.get(key) {
        Some(v) => match v {
            Json::Num(t) => match i32_of_text(t.as_str()) {
                Some(n) => Some(Some(n)),
                None => None,
            },
            Json::Null => Some(None),
            _ => None,
        },
        None => Some(None),
    }
}

fn field_req_num(j: &Json, key: &String) -> (r: Option<NumberText>)
    requires
        j@ is Obj,
    ensures
        match r {
            Some(n) => spec_req_num(spec_obj_get(j@->Obj_0, key@)) == Some(n@),
            None => spec_req_num(spec_obj_get(j@->Obj_0, key@)) is None,
        },
{
    match j.get(key) {
        Some(v) => match v {
            Json::Num(t) => Some(NumberText { text: t.clone() }),
            _ => None,
        },
        None => None,
    }
}

fn field_opt_num(j: &Json, key: &String) -> (r: Option<Option<NumberText>>)
    requires
        j@ is Obj,
    ensures
        match r {
            Some(o) => spec_opt_num(spec_obj_get(j@->Obj_0, key@)) == Some(opt_view(o)),
            None => spec_opt_num(spec_obj_get(j@->Obj_0, key@)) is None,
        },
{
    match j.get(key) {
        Some(v) => match v {
            Json::Num(t) => Some(Some(NumberText { text: t.clone() })),
            Json::Null => Some(None),
            _ => None,
        },
        None => Some(None),
    }
}

// ---------------------------------------------------------------- facts

pub open spec fn spec_decode_fact(j: JsonModel) -> Option<FactModel> {
    if !(j is Obj) {
        None
    } else {
        let ms = j->Obj_0;
        if spec_req_str(spec_obj_get(ms, "text"@)) is Some && spec_opt_str(
            spec_obj_get(ms, "id"@),
        ) is Some && spec_opt_str(spec_obj_get(ms, "type"@)) is Some && spec_opt_num(
            spec_obj_get(ms, "activation"@),
        ) is Some && spec_opt_str(spec_obj_get(ms, "context"@)) is Some && spec_opt_str(
            spec_obj_get(ms, "event_date"@),
        ) is Some {
            Some(
                FactModel {
                    id: spec_opt_str(spec_obj_get(ms, "id"@))->0,
                    text: spec_req_str(spec_obj_get(ms, "text"@))->0,
                    fact_type: spec_opt_str(spec_obj_get(ms, "type"@))->0,
                    activation: spec_opt_num(spec_obj_get(ms, "activation"@))->0,
                    context: spec_opt_str(spec_obj_get(ms, "context"@))->0,
                    event_date: spec_opt_str(spec_obj_get(ms, "event_date"@))->0,
                },
            )
        } else {
            None
        }
    }
}

/// Reads a fact; `text` is required, the kind arrives under the wire name
/// `type`, everything else is optional.
pub fn decode_fact(j: &Json) -> (r: Option<Fact>)
    ensures
        match r {
            Some(f) => spec_decode_fact(j@) == Some(f@),
            None => spec_decode_fact(j@) is None,
        },
{
    match j {
        Json::Obj(_) => {},
        _ => {
            return None;
        },
    }
    let text = match field_req_str(j, &String::from_str("text")) {
        Some(s) => s,
        None => {
            return None;
        },
    };
    let id = match field_opt_str(j, &String::from_str("id")) {
        Some(o) => o,
        None => {
            return None;
        },
    };
    let fact_type = match field_opt_str(j, &String::from_str("type")) {
        Some(o) => o,
        None => {
            return None;
        },
    };
    let activation = match field_opt_num(j, &String::from_str("activation")) {
        Some(o) => o,
        None => {
            return None;
        },
    };
    let context = match field_opt_str(j, &String::from_str("context")) {
        Some(o) => o,
        None => {
            return None;
        },
    };
    let event_date = match field_opt_str(j, &String::from_str("event_date")) {
        Some(o) => o,
        None => {
            return None;
        },
    };
    Some(Fact { id, text, fact_type, activation, context, event_date })
}

// ---------------------------------------------------------------- lists

/// All elements as strings, exactly when each one is a string.
pub open spec fn spec_decode_strs(j: JsonModel) -> Option<Seq<Seq<char>>> {
    if !(j is Arr) {
        None
    } else {
        let es = j->Arr_0;
        if forall|i: int| 0 <= i < es.len() ==> (#[trigger] es[i]) is Str {
            Some(Seq::new(es.len(), |i: int| es[i]->Str_0))
        } else {
            None
        }
    }
}

pub fn decode_strs(j: &Json) -> (r: Option<Vec<String>>)
    ensures
        match r {
            Some(v) => spec_decode_strs(j@) == Some(vals_view(v@)),
            None => spec_decode_strs(j@) is None,
        },
{
    broadcast use lemma_elem_models_len;

    let elems = match j {
        Json::Arr(elems) => elems,
        _ => {
            return None;
        },
    };
    let ghost es = elem_models(elems@);
    let n = elems.len();
    let mut out: Vec<String> = Vec::new();
    let mut i: usize = 0;
    while i < n
        invariant
            i <= n,
            n == elems@.len(),
            es == elem_models(elems@),
            es.len() == n,
            forall|k: int| 0 <= k < n ==> es[k] == json_model(elems@[k]),
            j@ == JsonModel::Arr(es),
            out@.len() == i,
            forall|k: int| 0 <= k < i ==> (#[trigger] es[k]) is Str && out@[k]@ == es[k]->Str_0,
        decreases n - i,
    {
        proof {
            assert(es[i as int] == json_model(elems@[i as int]));
        }
        match &elems[i] {
            Json::Str(s) => {
                out.push(s.clone());
            },
            _ => {
                proof {
                    assert(!(es[i as int] is Str));
                }
                return None;
            },
        }
        i = i + 1;
    }
    proof {
        assert(Seq::new(es.len(), |k: int| es[k]->Str_0) =~= vals_view(out@));
    }
    Some(out)
}

/// All elements as facts, exactly when each one reads as a fact.
pub open spec fn spec_decode_facts(j: JsonModel) -> Option<Seq<FactModel>> {
    if !(j is Arr) {
        None
    } else {
        let es = j->Arr_0;
        if forall|i: int| 0 <= i < es.len() ==> spec_decode_fact(#[trigger] es[i]) is Some {
            Some(Seq::new(es.len(), |i: int| spec_decode_fact(es[i])->0))
        } else {
            None
        }
    }
}

pub fn decode_facts(j: &Json) -> (r: Option<Vec<Fact>>)
    ensures
        match r {
            Some(v) => spec_decode_facts(j@) == Some(vals_view(v@)),
            None => spec_decode_facts(j@) is None,
        },
{
    broadcast use lemma_elem_models_len;

    let elems = match j {
        Json::Arr(elems) => elems,
        _ => {
            return None;
        },
    };
    let ghost es = elem_models(elems@);
    let n = elems.len();
    let mut out: Vec<Fact> = Vec::new();
    let mut i: usize = 0;
    while i < n
        invariant
            i <= n,
            n == elems@.len(),
            es == elem_models(elems@),
            es.len() == n,
            forall|k: int| 0 <= k < n ==> es[k] == json_model(elems@[k]),
            j@ == JsonModel::Arr(es),
            out@.len() == i,
            forall|k: int|
                0 <= k < i ==> spec_decode_fact(#[trigger] es[k]) is Some && out@[k]@
                    == spec_decode_fact(es[k])->0,
        decreases n - i,
    {
        proof {
            assert(es[i as int] == json_model(elems@[i as int]));
        }
        match decode_fact(&elems[i]) {
            Some(f) => {
                out.push(f);
            },
            None => {
                return None;
            },
        }
        i = i + 1;
    }
    proof {
        assert(Seq::new(es.len(), |k: int| spec_decode_fact(es[k])->0) =~= vals_view(out@));
    }
    Some(out)
}

// ---------------------------------------------------------------- search / think

pub open spec fn spec_decode_trace(j: JsonModel) -> Option<TraceInfoModel> {
    if !(j is Obj) {
        None
    } else {
        let ms = j->Obj_0;
        if spec_opt_num(spec_obj_get(ms, "total_time"@)) is Some && spec_opt_i32(
            spec_obj_get(ms, "activation_count"@),
        ) is Some {
            Some(
                TraceInfoModel {
                    total_time: spec_opt_num(spec_obj_get(ms, "total_time"@))->0,
                    activation_count: spec_opt_i32(spec_obj_get(ms, "activation_count"@))->0,
                },
            )
        } else {
            None
        }
    }
}

pub fn decode_trace(j: &Json) -> (r: Option<TraceInfo>)
    ensures
        match r {
            Some(t) => spec_decode_trace(j@) == Some(t@),
            None => spec_decode_trace(j@) is None,
        },
{
    match j {
        Json::Obj(_) => {},
        _ => {
            return None;
        },
    }
    let total_time = match field_opt_num(j, &String::from_str("total_time")) {
        Some(o) => o,
        None => {
            return None;
        },
    };
    let activation_count = match field_opt_i32(j, &String::from_str("activation_count")) {
        Some(o) => o,
        None => {
            return None;
        },
    };
    Some(TraceInfo { total_time, activation_count })
}

pub open spec fn spec_decode_search_response(j: JsonModel) -> Option<SearchResponseModel> {
    if !(j is Obj) {
        None
    } else {
        let ms = j->Obj_0;
        let results = match spec_obj_get(ms, "results"@) {
            Some(rj) => spec_decode_facts(rj),
            None => None,
        };
        let trace = match spec_obj_get(ms, "trace"@) {
            None => Some(None),
            Some(JsonModel::Null) => Some(None),
            Some(tj) => match spec_decode_trace(tj) {
                Some(t) => Some(Some(t)),
                None => None,
            },
        };
        if results is Some && trace is Some {
            Some(SearchResponseModel { results: results->0, trace: trace->0 })
        } else {
            None
        }
    }
}

/// Reads a search response: the fact list is required, the trace is present
/// only when tracing was requested.
pub fn decode_search_response(j: &Json) -> (r: Option<SearchResponse>)
    ensures
        match r {
            Some(v) => spec_decode_search_response(j@) == Some(v@),
            None => spec_decode_search_response(j@) is None,
        },
{
    match j {
        Json::Obj(_) => {},
        _ => {
            return None;
        },
    }
    let results = match j.get(&String::from_str("results")) {
        Some(rj) => match decode_facts(rj) {
            Some(v) => v,
            None => {
                return None;
            },
        },
        None => {
            return None;
        },
    };
    let trace = match j.get(&String::from_str("trace")) {
        None => None,
        Some(tj) => match tj {
            Json::Null => None,
            _ => match decode_trace(tj) {
                Some(t) => Some(t),
                None => {
                    return None;
                },
            },
        },
    };
    Some(SearchResponse { results, trace })
}

pub open spec fn spec_decode_think_response(j: JsonModel) -> Option<ThinkResponseModel> {
    if !(j is Obj) {
        None
    } else {
        let ms = j->Obj_0;
        let based_on = match spec_obj_get(ms, "based_on"@) {
            Some(bj) => spec_decode_facts(bj),
            None => None,
        };
        let new_opinions = match spec_obj_get(ms, "new_opinions"@) {
            Some(oj) => spec_decode_strs(oj),
            None => None,
        };
        if spec_req_str(spec_obj_get(ms, "text"@)) is Some && based_on is Some && new_opinions
            is Some {
            Some(
                ThinkResponseModel {
                    text: spec_req_str(spec_obj_get(ms, "text"@))->0,
                    based_on: based_on->0,
                    new_opinions: new_opinions->0,
                },
            )
        } else {
            None
        }
    }
}

pub fn decode_think_response(j: &Json) -> (r: Option<ThinkResponse>)
    ensures
        match r {
            Some(v) => spec_decode_think_response(j@) == Some(v@),
            None => spec_decode_think_response(j@) is None,
        },
{
    match j {
        Json::Obj(_) => {},
        _ => {
            return None;
        },
    }
    let text = match field_req_str(j, &String::from_str("text")) {
        Some(s) => s,
        None => {
            return None;
        },
    };
    let based_on = match j.get(&String::from_str("based_on")) {
        Some(bj) => match decode_facts(bj) {
            Some(v) => v,
            None => {
                return None;
            },
        },
        None => {
            return None;
        },
    };
    let new_opinions = match j.get(&String::from_str("new_opinions")) {
        Some(oj) => match decode_strs(oj) {
            Some(v) => v,
            None => {
                return None;
            },
        },
        None => {
            return None;
        },
    };
    Some(ThinkResponse { text, based_on, new_opinions })
}

// ---------------------------------------------------------------- memories

pub open spec fn spec_decode_batch_memory_response(j: JsonModel) -> Option<
    BatchMemoryResponseModel,
> {
    if !(j is Obj) {
        None
    } else {
        let ms = j->Obj_0;
        if spec_req_bool(spec_obj_get(ms, "success"@)) is Some && spec_opt_i32(
            spec_obj_get(ms, "stored_count"@),
        ) is Some && spec_opt_str(spec_obj_get(ms, "error"@)) is Some && spec_opt_str(
            spec_obj_get(ms, "job_id"@),
        ) is Some {
            Some(
                BatchMemoryResponseModel {
                    success: spec_req_bool(spec_obj_get(ms, "success"@))->0,
                    stored_count: spec_opt_i32(spec_obj_get(ms, "stored_count"@))->0,
                    error: spec_opt_str(spec_obj_get(ms, "error"@))->0,
                    job_id: spec_opt_str(spec_obj_get(ms, "job_id"@))->0,
                },
            )
        } else {
            None
        }
    }
}

pub fn decode_batch_memory_response(j: &Json) -> (r: Option<BatchMemoryResponse>)
    ensures
        match r {
            Some(v) => spec_decode_batch_memory_response(j@) == Some(v@),
            None => spec_decode_batch_memory_response(j@) is None,
        },
{
    match j {
        Json::Obj(_) => {},
        _ => {
            return None;
        },
    }
    let success = match field_req_bool(j, &String::from_str("success")) {
        Some(b) => b,
        None => {
            return None;
        },
    };
    let stored_count = match field_opt_i32(j, &String::from_str("stored_count")) {
        Some(o) => o,
        None => {
            return None;
        },
    };
    let error = match field_opt_str(j, &String::from_str("error")) {
        Some(o) => o,
        None => {
            return None;
        },
    };
    let job_id = match field_opt_str(j, &String::from_str("job_id")) {
        Some(o) => o,
        None => {
            return None;
        },
    };
    Some(BatchMemoryResponse { success, stored_count, error, job_id })
}

// ---------------------------------------------------------------- agents

/// The agents listing carries no discriminant: a payload with a well-formed
/// `agents` list reads as success; failing that, one with an `error` string
/// reads as failure; anything else reads as neither. The success shape is
/// tried first, so a payload with both fields reads as success.
pub open spec fn spec_discriminate_agents(j: JsonModel) -> Option<AgentsResponseModel> {
    if !(j is Obj) {
        None
    } else {
        let ms = j->Obj_0;
        let agents = match spec_obj_get(ms, "agents"@) {
            Some(aj) => spec_decode_strs(aj),
            None => None,
        };
        match agents {
            Some(list) => Some(AgentsResponseModel::Success { agents: list }),
            None => match spec_req_str(spec_obj_get(ms, "error"@)) {
                Some(e) => Some(AgentsResponseModel::Error { error: e }),
                None => None,
            },
        }
    }
}

/// Resolves the untagged agents payload, success shape first.
pub fn discriminate_agents(j: &Json) -> (r: Option<AgentsResponse>)
    ensures
        match r {
            Some(v) => spec_discriminate_agents(j@) == Some(v@),
            None => spec_discriminate_agents(j@) is None,
        },
{
    match j {
        Json::Obj(_) => {},
        _ => {
            return None;
        },
    }
    let agents = match j.get(&String::from_str("agents")) {
        Some(aj) => decode_strs(aj),
        None => None,
    };
    match agents {
        Some(list) => Some(AgentsResponse::Success { agents: list }),
        None => match field_req_str(j, &String::from_str("error")) {
            Some(e) => Some(AgentsResponse::Error { error: e }),
            None => None,
        },
    }
}

// ---------------------------------------------------------------- profile

pub open spec fn spec_decode_personality(j: JsonModel) -> Option<PersonalityTraitsModel> {
    if !(j is Obj) {
        None
    } else {
        let ms = j->Obj_0;
        if spec_req_num(spec_obj_get(ms, "openness"@)) is Some && spec_req_num(
            spec_obj_get(ms, "conscientiousness"@),
        ) is Some && spec_req_num(spec_obj_get(ms, "extraversion"@)) is Some && spec_req_num(
            spec_obj_get(ms, "agreeableness"@),
        ) is Some && spec_req_num(spec_obj_get(ms, "neuroticism"@)) is Some && spec_req_num(
            spec_obj_get(ms, "bias_strength"@),
        ) is Some {
            Some(
                PersonalityTraitsModel {
                    openness: spec_req_num(spec_obj_get(ms, "openness"@))->0,
                    conscientiousness: spec_req_num(spec_obj_get(ms, "conscientiousness"@))->0,
                    extraversion: spec_req_num(spec_obj_get(ms, "extraversion"@))->0,
                    agreeableness: spec_req_num(spec_obj_get(ms, "agreeableness"@))->0,
                    neuroticism: spec_req_num(spec_obj_get(ms, "neuroticism"@))->0,
                    bias_strength: spec_req_num(spec_obj_get(ms, "bias_strength"@))->0,
                },
            )
        } else {
            None
        }
    }
}

/// Reads the six traits; each arrives as a number and is kept as its exact
/// decimal text.
pub fn decode_personality(j: &Json) -> (r: Option<PersonalityTraits>)
    ensures
        match r {
            Some(v) => spec_decode_personality(j@) == Some(v@),
            None => spec_decode_personality(j@) is None,
        },
{
    match j {
        Json::Obj(_) => {},
        _ => {
            return None;
        },
    }
    let openness = match field_req_num(j, &String::from_str("openness")) {
        Some(n) => n,
        None => {
            return None;
        },
    };
    let conscientiousness = match field_req_num(j, &String::from_str("conscientiousness")) {
        Some(n) => n,
        None => {
            return None;
        },
    };
    let extraversion = match field_req_num(j, &String::from_str("extraversion")) {
        Some(n) => n,
        None => {
            return None;
        },
    };
    let agreeableness = match field_req_num(j, &String::from_str("agreeableness")) {
        Some(n) => n,
        None => {
            return None;
        },
    };
    let neuroticism = match field_req_num(j, &String::from_str("neuroticism")) {
        Some(n) => n,
        None => {
            return None;
        },
    };
    let bias_strength = match field_req_num(j, &String::from_str("bias_strength")) {
        Some(n) => n,
        None => {
            return None;
        },
    };
    Some(
        PersonalityTraits {
            openness,
            conscientiousness,
            extraversion,
            agreeableness,
            neuroticism,
            bias_strength,
        },
    )
}

pub open spec fn spec_decode_profile(j: JsonModel) -> Option<AgentProfileModel> {
    if !(j is Obj) {
        None
    } else {
        let ms = j->Obj_0;
        let personality = match spec_obj_get(ms, "personality"@) {
            Some(pj) => spec_decode_personality(pj),
            None => None,
        };
        if spec_req_str(spec_obj_get(ms, "agent_id"@)) is Some && spec_req_str(
            spec_obj_get(ms, "name"@),
        ) is Some && personality is Some && spec_req_str(spec_obj_get(ms, "background"@))
            is Some {
            Some(
                AgentProfileModel {
                    agent_id: spec_req_str(spec_obj_get(ms, "agent_id"@))->0,
                    name: spec_req_str(spec_obj_get(ms, "name"@))->0,
                    personality: personality->0,
                    background: spec_req_str(spec_obj_get(ms, "background"@))->0,
                },
            )
        } else {
            None
        }
    }
}

pub fn decode_profile(j: &Json) -> (r: Option<AgentProfile>)
    ensures
        match r {
            Some(v) => spec_decode_profile(j@) == Some(v@),
            None => spec_decode_profile(j@) is None,
        },
{
    match j {
        Json::Obj(_) => {},
        _ => {
            return None;
        },
    }
    let agent_id = match field_req_str(j, &String::from_str("agent_id")) {
        Some(s) => s,
        None => {
            return None;
        },
    };
    let name = match field_req_str(j, &String::from_str("name")) {
        Some(s) => s,
        None => {
            return None;
        },
    };
    let personality = match j.get(&String::from_str("personality")) {
        Some(pj) => match decode_personality(pj) {
            Some(p) => p,
            None => {
                return None;
            },
        },
        None => {
            return None;
        },
    };
    let background = match field_req_str(j, &String::from_str("background")) {
        Some(s) => s,
        None => {
            return None;
        },
    };
    Some(AgentProfile { agent_id, name, personality, background })
}

pub open spec fn spec_decode_background_response(j: JsonModel) -> Option<BackgroundResponseModel> {
    if !(j is Obj) {
        None
    } else {
        let ms = j->Obj_0;
        let personality = match spec_obj_get(ms, "personality"@) {
            None => Some(None),
            Some(JsonModel::Null) => Some(None),
            Some(pj) => match spec_decode_personality(pj) {
                Some(p) => Some(Some(p)),
                None => None,
            },
        };
        if spec_req_str(spec_obj_get(ms, "background"@)) is Some && personality is Some {
            Some(
                BackgroundResponseModel {
                    background: spec_req_str(spec_obj_get(ms, "background"@))->0,
                    personality: personality->0,
                },
            )
        } else {
            None
        }
    }
}

pub fn decode_background_response(j: &Json) -> (r: Option<BackgroundResponse>)
    ensures
        match r {
            Some(v) => spec_decode_background_response(j@) == Some(v@),
            None => spec_decode_background_response(j@) is None,
        },
{
    match j {
        Json::Obj(_) => {},
        _ => {
            return None;
        },
    }
    let background = match field_req_str(j, &String::from_str("background")) {
        Some(s) => s,
        None => {
            return None;
        },
    };
    let personality = match j.get(&String::from_str("personality")) {
        None => None,
        Some(pj) => match pj {
            Json::Null => None,
            _ => match decode_personality(pj) {
                Some(p) => Some(p),
                None => {
                    return None;
                },
            },
        },
    };
    Some(BackgroundResponse { background, personality })
}

// ---------------------------------------------------------------- stats

/// A breakdown object: every member value is a whole number in `i32` range.
pub open spec fn spec_decode_counts(j: JsonModel) -> Option<Seq<CountEntryModel>> {
    if !(j is Obj) {
        None
    } else {
        let ms = j->Obj_0;
        if forall|i: int|
            0 <= i < ms.len() ==> (#[trigger] ms[i]).1 is Num && spec_i32_of_text(
                ms[i].1->Num_0,
            ) is Some {
            Some(
                Seq::new(
                    ms.len(),
                    |i: int| CountEntryModel {
                        key: ms[i].0,
                        count: spec_i32_of_text(ms[i].1->Num_0)->0,
                    },
                ),
            )
        } else {
            None
        }
    }
}

pub fn decode_counts(j: &Json) -> (r: Option<Vec<CountEntry>>)
    ensures
        match r {
            Some(v) => spec_decode_counts(j@) == Some(vals_view(v@)),
            None => spec_decode_counts(j@) is None,
        },
{
    broadcast use lemma_member_models_len;

    let members = match j {
        Json::Obj(members) => members,
        _ => {
            return None;
        },
    };
    let ghost ms = member_models(members@);
    let n = members.len();
    let mut out: Vec<CountEntry> = Vec::new();
    let mut i: usize = 0;
    while i < n
        invariant
            i <= n,
            n == members@.len(),
            ms == member_models(members@),
            ms.len() == n,
            forall|k: int|
                0 <= k < n ==> ms[k] == (members@[k].key@, json_model(members@[k].value)),
            j@ == JsonModel::Obj(ms),
            out@.len() == i,
            forall|k: int|
                0 <= k < i ==> (#[trigger] ms[k]).1 is Num && spec_i32_of_text(ms[k].1->Num_0)
                    is Some && out@[k]@ == (CountEntryModel {
                    key: ms[k].0,
                    count: spec_i32_of_text(ms[k].1->Num_0)->0,
                }),
        decreases n - i,
    {
        proof {
            assert(ms[i as int] == (members@[i as int].key@, json_model(
                members@[i as int].value,
            )));
        }
        match &members[i].value {
            Json::Num(t) => match i32_of_text(t.as_str()) {
                Some(c) => {
                    out.push(CountEntry { key: members[i].key.clone(), count: c });
                },
                None => {
                    return None;
                },
            },
            _ => {
                return None;
            },
        }
        i = i + 1;
    }
    proof {
        assert(Seq::new(
            ms.len(),
            |k: int| CountEntryModel { key: ms[k].0, count: spec_i32_of_text(ms[k].1->Num_0)->0 },
        ) =~= vals_view(out@));
    }
    Some(out)
}

/// A nested breakdown: every member value is itself a breakdown object.
pub open spec fn spec_decode_groups(j: JsonModel) -> Option<Seq<GroupEntryModel>> {
    if !(j is Obj) {
        None
    } else {
        let ms = j->Obj_0;
        if forall|i: int|
            0 <= i < ms.len() ==> spec_decode_counts((#[trigger] ms[i]).1) is Some {
            Some(
                Seq::new(
                    ms.len(),
                    |i: int| GroupEntryModel {
                        key: ms[i].0,
                        counts: spec_decode_counts(ms[i].1)->0,
                    },
                ),
            )
        } else {
            None
        }
    }
}

pub fn decode_groups(j: &Json) -> (r: Option<Vec<GroupEntry>>)
    ensures
        match r {
            Some(v) => spec_decode_groups(j@) == Some(vals_view(v@)),
            None => spec_decode_groups(j@) is None,
        },
{
    broadcast use lemma_member_models_len;

    let members = match j {
        Json::Obj(members) => members,
        _ => {
            return None;
        },
    };
    let ghost ms = member_models(members@);
    let n = members.len();
    let mut out: Vec<GroupEntry> = Vec::new();
    let mut i: usize = 0;
    while i < n
        invariant
            i <= n,
            n == members@.len(),
            ms == member_models(members@),
            ms.len() == n,
            forall|k: int|
                0 <= k < n ==> ms[k] == (members@[k].key@, json_model(members@[k].value)),
            j@ == JsonModel::Obj(ms),
            out@.len() == i,
            forall|k: int|
                0 <= k < i ==> spec_decode_counts((#[trigger] ms[k]).1) is Some && out@[k]@
                    == (GroupEntryModel {
                    key: ms[k].0,
                    counts: spec_decode_counts(ms[k].1)->0,
                }),
        decreases n - i,
    {
        proof {
            assert(ms[i as int] == (members@[i as int].key@, json_model(
                members@[i as int].value,
            )));
        }
        match decode_counts(&members[i].value) {
            Some(counts) => {
                out.push(GroupEntry { key: members[i].key.clone(), counts });
            },
            None => {
                return None;
            },
        }
        i = i + 1;
    }
    proof {
        assert(Seq::new(
            ms.len(),
            |k: int| GroupEntryModel { key: ms[k].0, counts: spec_decode_counts(ms[k].1)->0 },
        ) =~= vals_view(out@));
    }
    Some(out)
}

pub open spec fn spec_decode_stats(j: JsonModel) -> Option<AgentStatsModel> {
    if !(j is Obj) {
        None
    } else {
        let ms = j->Obj_0;
        let nodes_by = match spec_obj_get(ms, "nodes_by_fact_type"@) {
            Some(x) => spec_decode_counts(x),
            None => None,
        };
        let links_by_link = match spec_obj_get(ms, "links_by_link_type"@) {
            Some(x) => spec_decode_counts(x),
            None => None,
        };
        let links_by_fact = match spec_obj_get(ms, "links_by_fact_type"@) {
            Some(x) => spec_decode_counts(x),
            None => None,
        };
        let breakdown = match spec_obj_get(ms, "links_breakdown"@) {
            Some(x) => spec_decode_groups(x),
            None => None,
        };
        if spec_req_str(spec_obj_get(ms, "agent_id"@)) is Some && spec_req_i32(
            spec_obj_get(ms, "total_nodes"@),
        ) is Some && spec_req_i32(spec_obj_get(ms, "total_links"@)) is Some && spec_req_i32(
            spec_obj_get(ms, "total_documents"@),
        ) is Some && nodes_by is Some && links_by_link is Some && links_by_fact is Some
            && breakdown is Some && spec_req_i32(spec_obj_get(ms, "pending_operations"@))
            is Some && spec_req_i32(spec_obj_get(ms, "failed_operations"@)) is Some {
            Some(
                AgentStatsModel {
                    agent_id: spec_req_str(spec_obj_get(ms, "agent_id"@))->0,
                    total_nodes: spec_req_i32(spec_obj_get(ms, "total_nodes"@))->0,
                    total_links: spec_req_i32(spec_obj_get(ms, "total_links"@))->0,
                    total_documents: spec_req_i32(spec_obj_get(ms, "total_documents"@))->0,
                    nodes_by_fact_type: nodes_by->0,
                    links_by_link_type: links_by_link->0,
                    links_by_fact_type: links_by_fact->0,
                    links_breakdown: breakdown->0,
                    pending_operations: spec_req_i32(spec_obj_get(ms, "pending_operations"@))->0,
                    failed_operations: spec_req_i32(spec_obj_get(ms, "failed_operations"@))->0,
                },
            )
        } else {
            None
        }
    }
}

pub fn decode_stats(j: &Json) -> (r: Option<AgentStats>)
    ensures
        match r {
            Some(v) => spec_decode_stats(j@) == Some(v@),
            None => spec_decode_stats(j@) is None,
        },
{
    match j {
        Json::Obj(_) => {},
        _ => {
            return None;
        },
    }
    let agent_id = match field_req_str(j, &String::from_str("agent_id")) {
        Some(s) => s,
        None => {
            return None;
        },
    };
    let total_nodes = match field_req_i32(j, &String::from_str("total_nodes")) {
        Some(v) => v,
        None => {
            return None;
        },
    };
    let total_links = match field_req_i32(j, &String::from_str("total_links")) {
        Some(v) => v,
        None => {
            return None;
        },
    };
    let total_documents = match field_req_i32(j, &String::from_str("total_documents")) {
        Some(v) => v,
        None => {
            return None;
        },
    };
    let nodes_by_fact_type = match j.get(&String::from_str("nodes_by_fact_type")) {
        Some(x) => match decode_counts(x) {
            Some(v) => v,
            None => {
                return None;
            },
        },
        None => {
            return None;
        },
    };
    let links_by_link_type = match j.get(&String::from_str("links_by_link_type")) {
        Some(x) => match decode_counts(x) {
            Some(v) => v,
            None => {
                return None;
            },
        },
        None => {
            return None;
        },
    };
    let links_by_fact_type = match j.get(&String::from_str("links_by_fact_type")) {
        Some(x) => match decode_counts(x) {
            Some(v) => v,
            None => {
                return None;
            },
        },
        None => {
            return None;
        },
    };
    let links_breakdown = match j.get(&String::from_str("links_breakdown")) {
        Some(x) => match decode_groups(x) {
            Some(v) => v,
            None => {
                return None;
            },
        },
        None => {
            return None;
        },
    };
    let pending_operations = match field_req_i32(j, &String::from_str("pending_operations")) {
        Some(v) => v,
        None => {
            return None;
        },
    };
    let failed_operations = match field_req_i32(j, &String::from_str("failed_operations")) {
        Some(v) => v,
        None => {
            return None;
        },
    };
    Some(
        AgentStats {
            agent_id,
            total_nodes,
            total_links,
            total_documents,
            nodes_by_fact_type,
            links_by_link_type,
            links_by_fact_type,
            links_breakdown,
            pending_operations,
            failed_operations,
        },
    )
}

// ---------------------------------------------------------------- documents

pub open spec fn spec_decode_document(j: JsonModel) -> Option<DocumentModel> {
    if !(j is Obj) {
        None
    } else {
        let ms = j->Obj_0;
        if spec_req_str(spec_obj_get(ms, "id"@)) is Some && spec_req_str(
            spec_obj_get(ms, "agent_id"@),
        ) is Some && spec_opt_str(spec_obj_get(ms, "content_hash"@)) is Some && spec_req_str(
            spec_obj_get(ms, "created_at"@),
        ) is Some && spec_req_str(spec_obj_get(ms, "updated_at"@)) is Some && spec_req_i32(
            spec_obj_get(ms, "text_length"@),
        ) is Some && spec_req_i32(spec_obj_get(ms, "memory_unit_count"@)) is Some {
            Some(
                DocumentModel {
                    id: spec_req_str(spec_obj_get(ms, "id"@))->0,
                    agent_id: spec_req_str(spec_obj_get(ms, "agent_id"@))->0,
                    content_hash: spec_opt_str(spec_obj_get(ms, "content_hash"@))->0,
                    created_at: spec_req_str(spec_obj_get(ms, "created_at"@))->0,
                    updated_at: spec_req_str(spec_obj_get(ms, "updated_at"@))->0,
                    text_length: spec_req_i32(spec_obj_get(ms, "text_length"@))->0,
                    memory_unit_count: spec_req_i32(spec_obj_get(ms, "memory_unit_count"@))->0,
                },
            )
        } else {
            None
        }
    }
}

pub fn decode_document(j: &Json) -> (r: Option<Document>)
    ensures
        match r {
            Some(v) => spec_decode_document(j@) == Some(v@),
            None => spec_decode_document(j@) is None,
        },
{
    match j {
        Json::Obj(_) => {},
        _ => {
            return None;
        },
    }
    let id = match field_req_str(j, &String::from_str("id")) {
        Some(s) => s,
        None => {
            return None;
        },
    };
    let agent_id = match field_req_str(j, &String::from_str("agent_id")) {
        Some(s) => s,
        None => {
            return None;
        },
    };
    let content_hash = match field_opt_str(j, &String::from_str("content_hash")) {
        Some(o) => o,
        None => {
            return None;
        },
    };
    let created_at = match field_req_str(j, &String::from_str("created_at")) {
        Some(s) => s,
        None => {
            return None;
        },
    };
    let updated_at = match field_req_str(j, &String::from_str("updated_at")) {
        Some(s) => s,
        None => {
            return None;
        },
    };
    let text_length = match field_req_i32(j, &String::from_str("text_length")) {
        Some(v) => v,
        None => {
            return None;
        },
    };
    let memory_unit_count = match field_req_i32(j, &String::from_str("memory_unit_count")) {
        Some(v) => v,
        None => {
            return None;
        },
    };
    Some(
        Document {
            id,
            agent_id,
            content_hash,
            created_at,
            updated_at,
            text_length,
            memory_unit_count,
        },
    )
}

pub open spec fn spec_decode_document_details(j: JsonModel) -> Option<DocumentDetailsModel> {
    if !(j is Obj) {
        None
    } else {
        let ms = j->Obj_0;
        if spec_req_str(spec_obj_get(ms, "id"@)) is Some && spec_req_str(
            spec_obj_get(ms, "agent_id"@),
        ) is Some && spec_req_str(spec_obj_get(ms, "original_text"@)) is Some && spec_opt_str(
            spec_obj_get(ms, "content_hash"@),
        ) is Some && spec_req_str(spec_obj_get(ms, "created_at"@)) is Some && spec_req_str(
            spec_obj_get(ms, "updated_at"@),
        ) is Some && spec_req_i32(spec_obj_get(ms, "memory_unit_count"@)) is Some {
            Some(
                DocumentDetailsModel {
                    id: spec_req_str(spec_obj_get(ms, "id"@))->0,
                    agent_id: spec_req_str(spec_obj_get(ms, "agent_id"@))->0,
                    original_text: spec_req_str(spec_obj_get(ms, "original_text"@))->0,
                    content_hash: spec_opt_str(spec_obj_get(ms, "content_hash"@))->0,
                    created_at: spec_req_str(spec_obj_get(ms, "created_at"@))->0,
                    updated_at: spec_req_str(spec_obj_get(ms, "updated_at"@))->0,
                    memory_unit_count: spec_req_i32(spec_obj_get(ms, "memory_unit_count"@))->0,
                },
            )
        } else {
            None
        }
    }
}

pub fn decode_document_details(j: &Json) -> (r: Option<DocumentDetails>)
    ensures
        match r {
            Some(v) => spec_decode_document_details(j@) == Some(v@),
            None => spec_decode_document_details(j@) is None,
        },
{
    match j {
        Json::Obj(_) => {},
        _ => {
            return None;
        },
    }
    let id = match field_req_str(j, &String::from_str("id")) {
        Some(s) => s,
        None => {
            return None;
        },
    };
    let agent_id = match field_req_str(j, &String::from_str("agent_id")) {
        Some(s) => s,
        None => {
            return None;
        },
    };
    let original_text = match field_req_str(j, &String::from_str("original_text")) {
        Some(s) => s,
        None => {
            return None;
        },
    };
    let content_hash = match field_opt_str(j, &String::from_str("content_hash")) {
        Some(o) => o,
        None => {
            return None;
        },
    };
    let created_at = match field_req_str(j, &String::from_str("created_at")) {
        Some(s) => s,
        None => {
            return None;
        },
    };
    let updated_at = match field_req_str(j, &String::from_str("updated_at")) {
        Some(s) => s,
        None => {
            return None;
        },
    };
    let memory_unit_count = match field_req_i32(j, &String::from_str("memory_unit_count")) {
        Some(v) => v,
        None => {
            return None;
        },
    };
    Some(
        DocumentDetails {
            id,
            agent_id,
            original_text,
            content_hash,
            created_at,
            updated_at,
            memory_unit_count,
        },
    )
}

pub open spec fn spec_decode_documents(j: JsonModel) -> Option<Seq<DocumentModel>> {
    if !(j is Arr) {
        None
    } else {
        let es = j->Arr_0;
        if forall|i: int|
            0 <= i < es.len() ==> spec_decode_document(#[trigger] es[i]) is Some {
            Some(Seq::new(es.len(), |i: int| spec_decode_document(es[i])->0))
        } else {
            None
        }
    }
}

pub fn decode_documents(j: &Json) -> (r: Option<Vec<Document>>)
    ensures
        match r {
            Some(v) => spec_decode_documents(j@) == Some(vals_view(v@)),
            None => spec_decode_documents(j@) is None,
        },
{
    broadcast use lemma_elem_models_len;

    let elems = match j {
        Json::Arr(elems) => elems,
        _ => {
            return None;
        },
    };
    let ghost es = elem_models(elems@);
    let n = elems.len();
    let mut out: Vec<Document> = Vec::new();
    let mut i: usize = 0;
    while i < n
        invariant
            i <= n,
            n == elems@.len(),
            es == elem_models(elems@),
            es.len() == n,
            forall|k: int| 0 <= k < n ==> es[k] == json_model(elems@[k]),
            j@ == JsonModel::Arr(es),
            out@.len() == i,
            forall|k: int|
                0 <= k < i ==> spec_decode_document(#[trigger] es[k]) is Some && out@[k]@
                    == spec_decode_document(es[k])->0,
        decreases n - i,
    {
        proof {
            assert(es[i as int] == json_model(elems@[i as int]));
        }
        match decode_document(&elems[i]) {
            Some(d) => {
                out.push(d);
            },
            None => {
                return None;
            },
        }
        i = i + 1;
    }
    proof {
        assert(Seq::new(es.len(), |k: int| spec_decode_document(es[k])->0) =~= vals_view(out@));
    }
    Some(out)
}

pub open spec fn spec_decode_documents_response(j: JsonModel) -> Option<DocumentsResponseModel> {
    if !(j is Obj) {
        None
    } else {
        let ms = j->Obj_0;
        let items = match spec_obj_get(ms, "items"@) {
            Some(x) => spec_decode_documents(x),
            None => None,
        };
        if items is Some && spec_req_i32(spec_obj_get(ms, "total"@)) is Some && spec_req_i32(
            spec_obj_get(ms, "limit"@),
        ) is Some && spec_req_i32(spec_obj_get(ms, "offset"@)) is Some {
            Some(
                DocumentsResponseModel {
                    items: items->0,
                    total: spec_req_i32(spec_obj_get(ms, "total"@))->0,
                    limit: spec_req_i32(spec_obj_get(ms, "limit"@))->0,
                    offset: spec_req_i32(spec_obj_get(ms, "offset"@))->0,
                },
            )
        } else {
            None
        }
    }
}

pub fn decode_documents_response(j: &Json) -> (r: Option<DocumentsResponse>)
    ensures
        match r {
            Some(v) => spec_decode_documents_response(j@) == Some(v@),
            None => spec_decode_documents_response(j@) is None,
        },
{
    match j {
        Json::Obj(_) => {},
        _ => {
            return None;
        },
    }
    let items = match j.get(&String::from_str("items")) {
        Some(x) => match decode_documents(x) {
            Some(v) => v,
            None => {
                return None;
            },
        },
        None => {
            return None;
        },
    };
    let total = match field_req_i32(j, &String::from_str("total")) {
        Some(v) => v,
        None => {
            return None;
        },
    };
    let limit = match field_req_i32(j, &String::from_str("limit")) {
        Some(v) => v,
        None => {
            return None;
        },
    };
    let offset = match field_req_i32(j, &String::from_str("offset")) {
        Some(v) => v,
        None => {
            return None;
        },
    };
    Some(DocumentsResponse { items, total, limit, offset })
}

// ---------------------------------------------------------------- operations

pub open spec fn spec_decode_operation(j: JsonModel) -> Option<OperationModel> {
    if !(j is Obj) {
        None
    } else {
        let ms = j->Obj_0;
        if spec_req_str(spec_obj_get(ms, "id"@)) is Some && spec_req_str(
            spec_obj_get(ms, "task_type"@),
        ) is Some && spec_req_i32(spec_obj_get(ms, "items_count"@)) is Some && spec_opt_str(
            spec_obj_get(ms, "document_id"@),
        ) is Some && spec_req_str(spec_obj_get(ms, "created_at"@)) is Some && spec_req_str(
            spec_obj_get(ms, "status"@),
        ) is Some && spec_opt_str(spec_obj_get(ms, "error_message"@)) is Some {
            Some(
                OperationModel {
                    id: spec_req_str(spec_obj_get(ms, "id"@))->0,
                    task_type: spec_req_str(spec_obj_get(ms, "task_type"@))->0,
                    items_count: spec_req_i32(spec_obj_get(ms, "items_count"@))->0,
                    document_id: spec_opt_str(spec_obj_get(ms, "document_id"@))->0,
                    created_at: spec_req_str(spec_obj_get(ms, "created_at"@))->0,
                    status: spec_req_str(spec_obj_get(ms, "status"@))->0,
                    error_message: spec_opt_str(spec_obj_get(ms, "error_message"@))->0,
                },
            )
        } else {
            None
        }
    }
}

pub fn decode_operation(j: &Json) -> (r: Option<Operation>)
    ensures
        match r {
            Some(v) => spec_decode_operation(j@) == Some(v@),
            None => spec_decode_operation(j@) is None,
        },
{
    match j {
        Json::Obj(_) => {},
        _ => {
            return None;
        },
    }
    let id = match field_req_str(j, &String::from_str("id")) {
        Some(s) => s,
        None => {
            return None;
        },
    };
    let task_type = match field_req_str(j, &String::from_str("task_type")) {
        Some(s) => s,
        None => {
            return None;
        },
    };
    let items_count = match field_req_i32(j, &String::from_str("items_count")) {
        Some(v) => v,
        None => {
            return None;
        },
    };
    let document_id = match field_opt_str(j, &String::from_str("document_id")) {
        Some(o) => o,
        None => {
            return None;
        },
    };
    let created_at = match field_req_str(j, &String::from_str("created_at")) {
        Some(s) => s,
        None => {
            return None;
        },
    };
    let status = match field_req_str(j, &String::from_str("status")) {
        Some(s) => s,
        None => {
            return None;
        },
    };
    let error_message = match field_opt_str(j, &String::from_str("error_message")) {
        Some(o) => o,
        None => {
            return None;
        },
    };
    Some(Operation { id, task_type, items_count, document_id, created_at, status, error_message })
}

pub open spec fn spec_decode_operations(j: JsonModel) -> Option<Seq<OperationModel>> {
    if !(j is Arr) {
        None
    } else {
        let es = j->Arr_0;
        if forall|i: int|
            0 <= i < es.len() ==> spec_decode_operation(#[trigger] es[i]) is Some {
            Some(Seq::new(es.len(), |i: int| spec_decode_operation(es[i])->0))
        } else {
            None
        }
    }
}

pub fn decode_operations(j: &Json) -> (r: Option<Vec<Operation>>)
    ensures
        match r {
            Some(v) => spec_decode_operations(j@) == Some(vals_view(v@)),
            None => spec_decode_operations(j@) is None,
        },
{
    broadcast use lemma_elem_models_len;

    let elems = match j {
        Json::Arr(elems) => elems,
        _ => {
            return None;
        },
    };
    let ghost es = elem_models(elems@);
    let n = elems.len();
    let mut out: Vec<Operation> = Vec::new();
    let mut i: usize = 0;
    while i < n
        invariant
            i <= n,
            n == elems@.len(),
            es == elem_models(elems@),
            es.len() == n,
            forall|k: int| 0 <= k < n ==> es[k] == json_model(elems@[k]),
            j@ == JsonModel::Arr(es),
            out@.len() == i,
            forall|k: int|
                0 <= k < i ==> spec_decode_operation(#[trigger] es[k]) is Some && out@[k]@
                    == spec_decode_operation(es[k])->0,
        decreases n - i,
    {
        proof {
            assert(es[i as int] == json_model(elems@[i as int]));
        }
        match decode_operation(&elems[i]) {
            Some(o) => {
                out.push(o);
            },
            None => {
                return None;
            },
        }
        i = i + 1;
    }
    proof {
        assert(Seq::new(es.len(), |k: int| spec_decode_operation(es[k])->0) =~= vals_view(
            out@,
        ));
    }
    Some(out)
}

pub open spec fn spec_decode_operations_response(j: JsonModel) -> Option<OperationsResponseModel> {
    if !(j is Obj) {
        None
    } else {
        let ms = j->Obj_0;
        let operations = match spec_obj_get(ms, "operations"@) {
            Some(x) => spec_decode_operations(x),
            None => None,
        };
        if spec_req_str(spec_obj_get(ms, "agent_id"@)) is Some && operations is Some {
            Some(
                OperationsResponseModel {
                    agent_id: spec_req_str(spec_obj_get(ms, "agent_id"@))->0,
                    operations: operations->0,
                },
            )
        } else {
            None
        }
    }
}

pub fn decode_operations_response(j: &Json) -> (r: Option<OperationsResponse>)
    ensures
        match r {
            Some(v) => spec_decode_operations_response(j@) == Some(v@),
            None => spec_decode_operations_response(j@) is None,
        },
{
    match j {
        Json::Obj(_) => {},
        _ => {
            return None;
        },
    }
    let agent_id = match field_req_str(j, &String::from_str("agent_id")) {
        Some(s) => s,
        None => {
            return None;
        },
    };
    let operations = match j.get(&String::from_str("operations")) {
        Some(x) => match decode_operations(x) {
            Some(v) => v,
            None => {
                return None;
            },
        },
        None => {
            return None;
        },
    };
    Some(OperationsResponse { agent_id, operations })
}

pub open spec fn spec_decode_delete_response(j: JsonModel) -> Option<DeleteResponseModel> {
    if !(j is Obj) {
        None
    } else {
        let ms = j->Obj_0;
        if spec_req_bool(spec_obj_get(ms, "success"@)) is Some && spec_req_str(
            spec_obj_get(ms, "message"@),
        ) is Some {
            Some(
                DeleteResponseModel {
                    success: spec_req_bool(spec_obj_get(ms, "success"@))->0,
                    message: spec_req_str(spec_obj_get(ms, "message"@))->0,
                },
            )
        } else {
            None
        }
    }
}

pub fn decode_delete_response(j: &Json) -> (r: Option<DeleteResponse>)
    ensures
        match r {
            Some(v) => spec_decode_delete_response(j@) == Some(v@),
            None => spec_decode_delete_response(j@) is None,
        },
{
    match j {
        Json::Obj(_) => {},
        _ => {
            return None;
        },
    }
    let success = match field_req_bool(j, &String::from_str("success")) {
        Some(b) => b,
        None => {
            return None;
        },
    };
    let message = match field_req_str(j, &String::from_str("message")) {
        Some(s) => s,
        None => {
            return None;
        },
    };
    Some(DeleteResponse { success, message })
}

// ---------------------------------------------------------------- encoders

/// A present string as a string member, an absent one as `null`.
pub open spec fn spec_str_or_null(o: Option<Seq<char>>) -> JsonModel {
    match o {
        Some(t) => JsonModel::Str(t),
        None => JsonModel::Null,
    }
}

fn str_or_null(o: &Option<String>) -> (r: Json)
    ensures
        r@ == spec_str_or_null(opt_view(*o)),
{
    match o {
        Some(s) => Json::Str(s.clone()),
        None => Json::Null,
    }
}

fn push_member(members: &mut Vec<Member>, key: &str, value: Json)
    ensures
        member_models(final(members)@) == member_models(old(members)@) + seq![
            (key@, json_model(value)),
        ],
{
    let k = String::from_str(key);
    let ghost m0 = Member { key: k, value: value };
    let ghost ms0 = members@;
    members.push(Member { key: k, value });
    proof {
        lemma_member_models_push(ms0, m0);
    }
}

pub open spec fn spec_strs_json(s: Seq<Seq<char>>) -> Seq<JsonModel> {
    Seq::new(s.len(), |i: int| JsonModel::Str(s[i]))
}

fn encode_strs(v: &Vec<String>) -> (r: Json)
    ensures
        r@ == JsonModel::Arr(spec_strs_json(vals_view(v@))),
{
    let n = v.len();
    let mut out: Vec<Json> = Vec::new();
    let mut i: usize = 0;
    while i < n
        invariant
            i <= n,
            n == v@.len(),
            elem_models(out@) =~= Seq::new(i as nat, |k: int| JsonModel::Str(v@[k]@)),
        decreases n - i,
    {
        let piece = Json::Str(v[i].clone());
        let ghost out0 = out@;
        let ghost x = piece;
        proof {
            lemma_elem_models_push(out0, x);
        }
        out.push(piece);
        proof {
            assert(out@ == out0.push(x));
            assert(elem_models(out@) =~= Seq::new((i + 1) as nat, |k: int| JsonModel::Str(
                v@[k]@,
            )));
        }
        i = i + 1;
    }
    proof {
        assert(Seq::new(n as nat, |k: int| JsonModel::Str(v@[k]@)) =~= spec_strs_json(
            vals_view(v@),
        ));
    }
    Json::Arr(out)
}

/// One item of an ingestion batch: content, and its context or `null`.
pub open spec fn spec_encode_memory_item(m: MemoryItemModel) -> JsonModel {
    JsonModel::Obj(
        seq![("content"@, JsonModel::Str(m.content)), ("context"@, spec_str_or_null(m.context))],
    )
}

pub fn encode_memory_item(item: &MemoryItem) -> (r: Json)
    ensures
        r@ == spec_encode_memory_item(item@),
{
    let mut members: Vec<Member> = Vec::new();
    push_member(&mut members, "content", Json::Str(item.content.clone()));
    push_member(&mut members, "context", str_or_null(&item.context));
    proof {
        assert(member_models(members@) =~= seq![
            ("content"@, JsonModel::Str(item.content@)),
            ("context"@, spec_str_or_null(opt_view(item.context))),
        ]);
    }
    Json::Obj(members)
}

pub open spec fn spec_items_json(s: Seq<MemoryItemModel>) -> Seq<JsonModel> {
    Seq::new(s.len(), |i: int| spec_encode_memory_item(s[i]))
}

fn encode_items(v: &Vec<MemoryItem>) -> (r: Json)
    ensures
        r@ == JsonModel::Arr(spec_items_json(vals_view(v@))),
{
    let n = v.len();
    let mut out: Vec<Json> = Vec::new();
    let mut i: usize = 0;
    while i < n
        invariant
            i <= n,
            n == v@.len(),
            elem_models(out@) =~= Seq::new(i as nat, |k: int| spec_encode_memory_item(v@[k]@)),
        decreases n - i,
    {
        let piece = encode_memory_item(&v[i]);
        let ghost out0 = out@;
        let ghost x = piece;
        proof {
            lemma_elem_models_push(out0, x);
        }
        out.push(piece);
        proof {
            assert(elem_models(out@) =~= Seq::new((i + 1) as nat, |k: int|
                spec_encode_memory_item(v@[k]@)));
        }
        i = i + 1;
    }
    proof {
        assert(Seq::new(n as nat, |k: int| spec_encode_memory_item(v@[k]@)) =~= spec_items_json(
            vals_view(v@),
        ));
    }
    Json::Arr(out)
}

/// The search body: query, fact kinds, budgets and the trace flag, in wire
/// order.
pub open spec fn spec_encode_search_request(m: SearchRequestModel) -> JsonModel {
    JsonModel::Obj(
        seq![
            ("query"@, JsonModel::Str(m.query)),
            ("fact_type"@, JsonModel::Arr(spec_strs_json(m.fact_type))),
            ("thinking_budget"@, JsonModel::Num(spec_i32_text(m.thinking_budget))),
            ("max_tokens"@, JsonModel::Num(spec_i32_text(m.max_tokens))),
            ("trace"@, JsonModel::Bool(m.trace)),
        ],
    )
}

pub fn encode_search_request(req: &SearchRequest) -> (r: Json)
    ensures
        r@ == spec_encode_search_request(req@),
{
    let mut members: Vec<Member> = Vec::new();
    push_member(&mut members, "query", Json::Str(req.query.clone()));
    push_member(&mut members, "fact_type", encode_strs(&req.fact_type));
    push_member(&mut members, "thinking_budget", Json::Num(i32_to_text(req.thinking_budget)));
    push_member(&mut members, "max_tokens", Json::Num(i32_to_text(req.max_tokens)));
    push_member(&mut members, "trace", Json::Bool(req.trace));
    proof {
        assert(member_models(members@) =~= spec_encode_search_request(req@)->Obj_0);
    }
    Json::Obj(members)
}

/// The reasoning body: query and budget always, the context only when the
/// caller gave one.
pub open spec fn spec_encode_think_request(m: ThinkRequestModel) -> JsonModel {
    match m.context {
        Some(c) => JsonModel::Obj(
            seq![
                ("query"@, JsonModel::Str(m.query)),
                ("thinking_budget"@, JsonModel::Num(spec_i32_text(m.thinking_budget))),
                ("context"@, JsonModel::Str(c)),
            ],
        ),
        None => JsonModel::Obj(
            seq![
                ("query"@, JsonModel::Str(m.query)),
                ("thinking_budget"@, JsonModel::Num(spec_i32_text(m.thinking_budget))),
            ],
        ),
    }
}

pub fn encode_think_request(req: &ThinkRequest) -> (r: Json)
    ensures
        r@ == spec_encode_think_request(req@),
{
    let mut members: Vec<Member> = Vec::new();
    push_member(&mut members, "query", Json::Str(req.query.clone()));
    push_member(&mut members, "thinking_budget", Json::Num(i32_to_text(req.thinking_budget)));
    match &req.context {
        Some(c) => {
            push_member(&mut members, "context", Json::Str(c.clone()));
        },
        None => {},
    }
    proof {
        assert(member_models(members@) =~= spec_encode_think_request(req@)->Obj_0);
    }
    Json::Obj(members)
}

/// The ingestion body: the item list, and the grouping document or `null`.
pub open spec fn spec_encode_batch_memory_request(m: BatchMemoryRequestModel) -> JsonModel {
    JsonModel::Obj(
        seq![
            ("items"@, JsonModel::Arr(spec_items_json(m.items))),
            ("document_id"@, spec_str_or_null(m.document_id)),
        ],
    )
}

pub fn encode_batch_memory_request(req: &BatchMemoryRequest) -> (r: Json)
    ensures
        r@ == spec_encode_batch_memory_request(req@),
{
    let mut members: Vec<Member> = Vec::new();
    push_member(&mut members, "items", encode_items(&req.items));
    push_member(&mut members, "document_id", str_or_null(&req.document_id));
    proof {
        assert(member_models(members@) =~= spec_encode_batch_memory_request(req@)->Obj_0);
    }
    Json::Obj(members)
}

/// The six traits, each as its exact decimal text.
pub open spec fn spec_encode_personality(m: PersonalityTraitsModel) -> JsonModel {
    JsonModel::Obj(
        seq![
            ("openness"@, JsonModel::Num(m.openness)),
            ("conscientiousness"@, JsonModel::Num(m.conscientiousness)),
            ("extraversion"@, JsonModel::Num(m.extraversion)),
            ("agreeableness"@, JsonModel::Num(m.agreeableness)),
            ("neuroticism"@, JsonModel::Num(m.neuroticism)),
            ("bias_strength"@, JsonModel::Num(m.bias_strength)),
        ],
    )
}

pub fn encode_personality(t: &PersonalityTraits) -> (r: Json)
    ensures
        r@ == spec_encode_personality(t@),
{
    let mut members: Vec<Member> = Vec::new();
    push_member(&mut members, "openness", Json::Num(t.openness.text.clone()));
    push_member(&mut members, "conscientiousness", Json::Num(t.conscientiousness.text.clone()));
    push_member(&mut members, "extraversion", Json::Num(t.extraversion.text.clone()));
    push_member(&mut members, "agreeableness", Json::Num(t.agreeableness.text.clone()));
    push_member(&mut members, "neuroticism", Json::Num(t.neuroticism.text.clone()));
    push_member(&mut members, "bias_strength", Json::Num(t.bias_strength.text.clone()));
    proof {
        assert(member_models(members@) =~= spec_encode_personality(t@)->Obj_0);
    }
    Json::Obj(members)
}

pub open spec fn spec_encode_update_personality(m: UpdatePersonalityRequestModel) -> JsonModel {
    JsonModel::Obj(seq![("personality"@, spec_encode_personality(m.personality))])
}

pub fn encode_update_personality(req: &UpdatePersonalityRequest) -> (r: Json)
    ensures
        r@ == spec_encode_update_personality(req@),
{
    let mut members: Vec<Member> = Vec::new();
    push_member(&mut members, "personality", encode_personality(&req.personality));
    proof {
        assert(member_models(members@) =~= spec_encode_update_personality(req@)->Obj_0);
    }
    Json::Obj(members)
}

/// The background body: the narrative, and whether to refresh the persona.
pub open spec fn spec_encode_add_background(m: AddBackgroundRequestModel) -> JsonModel {
    JsonModel::Obj(
        seq![
            ("content"@, JsonModel::Str(m.content)),
            ("update_personality"@, JsonModel::Bool(m.update_personality)),
        ],
    )
}

pub fn encode_add_background(req: &AddBackgroundRequest) -> (r: Json)
    ensures
        r@ == spec_encode_add_background(req@),
{
    let mut members: Vec<Member> = Vec::new();
    push_member(&mut members, "content", Json::Str(req.content.clone()));
    push_member(&mut members, "update_personality", Json::Bool(req.update_personality));
    proof {
        assert(member_models(members@) =~= spec_encode_add_background(req@)->Obj_0);
    }
    Json::Obj(members)
}

// ---------------------------------------------------------------- request decoders

/// Reads back what `spec_encode_memory_item` writes.
pub open spec fn spec_decode_memory_item(j: JsonModel) -> Option<MemoryItemModel> {
    if !(j is Obj) {
        None
    } else {
        let ms = j->Obj_0;
        if spec_req_str(spec_obj_get(ms, "content"@)) is Some && spec_opt_str(
            spec_obj_get(ms, "context"@),
        ) is Some {
            Some(
                MemoryItemModel {
                    content: spec_req_str(spec_obj_get(ms, "content"@))->0,
                    context: spec_opt_str(spec_obj_get(ms, "context"@))->0,
                },
            )
        } else {
            None
        }
    }
}

pub fn decode_memory_item(j: &Json) -> (r: Option<MemoryItem>)
    ensures
        match r {
            Some(v) => spec_decode_memory_item(j@) == Some(v@),
            None => spec_decode_memory_item(j@) is None,
        },
{
    match j {
        Json::Obj(_) => {},
        _ => {
            return None;
        },
    }
    let content = match field_req_str(j, &String::from_str("content")) {
        Some(s) => s,
        None => {
            return None;
        },
    };
    let context = match field_opt_str(j, &String::from_str("context")) {
        Some(o) => o,
        None => {
            return None;
        },
    };
    Some(MemoryItem { content, context })
}

pub open spec fn spec_decode_memory_items(j: JsonModel) -> Option<Seq<MemoryItemModel>> {
    if !(j is Arr) {
        None
    } else {
        let es = j->Arr_0;
        if forall|i: int|
            0 <= i < es.len() ==> spec_decode_memory_item(#[trigger] es[i]) is Some {
            Some(Seq::new(es.len(), |i: int| spec_decode_memory_item(es[i])->0))
        } else {
            None
        }
    }
}

pub fn decode_memory_items(j: &Json) -> (r: Option<Vec<MemoryItem>>)
    ensures
        match r {
            Some(v) => spec_decode_memory_items(j@) == Some(vals_view(v@)),
            None => spec_decode_memory_items(j@) is None,
        },
{
    broadcast use lemma_elem_models_len;

    let elems = match j {
        Json::Arr(elems) => elems,
        _ => {
            return None;
        },
    };
    let ghost es = elem_models(elems@);
    let n = elems.len();
    let mut out: Vec<MemoryItem> = Vec::new();
    let mut i: usize = 0;
    while i < n
        invariant
            i <= n,
            n == elems@.len(),
            es == elem_models(elems@),
            es.len() == n,
            forall|k: int| 0 <= k < n ==> es[k] == json_model(elems@[k]),
            j@ == JsonModel::Arr(es),
            out@.len() == i,
            forall|k: int|
                0 <= k < i ==> spec_decode_memory_item(#[trigger] es[k]) is Some && out@[k]@
                    == spec_decode_memory_item(es[k])->0,
        decreases n - i,
    {
        proof {
            assert(es[i as int] == json_model(elems@[i as int]));
        }
        match decode_memory_item(&elems[i]) {
            Some(v) => {
                out.push(v);
            },
            None => {
                return None;
            },
        }
        i = i + 1;
    }
    proof {
        assert(Seq::new(es.len(), |k: int| spec_decode_memory_item(es[k])->0) =~= vals_view(
            out@,
        ));
    }
    Some(out)
}

/// Reads back what `spec_encode_search_request` writes.
pub open spec fn spec_decode_search_request(j: JsonModel) -> Option<SearchRequestModel> {
    if !(j is Obj) {
        None
    } else {
        let ms = j->Obj_0;
        let fact_type = match spec_obj_get(ms, "fact_type"@) {
            Some(x) => spec_decode_strs(x),
            None => None,
        };
        if spec_req_str(spec_obj_get(ms, "query"@)) is Some && fact_type is Some
            && spec_req_i32(spec_obj_get(ms, "thinking_budget"@)) is Some && spec_req_i32(
            spec_obj_get(ms, "max_tokens"@),
        ) is Some && spec_req_bool(spec_obj_get(ms, "trace"@)) is Some {
            Some(
                SearchRequestModel {
                    query: spec_req_str(spec_obj_get(ms, "query"@))->0,
                    fact_type: fact_type->0,
                    thinking_budget: spec_req_i32(spec_obj_get(ms, "thinking_budget"@))->0,
                    max_tokens: spec_req_i32(spec_obj_get(ms, "max_tokens"@))->0,
                    trace: spec_req_bool(spec_obj_get(ms, "trace"@))->0,
                },
            )
        } else {
            None
        }
    }
}

pub fn decode_search_request(j: &Json) -> (r: Option<SearchRequest>)
    ensures
        match r {
            Some(v) => spec_decode_search_request(j@) == Some(v@),
            None => spec_decode_search_request(j@) is None,
        },
{
    match j {
        Json::Obj(_) => {},
        _ => {
            return None;
        },
    }
    let query = match field_req_str(j, &String::from_str("query")) {
        Some(s) => s,
        None => {
            return None;
        },
    };
    let fact_type = match j.get(&String::from_str("fact_type")) {
        Some(x) => match decode_strs(x) {
            Some(v) => v,
            None => {
                return None;
            },
        },
        None => {
            return None;
        },
    };
    let thinking_budget = match field_req_i32(j, &String::from_str("thinking_budget")) {
        Some(v) => v,
        None => {
            return None;
        },
    };
    let max_tokens = match field_req_i32(j, &String::from_str("max_tokens")) {
        Some(v) => v,
        None => {
            return None;
        },
    };
    let trace = match field_req_bool(j, &String::from_str("trace")) {
        Some(b) => b,
        None => {
            return None;
        },
    };
    Some(SearchRequest { query, fact_type, thinking_budget, max_tokens, trace })
}

/// Reads back what `spec_encode_think_request` writes.
pub open spec fn spec_decode_think_request(j: JsonModel) -> Option<ThinkRequestModel> {
    if !(j is Obj) {
        None
    } else {
        let ms = j->Obj_0;
        if spec_req_str(spec_obj_get(ms, "query"@)) is Some && spec_req_i32(
            spec_obj_get(ms, "thinking_budget"@),
        ) is Some && spec_opt_str(spec_obj_get(ms, "context"@)) is Some {
            Some(
                ThinkRequestModel {
                    query: spec_req_str(spec_obj_get(ms, "query"@))->0,
                    thinking_budget: spec_req_i32(spec_obj_get(ms, "thinking_budget"@))->0,
                    context: spec_opt_str(spec_obj_get(ms, "context"@))->0,
                },
            )
        } else {
            None
        }
    }
}

pub fn decode_think_request(j: &Json) -> (r: Option<ThinkRequest>)
    ensures
        match r {
            Some(v) => spec_decode_think_request(j@) == Some(v@),
            None => spec_decode_think_request(j@) is None,
        },
{
    match j {
        Json::Obj(_) => {},
        _ => {
            return None;
        },
    }
    let query = match field_req_str(j, &String::from_str("query")) {
        Some(s) => s,
        None => {
            return None;
        },
    };
    let thinking_budget = match field_req_i32(j, &String::from_str("thinking_budget")) {
        Some(v) => v,
        None => {
            return None;
        },
    };
    let context = match field_opt_str(j, &String::from_str("context")) {
        Some(o) => o,
        None => {
            return None;
        },
    };
    Some(ThinkRequest { query, thinking_budget, context })
}

/// Reads back what `spec_encode_batch_memory_request` writes.
pub open spec fn spec_decode_batch_memory_request(j: JsonModel) -> Option<
    BatchMemoryRequestModel,
> {
    if !(j is Obj) {
        None
    } else {
        let ms = j->Obj_0;
        let items = match spec_obj_get(ms, "items"@) {
            Some(x) => spec_decode_memory_items(x),
            None => None,
        };
        if items is Some && spec_opt_str(spec_obj_get(ms, "document_id"@)) is Some {
            Some(
                BatchMemoryRequestModel {
                    items: items->0,
                    document_id: spec_opt_str(spec_obj_get(ms, "document_id"@))->0,
                },
            )
        } else {
            None
        }
    }
}

pub fn decode_batch_memory_request(j: &Json) -> (r: Option<BatchMemoryRequest>)
    ensures
        match r {
            Some(v) => spec_decode_batch_memory_request(j@) == Some(v@),
            None => spec_decode_batch_memory_request(j@) is None,
        },
{
    match j {
        Json::Obj(_) => {},
        _ => {
            return None;
        },
    }
    let items = match j.get(&String::from_str("items")) {
        Some(x) => match decode_memory_items(x) {
            Some(v) => v,
            None => {
                return None;
            },
        },
        None => {
            return None;
        },
    };
    let document_id = match field_opt_str(j, &String::from_str("document_id")) {
        Some(o) => o,
        None => {
            return None;
        },
    };
    Some(BatchMemoryRequest { items, document_id })
}

/// Reads back what `spec_encode_update_personality` writes.
pub open spec fn spec_decode_update_personality(j: JsonModel) -> Option<
    UpdatePersonalityRequestModel,
> {
    if !(j is Obj) {
        None
    } else {
        let ms = j->Obj_0;
        let personality = match spec_obj_get(ms, "personality"@) {
            Some(x) => spec_decode_personality(x),
            None => None,
        };
        match personality {
            Some(p) => Some(UpdatePersonalityRequestModel { personality: p }),
            None => None,
        }
    }
}

pub fn decode_update_personality(j: &Json) -> (r: Option<UpdatePersonalityRequest>)
    ensures
        match r {
            Some(v) => spec_decode_update_personality(j@) == Some(v@),
            None => spec_decode_update_personality(j@) is None,
        },
{
    match j {
        Json::Obj(_) => {},
        _ => {
            return None;
        },
    }
    let personality = match j.get(&String::from_str("personality")) {
        Some(x) => match decode_personality(x) {
            Some(p) => p,
            None => {
                return None;
            },
        },
        None => {
            return None;
        },
    };
    Some(UpdatePersonalityRequest { personality })
}

/// Reads back what `spec_encode_add_background` writes.
pub open spec fn spec_decode_add_background(j: JsonModel) -> Option<AddBackgroundRequestModel> {
    if !(j is Obj) {
        None
    } else {
        let ms = j->Obj_0;
        if spec_req_str(spec_obj_get(ms, "content"@)) is Some && spec_req_bool(
            spec_obj_get(ms, "update_personality"@),
        ) is Some {
            Some(
                AddBackgroundRequestModel {
                    content: spec_req_str(spec_obj_get(ms, "content"@))->0,
                    update_personality: spec_req_bool(spec_obj_get(ms, "update_personality"@))->0,
                },
            )
        } else {
            None
        }
    }
}

pub fn decode_add_background(j: &Json) -> (r: Option<AddBackgroundRequest>)
    ensures
        match r {
            Some(v) => spec_decode_add_background(j@) == Some(v@),
            None => spec_decode_add_background(j@) is None,
        },
{
    match j {
        Json::Obj(_) => {},
        _ => {
            return None;
        },
    }
    let content = match field_req_str(j, &String::from_str("content")) {
        Some(s) => s,
        None => {
            return None;
        },
    };
    let update_personality = match field_req_bool(j, &String::from_str("update_personality")) {
        Some(b) => b,
        None => {
            return None;
        },
    };
    Some(AddBackgroundRequest { content, update_personality })
}

} // verus!

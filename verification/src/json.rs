//! The JSON document tree that requests are rendered from and responses are
//! decoded out of.
//!
//! A number is kept as its decimal text exactly as it stood on the wire, so
//! that no value is rounded or truncated by the client; callers that need a
//! machine number convert at the edge.

use vstd::prelude::*;

verus! {

broadcast use vstd::std_specs::vec::group_vec_axioms;

/// Mathematical model of a JSON document.
pub enum JsonModel {
    Null,
    Bool(bool),
    /// The number's decimal text, e.g. `-12.5e3`.
    Num(Seq<char>),
    Str(Seq<char>),
    Arr(Seq<JsonModel>),
    /// Members in document order.
    Obj(Seq<(Seq<char>, JsonModel)>),
}

/// One member of a JSON object.
#[derive(Debug, PartialEq)]
pub struct Member {
    pub key: String,
    pub value: Json,
}

/// A JSON document.
#[derive(Debug, PartialEq)]
pub enum Json {
    Null,
    Bool(bool),
    /// The number's decimal text, e.g. `-12.5e3`.
    Num(String),
    Str(String),
    Arr(Vec<Json>),
    /// Members in document order.
    Obj(Vec<Member>),
}

pub open spec fn json_model(j: Json) -> JsonModel
    decreases j,
{
    match j {
        Json::Null => JsonModel::Null,
        Json::Bool(b) => JsonModel::Bool(b),
        Json::Num(t) => JsonModel::Num(t@),
        Json::Str(t) => JsonModel::Str(t@),
        Json::Arr(elems) => JsonModel::Arr(elem_models(elems@)),
        Json::Obj(members) => JsonModel::Obj(member_models(members@)),
    }
}

pub open spec fn elem_models(s: Seq<Json>) -> Seq<JsonModel>
    decreases s,
{
    if s.len() == 0 {
        Seq::empty()
    } else {
        seq![json_model(s[0])] + elem_models(s.drop_first())
    }
}

pub open spec fn member_models(s: Seq<Member>) -> Seq<(Seq<char>, JsonModel)>
    decreases s,
{
    if s.len() == 0 {
        Seq::empty()
    } else {
        seq![(s[0].key@, json_model(s[0].value))] + member_models(s.drop_first())
    }
}

impl View for Json {
    type V = JsonModel;

    open spec fn view(&self) -> JsonModel {
        json_model(*self)
    }
}

pub broadcast proof fn lemma_elem_models_len(s: Seq<Json>)
    ensures
        (#[trigger] elem_models(s)).len() == s.len(),
        forall|i: int| 0 <= i < s.len() ==> elem_models(s)[i] == json_model(s[i]),
    decreases s.len(),
{
    if s.len() > 0 {
        lemma_elem_models_len(s.drop_first());
    }
}

pub broadcast proof fn lemma_member_models_len(s: Seq<Member>)
    ensures
        (#[trigger] member_models(s)).len() == s.len(),
        forall|i: int|
            0 <= i < s.len() ==> member_models(s)[i] == (s[i].key@, json_model(s[i].value)),
    decreases s.len(),
{
    if s.len() > 0 {
        lemma_member_models_len(s.drop_first());
    }
}

pub proof fn lemma_elem_models_push(s: Seq<Json>, x: Json)
    ensures
        elem_models(s.push(x)) == elem_models(s) + seq![json_model(x)],
    decreases s.len(),
{
    if s.len() == 0 {
        assert(s.push(x).drop_first() =~= Seq::<Json>::empty());
        assert(elem_models(Seq::<Json>::empty()) =~= Seq::<JsonModel>::empty());
        assert(elem_models(s.push(x)) =~= elem_models(s) + seq![json_model(x)]);
    } else {
        assert(s.push(x).drop_first() =~= s.drop_first().push(x));
        lemma_elem_models_push(s.drop_first(), x);
        assert(elem_models(s.push(x)) =~= elem_models(s) + seq![json_model(x)]);
    }
}

pub proof fn lemma_member_models_push(s: Seq<Member>, m: Member)
    ensures
        member_models(s.push(m)) == member_models(s) + seq![(m.key@, json_model(m.value))],
    decreases s.len(),
{
    if s.len() == 0 {
        assert(s.push(m).drop_first() =~= Seq::<Member>::empty());
        assert(member_models(Seq::<Member>::empty()) =~= Seq::<(Seq<char>, JsonModel)>::empty());
        assert(member_models(s.push(m)) =~= member_models(s) + seq![(m.key@, json_model(
            m.value,
        ))]);
    } else {
        assert(s.push(m).drop_first() =~= s.drop_first().push(m));
        lemma_member_models_push(s.drop_first(), m);
        assert(member_models(s.push(m)) =~= member_models(s) + seq![(m.key@, json_model(
            m.value,
        ))]);
    }
}

/// The value under `key`, taking the first member with that key;
/// `None` when no member has it.
pub open spec fn spec_obj_get(members: Seq<(Seq<char>, JsonModel)>, key: Seq<char>) -> Option<
    JsonModel,
>
    decreases members.len(),
{
    if members.len() == 0 {
        None
    } else if members[0].0 == key {
        Some(members[0].1)
    } else {
        spec_obj_get(members.drop_first(), key)
    }
}

proof fn lemma_obj_get_skip(members: Seq<(Seq<char>, JsonModel)>, key: Seq<char>, i: int)
    requires
        0 <= i < members.len(),
        members[i].0 != key,
        spec_obj_get(members, key) == spec_obj_get(members.skip(i), key),
    ensures
        spec_obj_get(members, key) == spec_obj_get(members.skip(i + 1), key),
{
    assert(members.skip(i).drop_first() =~= members.skip(i + 1));
}

impl Json {
    /// Looks `key` up among this object's members; `None` when the document
    /// is not an object or no member has the key.
    pub fn get<'a>(&'a self, key: &String) -> (r: Option<&'a Json>)
        ensures
            match *self {
                Json::Obj(_) => match r {
                    Some(v) => spec_obj_get(self@->Obj_0, key@) == Some(v@),
                    None => spec_obj_get(self@->Obj_0, key@) is None,
                },
                _ => r is None,
            },
    {
        broadcast use lemma_member_models_len;

        match self {
            Json::Obj(members) => {
                let ghost ms = member_models(members@);
                let n = members.len();
                proof {
                    lemma_member_models_len(members@);
                    assert(ms.skip(0) =~= ms);
                }
                let mut i: usize = 0;
                while i < n
                    invariant
                        n == members@.len(),
                        i <= n,
                        *self == Json::Obj(*members),
                        ms == member_models(members@),
                        ms.len() == n,
                        forall|k: int|
                            0 <= k < n ==> ms[k] == (members@[k].key@, json_model(
                                members@[k].value,
                            )),
                        spec_obj_get(ms, key@) == spec_obj_get(ms.skip(i as int), key@),
                    decreases n - i,
                {
                    proof {
                        assert(ms.skip(i as int)[0] == ms[i as int]);
                    }
                    if members[i].key == *key {
                        return Some(&members[i].value);
                    }
                    proof {
                        lemma_obj_get_skip(ms, key@, i as int);
                    }
                    i = i + 1;
                }
                None
            },
            _ => None,
        }
    }
}

} // verus!

//! An owned JSON value tree, its mathematical model, and the parser.
//!
//! Incoming wire messages are JSON text; the one call into serde_json is the
//! parse itself, kept behind a trusted wrapper.  Everything the library does
//! with a parsed value happens on `JsonVal`, a tree the library owns, whose
//! model is the ghost tree `JsonRep`.

use vstd::prelude::*;

verus! {

broadcast use vstd::std_specs::vec::group_vec_axioms, vstd::seq::group_seq_axioms;

/// Mathematical model of a JSON value: only spec types inside.
#[verifier::ext_equal]
pub ghost enum JsonRep {
    Null,
    Bool(bool),
    Int(int),
    /// A number with no exact 64-bit integer form, kept as its decimal text.
    Float(Seq<char>),
    Text(Seq<char>),
    List(Seq<JsonRep>),
    Object(Seq<(Seq<char>, JsonRep)>),
}

/// One key/value member of a JSON object.
#[derive(Debug)]
pub struct JsonField {
    pub key: String,
    pub val: JsonVal,
}

/// An owned JSON value.
#[derive(Debug)]
pub enum JsonVal {
    Null,
    Bool(bool),
    Int(i64),
    /// A number with no exact 64-bit integer form, kept as its decimal text.
    Float(String),
    Text(String),
    List(Vec<JsonVal>),
    Object(Vec<JsonField>),
}

impl JsonVal {
    /// The model of this value.
    pub open spec fn rep(self) -> JsonRep
        decreases self, 1int,
    {
        match self {
            JsonVal::Null => JsonRep::Null,
            JsonVal::Bool(b) => JsonRep::Bool(b),
            JsonVal::Int(i) => JsonRep::Int(i as int),
            JsonVal::Float(s) => JsonRep::Float(s@),
            JsonVal::Text(s) => JsonRep::Text(s@),
            JsonVal::List(items) => JsonRep::List(reps_of(items@)),
            JsonVal::Object(fields) => JsonRep::Object(field_reps_of(fields@)),
        }
    }
}

/// The models of a sequence of values, in order.
pub open spec fn reps_of(s: Seq<JsonVal>) -> Seq<JsonRep>
    decreases s, 0int,
{
    if s.len() == 0 {
        Seq::empty()
    } else {
        reps_of(s.drop_last()).push(s.last().rep())
    }
}

/// The models of a sequence of object members, in order.
pub open spec fn field_reps_of(s: Seq<JsonField>) -> Seq<(Seq<char>, JsonRep)>
    decreases s, 0int,
{
    if s.len() == 0 {
        Seq::empty()
    } else {
        field_reps_of(s.drop_last()).push((s.last().key@, s.last().val.rep()))
    }
}

pub proof fn lemma_reps_of(s: Seq<JsonVal>)
    ensures
        reps_of(s).len() == s.len(),
        forall|i: int| 0 <= i < s.len() ==> reps_of(s)[i] == s[i].rep(),
    decreases s.len(),
{
    if s.len() > 0 {
        lemma_reps_of(s.drop_last());
    }
}

pub proof fn lemma_field_reps_of(s: Seq<JsonField>)
    ensures
        field_reps_of(s).len() == s.len(),
        forall|i: int| 0 <= i < s.len() ==> field_reps_of(s)[i] == (s[i].key@, s[i].val.rep()),
    decreases s.len(),
{
    if s.len() > 0 {
        lemma_field_reps_of(s.drop_last());
    }
}

/// The item of a JSON list at position `i`, if the value is a list and has one.
pub open spec fn list_item(r: JsonRep, i: int) -> Option<JsonRep> {
    match r {
        JsonRep::List(items) => if 0 <= i < items.len() {
            Some(items[i])
        } else {
            None
        },
        _ => None,
    }
}

/// The value under `key` in a JSON object, if the value is an object with
/// such a member; the first member wins when a key repeats.
pub open spec fn obj_field(r: JsonRep, key: Seq<char>) -> Option<JsonRep> {
    match r {
        JsonRep::Object(fields) => obj_lookup(fields, key),
        _ => None,
    }
}

pub open spec fn obj_lookup(fields: Seq<(Seq<char>, JsonRep)>, key: Seq<char>) -> Option<JsonRep>
    decreases fields.len(),
{
    if fields.len() == 0 {
        None
    } else if fields[0].0 == key {
        Some(fields[0].1)
    } else {
        obj_lookup(fields.drop_first(), key)
    }
}

/// The text inside a JSON string value.
pub open spec fn text_of(r: JsonRep) -> Option<Seq<char>> {
    match r {
        JsonRep::Text(s) => Some(s),
        _ => None,
    }
}

/// The integer inside a JSON integer value.
pub open spec fn int_of(r: JsonRep) -> Option<int> {
    match r {
        JsonRep::Int(i) => Some(i),
        _ => None,
    }
}

proof fn lemma_obj_lookup_hit(fields: Seq<(Seq<char>, JsonRep)>, key: Seq<char>, k: int)
    requires
        0 <= k < fields.len(),
        fields[k].0 == key,
        forall|j: int| 0 <= j < k ==> fields[j].0 != key,
    ensures
        obj_lookup(fields, key) == Some(fields[k].1),
    decreases k,
{
    if k > 0 {
        lemma_obj_lookup_hit(fields.drop_first(), key, k - 1);
    }
}

proof fn lemma_obj_lookup_miss(fields: Seq<(Seq<char>, JsonRep)>, key: Seq<char>)
    requires
        forall|j: int| 0 <= j < fields.len() ==> fields[j].0 != key,
    ensures
        obj_lookup(fields, key) is None,
    decreases fields.len(),
{
    if fields.len() > 0 {
        lemma_obj_lookup_miss(fields.drop_first(), key);
    }
}

impl JsonVal {
    /// The item at position `i`, when this value is a list long enough.
    pub fn get_index(&self, i: usize) -> (r: Option<&JsonVal>)
        ensures
            match r {
                Some(v) => list_item(self.rep(), i as int) == Some(v.rep()),
                None => list_item(self.rep(), i as int) is None,
            },
    {
        match self {
            JsonVal::List(items) => {
                proof {
                    lemma_reps_of(items@);
                }
                if i < items.len() {
                    Some(&items[i])
                } else {
                    None
                }
            },
            _ => None,
        }
    }

    /// The value under `key`, when this value is an object holding it.
    pub fn get_key(&self, key: &String) -> (r: Option<&JsonVal>)
        ensures
            match r {
                Some(v) => obj_field(self.rep(), key@) == Some(v.rep()),
                None => obj_field(self.rep(), key@) is None,
            },
    {
        match self {
            JsonVal::Object(fields) => {
                let ghost pairs = field_reps_of(fields@);
                proof {
                    lemma_field_reps_of(fields@);
                }
                let mut idx: usize = 0;
                while idx < fields.len()
                    invariant
                        *self == JsonVal::Object(*fields),
                        idx <= fields@.len(),
                        pairs == field_reps_of(fields@),
                        pairs.len() == fields@.len(),
                        forall|j: int| 0 <= j < fields@.len() ==> pairs[j] == (fields@[j].key@, fields@[j].val.rep()),
                        forall|j: int| 0 <= j < idx ==> pairs[j].0 != key@,
                    decreases fields@.len() - idx,
                {
                    if fields[idx].key == *key {
                        proof {
                            lemma_obj_lookup_hit(pairs, key@, idx as int);
                        }
                        return Some(&fields[idx].val);
                    }
                    idx += 1;
                }
                proof {
                    lemma_obj_lookup_miss(pairs, key@);
                }
                None
            },
            _ => None,
        }
    }

    /// The text inside, when this value is a string.
    pub fn as_text(&self) -> (r: Option<&String>)
        ensures
            match r {
                Some(s) => text_of(self.rep()) == Some(s@),
                None => text_of(self.rep()) is None,
            },
    {
        match self {
            JsonVal::Text(s) => Some(s),
            _ => None,
        }
    }

    /// The integer inside, when this value is an integer.
    pub fn as_int(&self) -> (r: Option<i64>)
        ensures
            match r {
                Some(i) => int_of(self.rep()) == Some(i as int),
                None => int_of(self.rep()) is None,
            },
    {
        match self {
            JsonVal::Int(i) => Some(*i),
            _ => None,
        }
    }

    /// A structurally equal copy of this value.
    pub fn deep_copy(&self) -> (r: JsonVal)
        ensures
            r.rep() == self.rep(),
        decreases self,
    {
        match self {
            JsonVal::Null => JsonVal::Null,
            JsonVal::Bool(b) => JsonVal::Bool(*b),
            JsonVal::Int(i) => JsonVal::Int(*i),
            JsonVal::Float(s) => JsonVal::Float(s.clone()),
            JsonVal::Text(s) => JsonVal::Text(s.clone()),
            JsonVal::List(items) => {
                let mut out: Vec<JsonVal> = Vec::new();
                let mut idx: usize = 0;
                while idx < items.len()
                    invariant
                        *self == JsonVal::List(*items),
                        idx <= items@.len(),
                        out@.len() == idx as nat,
                        forall|j: int| 0 <= j < idx ==> out@[j].rep() == items@[j].rep(),
                    decreases items@.len() - idx,
                {
                    proof {
                        assert(decreases_to!(*self => items@[idx as int])) by {
                            assert(decreases_to!(*self => (*self)->List_0));
                            assert((*self)->List_0 == *items);
                            assert(decreases_to!(*items => items@));
                            assert(decreases_to!(items@ => items@[idx as int]));
                        }
                    }
                    let copied = items[idx].deep_copy();
                    out.push(copied);
                    idx += 1;
                }
                let result = JsonVal::List(out);
                proof {
                    lemma_reps_of(out@);
                    lemma_reps_of(items@);
                    assert(reps_of(out@) =~= reps_of(items@));
                }
                result
            },
            JsonVal::Object(fields) => {
                let mut out: Vec<JsonField> = Vec::new();
                let mut idx: usize = 0;
                while idx < fields.len()
                    invariant
                        *self == JsonVal::Object(*fields),
                        idx <= fields@.len(),
                        out@.len() == idx as nat,
                        forall|j: int| 0 <= j < idx ==> out@[j].key@ == fields@[j].key@
                            && out@[j].val.rep() == fields@[j].val.rep(),
                    decreases fields@.len() - idx,
                {
                    proof {
                        assert(decreases_to!(*self => fields@[idx as int].val)) by {
                            assert(decreases_to!(*self => (*self)->Object_0));
                            assert((*self)->Object_0 == *fields);
                            assert(decreases_to!(*fields => fields@));
                            assert(decreases_to!(fields@ => fields@[idx as int]));
                            assert(decreases_to!(fields@[idx as int] => fields@[idx as int].val));
                        }
                    }
                    let copied = fields[idx].val.deep_copy();
                    out.push(JsonField { key: fields[idx].key.clone(), val: copied });
                    idx += 1;
                }
                let result = JsonVal::Object(out);
                proof {
                    lemma_field_reps_of(out@);
                    lemma_field_reps_of(fields@);
                    assert(field_reps_of(out@) =~= field_reps_of(fields@));
                }
                result
            },
        }
    }

    /// A JSON object with no members: the fixed success answer of most commands.
    pub fn empty_object() -> (r: JsonVal)
        ensures
            r.rep() == JsonRep::Object(Seq::<(Seq<char>, JsonRep)>::empty()),
    {
        let r = JsonVal::Object(Vec::new());
        proof {
            assert(field_reps_of(Seq::<JsonField>::empty()) =~= Seq::<(Seq<char>, JsonRep)>::empty());
        }
        r
    }

    /// A JSON string holding the given text.
    pub fn make_text(s: &str) -> (r: JsonVal)
        ensures
            r.rep() == JsonRep::Text(s@),
    {
        JsonVal::Text(s.to_owned())
    }
}

#[verifier::external_type_specification]
#[verifier::external_body]
pub struct ExSerdeValue(serde_json::Value);

/// What the JSON parser answers on a given text: `None` where the text is not
/// well-formed JSON, otherwise the model of the parsed value.
pub uninterp spec fn json_parse(s: Seq<char>) -> Option<JsonRep>;

/// Relies on serde_json::from_str::<serde_json::Value>: whether and how a
/// text parses as JSON is a function of the text alone.
#[verifier::external_body]
pub(crate) fn parse_json(s: &str) -> (r: Option<JsonVal>)
    ensures
        match r {
            Some(v) => json_parse(s@) == Some(v.rep()),
            None => json_parse(s@) is None,
        },
{
    match serde_json::from_str::<serde_json::Value>(s) {
        Ok(v) => Some(value_to_json(v)),
        Err(_) => None,
    }
}

/// Turns a serde_json tree into the library's own value type, one variant per
/// arm, moving fields; integers that fit an i64 stay integers, other numbers
/// keep their decimal text.  Used only from `parse_json`.  Relies on
/// serde_json::value::Value and serde_json::Number::as_i64.
#[verifier::external_body]
fn value_to_json(v: serde_json::Value) -> (r: JsonVal) {
    match v {
        serde_json::Value::Null => JsonVal::Null,
        serde_json::Value::Bool(b) => JsonVal::Bool(b),
        serde_json::Value::Number(n) => match n.as_i64() {
            Some(i) => JsonVal::Int(i),
            None => JsonVal::Float(n.to_string()),
        },
        serde_json::Value::String(s) => JsonVal::Text(s),
        serde_json::Value::Array(items) => JsonVal::List(
            items.into_iter().map(value_to_json).collect(),
        ),
        serde_json::Value::Object(map) => JsonVal::Object(
            map.into_iter().map(|(k, v)| JsonField { key: k, val: value_to_json(v) }).collect(),
        ),
    }
}

} // verus!

//! A JSON value held as plain data, and the parse of JSON text into it.
use vstd::prelude::*;

verus! {

broadcast use vstd::std_specs::vec::group_vec_axioms;

/// A JSON value. Numbers are kept as the text that `serde_json` prints for
/// them; an object keeps its members as key/value pairs, each key once.
#[derive(Debug)]
pub enum JsonValue {
    Null,
    Bool(bool),
    Number(String),
    Str(String),
    Array(Vec<JsonValue>),
    Object(Vec<(String, JsonValue)>),
}

/// The mathematical content of a `JsonValue`.
pub enum JsonModel {
    Null,
    Bool(bool),
    Number(Seq<char>),
    Str(Seq<char>),
    Array(Seq<JsonModel>),
    Object(Seq<(Seq<char>, JsonModel)>),
}

/// The model of a value.
pub open spec fn json_view(v: JsonValue) -> JsonModel
    decreases v,
{
    match v {
        JsonValue::Null => JsonModel::Null,
        JsonValue::Bool(b) => JsonModel::Bool(b),
        JsonValue::Number(n) => JsonModel::Number(n@),
        JsonValue::Str(s) => JsonModel::Str(s@),
        JsonValue::Array(items) => JsonModel::Array(json_views(items@)),
        JsonValue::Object(pairs) => JsonModel::Object(json_pair_views(pairs@)),
    }
}

/// The models of a sequence of values.
pub open spec fn json_views(s: Seq<JsonValue>) -> Seq<JsonModel>
    decreases s,
{
    if s.len() == 0 {
        Seq::empty()
    } else {
        json_views(s.drop_last()).push(json_view(s.last()))
    }
}

/// The models of a sequence of object members.
pub open spec fn json_pair_views(s: Seq<(String, JsonValue)>) -> Seq<(Seq<char>, JsonModel)>
    decreases s,
{
    if s.len() == 0 {
        Seq::empty()
    } else {
        json_pair_views(s.drop_last()).push((s.last().0@, json_view(s.last().1)))
    }
}

impl View for JsonValue {
    type V = JsonModel;

    open spec fn view(&self) -> JsonModel {
        json_view(*self)
    }
}

/// The model of an optional borrowed value.
pub open spec fn opt_ref_json_view(v: Option<&JsonValue>) -> Option<JsonModel> {
    match v {
        Some(x) => Some(json_view(*x)),
        None => None,
    }
}

/// The model of an optional value.
pub open spec fn opt_json_view(v: Option<JsonValue>) -> Option<JsonModel> {
    match v {
        Some(x) => Some(json_view(x)),
        None => None,
    }
}

pub proof fn lemma_json_views_len(s: Seq<JsonValue>)
    ensures
        json_views(s).len() == s.len(),
        forall|i: int| 0 <= i < s.len() ==> #[trigger] json_views(s)[i] == json_view(s[i]),
    decreases s.len(),
{
    if s.len() > 0 {
        lemma_json_views_len(s.drop_last());
    }
}

pub proof fn lemma_json_pair_views_len(s: Seq<(String, JsonValue)>)
    ensures
        json_pair_views(s).len() == s.len(),
        forall|i: int|
            0 <= i < s.len() ==> #[trigger] json_pair_views(s)[i] == (s[i].0@, json_view(s[i].1)),
    decreases s.len(),
{
    if s.len() > 0 {
        lemma_json_pair_views_len(s.drop_last());
    }
}

#[verifier::external_type_specification]
#[verifier::external_body]
pub struct ExSerdeJsonValue(serde_json::Value);

/// What `serde_json::from_str::<serde_json::Value>` gives for a text, by its
/// model (`None` where the text is not one JSON value).
pub uninterp spec fn json_parse(text: Seq<char>) -> Option<JsonModel>;

/// Converts a `serde_json::Value` into a `JsonValue`, variant by variant; a number
/// becomes the text of its `Display`, an object its members in map order.
#[verifier::external_body]
fn json_from_serde(v: serde_json::Value) -> JsonValue {
    match v {
        serde_json::Value::Null => JsonValue::Null,
        serde_json::Value::Bool(b) => JsonValue::Bool(b),
        serde_json::Value::Number(n) => JsonValue::Number(n.to_string()),
        serde_json::Value::String(s) => JsonValue::Str(s),
        serde_json::Value::Array(a) => JsonValue::Array(a.into_iter().map(json_from_serde).collect()),
        serde_json::Value::Object(m) => JsonValue::Object(
            m.into_iter().map(|(k, x)| (k, json_from_serde(x))).collect(),
        ),
    }
}

/// Parses JSON text with `serde_json::from_str::<serde_json::Value>`; the
/// model of the result is named `json_parse` of the text.
#[verifier::external_body]
pub(crate) fn parse_json(text: &str) -> (r: Option<JsonValue>)
    ensures
        opt_json_view(r) == json_parse(text@),
{
    serde_json::from_str::<serde_json::Value>(text).ok().map(json_from_serde)
}

/// The value of the first member of `pairs` whose key is `key`.
pub open spec fn pairs_lookup(pairs: Seq<(Seq<char>, JsonModel)>, key: Seq<char>) -> Option<JsonModel>
    decreases pairs.len(),
{
    if pairs.len() == 0 {
        None
    } else if pairs[0].0 == key {
        Some(pairs[0].1)
    } else {
        pairs_lookup(pairs.drop_first(), key)
    }
}

/// Member `key` of `v` when `v` is an object.
pub open spec fn json_member(v: Option<JsonModel>, key: Seq<char>) -> Option<JsonModel> {
    match v {
        Some(JsonModel::Object(pairs)) => pairs_lookup(pairs, key),
        _ => None,
    }
}

/// The text of `v` when `v` is a string.
pub open spec fn json_text(v: Option<JsonModel>) -> Option<Seq<char>> {
    match v {
        Some(JsonModel::Str(s)) => Some(s),
        _ => None,
    }
}

/// The first element of `v` when `v` is a non-empty array.
pub open spec fn json_first_element(v: Option<JsonModel>) -> Option<JsonModel> {
    match v {
        Some(JsonModel::Array(items)) => if items.len() > 0 {
            Some(items[0])
        } else {
            None
        },
        _ => None,
    }
}

/// The strings of `v` when `v` is an array whose elements are all strings.
pub open spec fn json_string_list(v: Option<JsonModel>) -> Option<Seq<Seq<char>>> {
    match v {
        Some(JsonModel::Array(items)) => if forall|i: int|
            0 <= i < items.len() ==> (#[trigger] items[i]) is Str {
            Some(items.map_values(|x: JsonModel| x->Str_0))
        } else {
            None
        },
        _ => None,
    }
}

impl Clone for JsonValue {
    fn clone(&self) -> (r: Self)
        ensures
            r@ == self@,
        decreases self,
    {
        match self {
            JsonValue::Null => JsonValue::Null,
            JsonValue::Bool(b) => JsonValue::Bool(*b),
            JsonValue::Number(n) => JsonValue::Number(n.clone()),
            JsonValue::Str(s) => JsonValue::Str(s.clone()),
            JsonValue::Array(items) => {
                let mut out: Vec<JsonValue> = Vec::new();
                let mut i: usize = 0;
                while i < items.len()
                    invariant
                        i <= items@.len(),
                        *self == JsonValue::Array(*items),
                        out@.len() == i,
                        forall|j: int| 0 <= j < i ==> json_view(#[trigger] out@[j]) == json_view(items@[j]),
                    decreases items.len() - i,
                {
                    proof {
                        assert(decreases_to!(*self => (*self)->Array_0));
                        assert(decreases_to!(*items => items@));
                        assert(decreases_to!(items@ => items@[i as int]));
                        assert(decreases_to!(*self => items@[i as int]));
                    }
                    let x = items[i].clone();
                    out.push(x);
                    i = i + 1;
                }
                proof {
                    lemma_json_views_len(out@);
                    lemma_json_views_len(items@);
                    assert(json_views(out@) =~= json_views(items@));
                }
                JsonValue::Array(out)
            },
            JsonValue::Object(pairs) => {
                let mut out: Vec<(String, JsonValue)> = Vec::new();
                let mut i: usize = 0;
                while i < pairs.len()
                    invariant
                        i <= pairs@.len(),
                        *self == JsonValue::Object(*pairs),
                        out@.len() == i,
                        forall|j: int|
                            0 <= j < i ==> (#[trigger] out@[j]).0@ == pairs@[j].0@ && json_view(out@[j].1)
                                == json_view(pairs@[j].1),
                    decreases pairs.len() - i,
                {
                    proof {
                        assert(decreases_to!(*self => (*self)->Object_0));
                        assert(decreases_to!(*pairs => pairs@));
                        assert(decreases_to!(pairs@ => pairs@[i as int]));
                        assert(decreases_to!(pairs@[i as int] => pairs@[i as int].1));
                        assert(decreases_to!(*self => pairs@[i as int].1));
                    }
                    let k = pairs[i].0.clone();
                    let x = pairs[i].1.clone();
                    out.push((k, x));
                    i = i + 1;
                }
                proof {
                    lemma_json_pair_views_len(out@);
                    lemma_json_pair_views_len(pairs@);
                    assert(json_pair_views(out@) =~= json_pair_views(pairs@));
                }
                JsonValue::Object(out)
            },
        }
    }
}

impl JsonValue {
    /// Member `key` of an object value, `None` for a missing member or a
    /// value that is not an object.
    pub fn get(&self, key: &str) -> (r: Option<&JsonValue>)
        ensures
            opt_ref_json_view(r) == json_member(Some(self@), key@),
    {
        match self {
            JsonValue::Object(pairs) => {
                let ghost views = json_pair_views(pairs@);
                proof {
                    lemma_json_pair_views_len(pairs@);
                    assert(views.skip(0) =~= views);
                }
                let mut i: usize = 0;
                while i < pairs.len()
                    invariant
                        i <= pairs@.len(),
                        *self == JsonValue::Object(*pairs),
                        views == json_pair_views(pairs@),
                        views.len() == pairs@.len(),
                        forall|j: int|
                            0 <= j < pairs@.len() ==> #[trigger] views[j] == (
                                pairs@[j].0@,
                                json_view(pairs@[j].1),
                            ),
                        pairs_lookup(views, key@) == pairs_lookup(views.skip(i as int), key@),
                    decreases pairs.len() - i,
                {
                    assert(views.skip(i as int).drop_first() =~= views.skip(i as int + 1));
                    assert(views.skip(i as int)[0] == views[i as int]);
                    if crate::text::str_eq(pairs[i].0.as_str(), key) {
                        return Some(&pairs[i].1);
                    }
                    i = i + 1;
                }
                None
            },
            _ => None,
        }
    }

    /// The text of a string value.
    pub fn as_str(&self) -> (r: Option<&String>)
        ensures
            match r {
                Some(s) => json_text(Some(self@)) == Some(s@),
                None => json_text(Some(self@)) is None,
            },
    {
        match self {
            JsonValue::Str(s) => Some(s),
            _ => None,
        }
    }

    /// The first element of an array value, `None` for an empty array or a
    /// value that is not an array.
    pub fn first_element(&self) -> (r: Option<&JsonValue>)
        ensures
            opt_ref_json_view(r) == json_first_element(Some(self@)),
    {
        match self {
            JsonValue::Array(items) => {
                proof {
                    lemma_json_views_len(items@);
                }
                if items.len() > 0 {
                    Some(&items[0])
                } else {
                    None
                }
            },
            _ => None,
        }
    }

    /// The strings of an array value whose elements are all strings.
    pub fn string_list(&self) -> (r: Option<Vec<String>>)
        ensures
            match r {
                Some(v) => json_string_list(Some(self@)) == Some(v@.map_values(|s: String| s@)),
                None => json_string_list(Some(self@)) is None,
            },
    {
        match self {
            JsonValue::Array(items) => {
                let ghost views = json_views(items@);
                proof {
                    lemma_json_views_len(items@);
                }
                let mut out: Vec<String> = Vec::new();
                let mut i: usize = 0;
                while i < items.len()
                    invariant
                        i <= items@.len(),
                        *self == JsonValue::Array(*items),
                        views == json_views(items@),
                        views.len() == items@.len(),
                        forall|j: int| 0 <= j < items@.len() ==> #[trigger] views[j] == json_view(items@[j]),
                        out@.len() == i,
                        forall|j: int| 0 <= j < i ==> (#[trigger] views[j]) is Str,
                        forall|j: int| 0 <= j < i ==> out@[j]@ == (#[trigger] views[j])->Str_0,
                    decreases items.len() - i,
                {
                    match &items[i] {
                        JsonValue::Str(s) => {
                            assert(views[i as int] is Str);
                            out.push(s.clone());
                        },
                        _ => {
                            assert(!(views[i as int] is Str));
                            return None;
                        },
                    }
                    i = i + 1;
                }
                assert(out@.map_values(|s: String| s@) =~= views.map_values(
                    |x: JsonModel| x->Str_0,
                ));
                Some(out)
            },
            _ => None,
        }
    }
}

} // verus!

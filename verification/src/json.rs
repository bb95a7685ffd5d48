//! A JSON value model that the protocol logic reads and builds.
//!
//! Numbers are kept as their JSON text, so that no floating-point value
//! ever passes through the verified code.
use vstd::prelude::*;

verus! {

/// A JSON value, as the protocol logic sees it.
#[derive(Debug, PartialEq)]
pub enum JsonValue {
    Null,
    Bool(bool),
    /// The number's JSON text, such as `42` or `-32601`.
    Number(String),
    Str(String),
    Array(Vec<JsonValue>),
    /// Members in order; a key occurs at most once where the value came from a JSON parser.
    Object(Vec<(String, JsonValue)>),
}

/// The mathematical form of a JSON value.
pub enum Json {
    Null,
    Bool(bool),
    Number(Seq<char>),
    Str(Seq<char>),
    Array(Seq<Json>),
    Object(Seq<(Seq<char>, Json)>),
}

pub open spec fn json_view(v: JsonValue) -> Json
    decreases v,
{
    match v {
        JsonValue::Null => Json::Null,
        JsonValue::Bool(b) => Json::Bool(b),
        JsonValue::Number(n) => Json::Number(n@),
        JsonValue::Str(s) => Json::Str(s@),
        JsonValue::Array(items) => Json::Array(
            Seq::new(
                items@.len(),
                |i: int|
                    if 0 <= i < items@.len() {
                        json_view(items@[i])
                    } else {
                        Json::Null
                    },
            ),
        ),
        JsonValue::Object(fields) => Json::Object(
            Seq::new(
                fields@.len(),
                |i: int|
                    if 0 <= i < fields@.len() {
                        (fields@[i].0@, json_view(fields@[i].1))
                    } else {
                        (Seq::empty(), Json::Null)
                    },
            ),
        ),
    }
}

impl View for JsonValue {
    type V = Json;

    open spec fn view(&self) -> Json {
        json_view(*self)
    }
}

/// The value of the first member named `key`, if any.
pub open spec fn member(fields: Seq<(Seq<char>, Json)>, key: Seq<char>) -> Option<Json>
    decreases fields.len(),
{
    if fields.len() == 0 {
        None
    } else if fields[0].0 == key {
        Some(fields[0].1)
    } else {
        member(fields.drop_first(), key)
    }
}

/// The member named `key` is the value of the first member with that name.
pub proof fn member_at(fields: Seq<(Seq<char>, Json)>, key: Seq<char>, i: int)
    requires
        0 <= i < fields.len(),
        fields[i].0 == key,
        forall|j: int| 0 <= j < i ==> #[trigger] fields[j].0 != key,
    ensures
        member(fields, key) == Some(fields[i].1),
    decreases i,
{
    if i > 0 {
        let rest = fields.drop_first();
        assert forall|j: int| 0 <= j < i - 1 implies #[trigger] rest[j].0 != key by {
            assert(rest[j] == fields[j + 1]);
        }
        member_at(rest, key, i - 1);
    }
}

/// An object has no member named `key` where none of its members has that name.
pub proof fn member_missing(fields: Seq<(Seq<char>, Json)>, key: Seq<char>)
    requires
        forall|j: int| 0 <= j < fields.len() ==> #[trigger] fields[j].0 != key,
    ensures
        member(fields, key) is None,
    decreases fields.len(),
{
    if fields.len() > 0 {
        let rest = fields.drop_first();
        assert forall|j: int| 0 <= j < rest.len() implies #[trigger] rest[j].0 != key by {
            assert(rest[j] == fields[j + 1]);
        }
        member_missing(rest, key);
    }
}

impl Json {
    /// Indexing by a key: the member of an object, and nothing for any other value.
    pub open spec fn get(self, key: Seq<char>) -> Option<Json> {
        match self {
            Json::Object(fields) => member(fields, key),
            _ => None,
        }
    }

    /// The text of a string value.
    pub open spec fn as_str(self) -> Option<Seq<char>> {
        match self {
            Json::Str(s) => Some(s),
            _ => None,
        }
    }
}

/// The view of an optional value.
pub open spec fn opt_view(v: Option<&JsonValue>) -> Option<Json> {
    match v {
        Some(x) => Some(x@),
        None => None,
    }
}

/// An owned copy of a text.
pub fn text(s: &str) -> (r: String)
    ensures
        r@ == s@,
{
    s.to_owned()
}

/// The views of the members of an object.
pub open spec fn fields_view(fields: Seq<(String, JsonValue)>) -> Seq<(Seq<char>, Json)> {
    fields.map_values(|f: (String, JsonValue)| (f.0@, f.1@))
}

/// The views of the items of an array.
pub open spec fn items_view(items: Seq<JsonValue>) -> Seq<Json> {
    items.map_values(|x: JsonValue| x@)
}

impl JsonValue {
    /// A string value holding `s`.
    pub fn str_of(s: String) -> (r: JsonValue)
        ensures
            r@ == Json::Str(s@),
    {
        JsonValue::Str(s)
    }

    /// A number value with the given JSON text.
    pub fn number_of(n: String) -> (r: JsonValue)
        ensures
            r@ == Json::Number(n@),
    {
        JsonValue::Number(n)
    }

    /// An object with the given members, in order.
    pub fn object_of(fields: Vec<(String, JsonValue)>) -> (r: JsonValue)
        ensures
            r@ == Json::Object(fields_view(fields@)),
    {
        let r = JsonValue::Object(fields);
        assert(r@->Object_0 =~= fields_view(fields@));
        r
    }

    /// The object with no members, `{}`.
    pub fn empty_object() -> (r: JsonValue)
        ensures
            r@ == Json::Object(Seq::empty()),
    {
        let r = JsonValue::Object(Vec::new());
        assert(r@->Object_0 =~= Seq::<(Seq<char>, Json)>::empty());
        r
    }

    /// An array with the given items, in order.
    pub fn array_of(items: Vec<JsonValue>) -> (r: JsonValue)
        ensures
            r@ == Json::Array(items_view(items@)),
    {
        let r = JsonValue::Array(items);
        assert(r@->Array_0 =~= items_view(items@));
        r
    }

    /// A string value holding a copy of `s`.
    pub fn string(s: &str) -> (r: JsonValue)
        ensures
            r@ == Json::Str(s@),
    {
        JsonValue::Str(text(s))
    }

    /// The member named `key` of an object; `None` for a missing key or a value that is no object.
    pub fn get(&self, key: &str) -> (r: Option<&JsonValue>)
        ensures
            opt_view(r) == self@.get(key@),
    {
        match self {
            JsonValue::Object(fields) => {
                let key_text = text(key);
                let ghost fv = self@->Object_0;
                let n = fields.len();
                let mut i: usize = 0;
                assert(fv.subrange(0, n as int) =~= fv);
                while i < n
                    invariant
                        n == fields@.len(),
                        i <= n,
                        fv == Seq::new(
                            fields@.len(),
                            |j: int|
                                if 0 <= j < fields@.len() {
                                    (fields@[j].0@, json_view(fields@[j].1))
                                } else {
                                    (Seq::<char>::empty(), Json::Null)
                                },
                        ),
                        key_text@ == key@,
                        self@ == Json::Object(fv),
                        member(fv, key@) == member(fv.subrange(i as int, n as int), key@),
                    decreases n - i,
                {
                    proof {
                        assert(fv.subrange(i as int, n as int).drop_first() =~= fv.subrange(
                            i + 1,
                            n as int,
                        ));
                    }
                    if fields[i].0 == key_text {
                        assert(fv.subrange(i as int, n as int)[0] == fv[i as int]);
                        return Some(&fields[i].1);
                    }
                    i = i + 1;
                }
                None
            },
            _ => None,
        }
    }

    /// The text of a string value; `None` for any other value.
    pub fn as_str(&self) -> (r: Option<&str>)
        ensures
            match r {
                Some(s) => self@.as_str() == Some(s@),
                None => self@.as_str() is None,
            },
    {
        match self {
            JsonValue::Str(s) => Some(s.as_str()),
            _ => None,
        }
    }

    /// A copy of the whole value.
    pub fn deep_clone(&self) -> (r: JsonValue)
        ensures
            r@ == self@,
        decreases self,
    {
        match self {
            JsonValue::Null => JsonValue::Null,
            JsonValue::Bool(b) => JsonValue::Bool(*b),
            JsonValue::Number(n) => JsonValue::Number(n.clone()),
            JsonValue::Str(s) => JsonValue::Str(s.clone()),
            JsonValue::Array(items) => {
                let mut out: Vec<JsonValue> = Vec::new();
                let n = items.len();
                let mut i: usize = 0;
                while i < n
                    invariant
                        n == items@.len(),
                        i <= n,
                        out@.len() == i,
                        *self == JsonValue::Array(*items),
                        forall|j: int| 0 <= j < i ==> #[trigger] out@[j]@ == items@[j]@,
                    decreases n - i,
                {
                    assert(decreases_to!(*self => self->Array_0));
                    assert(decreases_to!(self->Array_0 => items@));
                    assert(decreases_to!(items@ => items@[i as int]));
                    let c = items[i].deep_clone();
                    out.push(c);
                    i = i + 1;
                }
                let r = JsonValue::Array(out);
                assert forall|j: int| 0 <= j < n implies #[trigger] json_view(out@[j]) == json_view(items@[j]) by {
                    assert(out@[j]@ == items@[j]@);
                }
                assert forall|j: int| 0 <= j < n implies r@->Array_0[j] == self@->Array_0[j] by {
                    assert(json_view(out@[j]) == json_view(items@[j]));
                }
                assert(r@->Array_0 =~= self@->Array_0);
                r
            },
            JsonValue::Object(fields) => {
                let mut out: Vec<(String, JsonValue)> = Vec::new();
                let n = fields.len();
                let mut i: usize = 0;
                while i < n
                    invariant
                        n == fields@.len(),
                        i <= n,
                        out@.len() == i,
                        *self == JsonValue::Object(*fields),
                        forall|j: int|
                            #![trigger out@[j]]
                            0 <= j < i ==> out@[j].0@ == fields@[j].0@ && out@[j].1@
                                == fields@[j].1@,
                    decreases n - i,
                {
                    assert(decreases_to!(*self => self->Object_0));
                    assert(decreases_to!(self->Object_0 => fields@));
                    assert(decreases_to!(fields@ => fields@[i as int]));
                    assert(decreases_to!(fields@[i as int] => fields@[i as int].1));
                    let k = fields[i].0.clone();
                    let c = fields[i].1.deep_clone();
                    out.push((k, c));
                    i = i + 1;
                }
                let r = JsonValue::Object(out);
                assert forall|j: int| 0 <= j < n implies #[trigger] json_view(out@[j].1) == json_view(fields@[j].1) by {
                    assert(out@[j].1@ == fields@[j].1@);
                }
                assert(r@->Object_0 =~= self@->Object_0);
                r
            },
        }
    }
}

} // verus!

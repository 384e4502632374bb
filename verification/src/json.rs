//! JSON values as plain data, with a mathematical view.
use crate::text;
use crate::text::{opt_str, texts};
use vstd::prelude::*;

verus! {

/// An IEEE 754 double, by its bits.
#[derive(Debug, Clone, Copy, PartialEq, Eq, Structural)]
pub struct F64Bits {
    pub bits: u64,
}

/// A JSON value. The members of an object stand in a list.
#[derive(Debug)]
pub enum JsonValue {
    Null,
    Bool(bool),
    PosInt(u64),
    NegInt(i64),
    Float(F64Bits),
    Str(String),
    Array(Vec<JsonValue>),
    Object(Vec<(String, JsonValue)>),
}

/// The mathematical view of a JSON value.
pub enum Json {
    Null,
    Bool(bool),
    Int(int),
    Float(u64),
    Str(Seq<char>),
    Array(Seq<Json>),
    Object(Seq<(Seq<char>, Json)>),
}

/// The view of a JSON value.
pub open spec fn json_of(v: JsonValue) -> Json
    decreases v,
{
    match v {
        JsonValue::Null => Json::Null,
        JsonValue::Bool(b) => Json::Bool(b),
        JsonValue::PosInt(n) => Json::Int(n as int),
        JsonValue::NegInt(n) => Json::Int(n as int),
        JsonValue::Float(f) => Json::Float(f.bits),
        JsonValue::Str(s) => Json::Str(s@),
        JsonValue::Array(items) => Json::Array(
            Seq::new(
                items@.len(),
                |i: int|
                    if 0 <= i < items@.len() {
                        json_of(items@[i])
                    } else {
                        Json::Null
                    },
            ),
        ),
        JsonValue::Object(members) => Json::Object(
            Seq::new(
                members@.len(),
                |i: int|
                    if 0 <= i < members@.len() {
                        (members@[i].0@, json_of(members@[i].1))
                    } else {
                        (Seq::<char>::empty(), Json::Null)
                    },
            ),
        ),
    }
}

/// The views of a list of JSON values.
pub open spec fn jsons(v: Seq<JsonValue>) -> Seq<Json> {
    v.map_values(|x: JsonValue| json_of(x))
}

/// The views of a list of members.
pub open spec fn members(m: Seq<(String, JsonValue)>) -> Seq<(Seq<char>, Json)> {
    m.map_values(|x: (String, JsonValue)| (x.0@, json_of(x.1)))
}

/// An array is viewed as the list of its items.
pub broadcast proof fn lemma_array(v: Vec<JsonValue>)
    ensures
        #[trigger] json_of(JsonValue::Array(v)) == Json::Array(jsons(v@)),
{
    assert(json_of(JsonValue::Array(v))->Array_0 =~= jsons(v@));
}

/// An object is viewed as the list of its members.
pub broadcast proof fn lemma_object(m: Vec<(String, JsonValue)>)
    ensures
        #[trigger] json_of(JsonValue::Object(m)) == Json::Object(members(m@)),
{
    assert(json_of(JsonValue::Object(m))->Object_0 =~= members(m@));
}

impl View for JsonValue {
    type V = Json;

    open spec fn view(&self) -> Json {
        json_of(*self)
    }
}

impl JsonValue {
    /// A copy of the value.
    pub fn copy(&self) -> (r: JsonValue)
        ensures
            r@ == self@,
        decreases self,
    {
        match self {
            JsonValue::Null => JsonValue::Null,
            JsonValue::Bool(b) => JsonValue::Bool(*b),
            JsonValue::PosInt(n) => JsonValue::PosInt(*n),
            JsonValue::NegInt(n) => JsonValue::NegInt(*n),
            JsonValue::Float(f) => JsonValue::Float(*f),
            JsonValue::Str(s) => JsonValue::Str(s.clone()),
            JsonValue::Array(v) => {
                let mut out: Vec<JsonValue> = Vec::new();
                let mut i: usize = 0;
                while i < v.len()
                    invariant
                        i <= v@.len(),
                        out@.len() == i,
                        *self == JsonValue::Array(*v),
                        forall|k: int| 0 <= k < i ==> (#[trigger] out@[k])@ == v@[k]@,
                    decreases v@.len() - i,
                {
                    assert(decreases_to!(*self => self->Array_0));
                    assert(decreases_to!(self->Array_0 => self->Array_0@));
                    assert(decreases_to!(self->Array_0@ => self->Array_0@[i as int]));
                    out.push(v[i].copy());
                    i += 1;
                }
                proof {
                    lemma_array(*v);
                    lemma_array(out);
                    assert(jsons(out@) =~= jsons(v@));
                }
                JsonValue::Array(out)
            },
            JsonValue::Object(m) => {
                let mut out: Vec<(String, JsonValue)> = Vec::new();
                let mut i: usize = 0;
                while i < m.len()
                    invariant
                        i <= m@.len(),
                        out@.len() == i,
                        *self == JsonValue::Object(*m),
                        forall|k: int|
                            0 <= k < i ==> (#[trigger] out@[k]).0@ == m@[k].0@ && out@[k].1@
                                == m@[k].1@,
                    decreases m@.len() - i,
                {
                    assert(decreases_to!(*self => self->Object_0));
                    assert(decreases_to!(self->Object_0 => self->Object_0@));
                    assert(decreases_to!(self->Object_0@ => self->Object_0@[i as int]));
                    assert(decreases_to!(self->Object_0@[i as int] => self->Object_0@[i as int].1));
                    out.push((m[i].0.clone(), m[i].1.copy()));
                    i += 1;
                }
                proof {
                    lemma_object(*m);
                    lemma_object(out);
                    assert(members(out@) =~= members(m@));
                }
                JsonValue::Object(out)
            },
        }
    }
}

// ---------------------------------------------------------------------------
// Reading
// ---------------------------------------------------------------------------

/// The value of the first member named `key`.
pub open spec fn first_member(m: Seq<(Seq<char>, Json)>, key: Seq<char>) -> Option<Json>
    decreases m.len(),
{
    if m.len() == 0 {
        None
    } else if m[0].0 == key {
        Some(m[0].1)
    } else {
        first_member(m.drop_first(), key)
    }
}

/// The member `key` of an object; `None` of anything else.
pub open spec fn member(j: Json, key: Seq<char>) -> Option<Json> {
    match j {
        Json::Object(m) => first_member(m, key),
        _ => None,
    }
}

/// The text of a string.
pub open spec fn string_in(j: Option<Json>) -> Option<Seq<char>> {
    match j {
        Some(Json::Str(s)) => Some(s),
        _ => None,
    }
}

/// The items of an array.
pub open spec fn array_in(j: Option<Json>) -> Option<Seq<Json>> {
    match j {
        Some(Json::Array(v)) => Some(v),
        _ => None,
    }
}

/// The number where it is a whole one of 64 bits that is not negative.
pub open spec fn u64_in(j: Option<Json>) -> Option<int> {
    match j {
        Some(Json::Int(n)) => if 0 <= n <= u64::MAX {
            Some(n)
        } else {
            None
        },
        _ => None,
    }
}

/// The number where it is a whole one of 64 bits.
pub open spec fn i64_in(j: Option<Json>) -> Option<int> {
    match j {
        Some(Json::Int(n)) => if i64::MIN <= n <= i64::MAX {
            Some(n)
        } else {
            None
        },
        _ => None,
    }
}

/// The view of an optional reference.
pub open spec fn opt_json(o: Option<&JsonValue>) -> Option<Json> {
    match o {
        Some(j) => Some(j@),
        None => None,
    }
}

impl JsonValue {
    /// The member `key` of an object.
    pub fn get(&self, key: &str) -> (r: Option<&JsonValue>)
        ensures
            opt_json(r) == member(self@, key@),
    {
        match self {
            JsonValue::Object(m) => {
                proof {
                    lemma_object(*m);
                }
                let ghost all = members(m@);
                let mut i: usize = 0;
                assert(all.skip(0) =~= all);
                while i < m.len()
                    invariant
                        i <= m@.len(),
                        all == members(m@),
                        member(self@, key@) == first_member(all, key@),
                        first_member(all.skip(i as int), key@) == first_member(all, key@),
                    decreases m@.len() - i,
                {
                    let ghost rest = all.skip(i as int);
                    assert(rest[0] == (m@[i as int].0@, json_of(m@[i as int].1)));
                    assert(rest.drop_first() =~= all.skip(i as int + 1));
                    if text::same(m[i].0.as_str(), key) {
                        return Some(&m[i].1);
                    }
                    i += 1;
                }
                assert(all.skip(i as int).len() == 0);
                None
            },
            _ => None,
        }
    }

    /// The text of a string.
    pub fn as_str(&self) -> (r: Option<&str>)
        ensures
            opt_str(r) == string_in(Some(self@)),
    {
        match self {
            JsonValue::Str(s) => Some(s.as_str()),
            _ => None,
        }
    }

    /// The items of an array.
    pub fn as_array(&self) -> (r: Option<&Vec<JsonValue>>)
        ensures
            match r {
                Some(v) => array_in(Some(self@)) == Some(jsons(v@)),
                None => array_in(Some(self@)) is None,
            },
    {
        match self {
            JsonValue::Array(v) => {
                proof {
                    lemma_array(*v);
                }
                Some(v)
            },
            _ => None,
        }
    }

    /// The number where it is a whole one of 64 bits that is not negative.
    pub fn as_u64(&self) -> (r: Option<u64>)
        ensures
            match r {
                Some(n) => u64_in(Some(self@)) == Some(n as int),
                None => u64_in(Some(self@)) is None,
            },
    {
        match self {
            JsonValue::PosInt(n) => Some(*n),
            JsonValue::NegInt(n) => if *n >= 0 {
                Some(*n as u64)
            } else {
                None
            },
            _ => None,
        }
    }

    /// The number where it is a whole one of 64 bits.
    pub fn as_i64(&self) -> (r: Option<i64>)
        ensures
            match r {
                Some(n) => i64_in(Some(self@)) == Some(n as int),
                None => i64_in(Some(self@)) is None,
            },
    {
        match self {
            JsonValue::PosInt(n) => if *n <= i64::MAX as u64 {
                Some(*n as i64)
            } else {
                None
            },
            JsonValue::NegInt(n) => Some(*n),
            _ => None,
        }
    }

    /// The text of the member `key`, where it is a string.
    pub fn get_str(&self, key: &str) -> (r: Option<&str>)
        ensures
            opt_str(r) == string_in(member(self@, key@)),
    {
        match self.get(key) {
            Some(j) => j.as_str(),
            None => None,
        }
    }
}

/// Adds a member at the end.
pub(crate) fn push_member(m: &mut Vec<(String, JsonValue)>, name: &str, value: JsonValue)
    ensures
        members(final(m)@) == members(old(m)@).push((name@, value@)),
{
    let ghost start = members(m@);
    m.push((name.to_string(), value));
    assert(members(m@) =~= start.push((name@, value@)));
}

/// A whole number.
pub(crate) fn of_i64(n: i64) -> (r: JsonValue)
    ensures
        r@ == Json::Int(n as int),
{
    if n >= 0 {
        JsonValue::PosInt(n as u64)
    } else {
        JsonValue::NegInt(n)
    }
}

/// An object with one member.
pub(crate) fn one_member(name: &str, value: JsonValue) -> (r: JsonValue)
    ensures
        r@ == Json::Object(seq![(name@, value@)]),
{
    let ghost v = value@;
    let mut m: Vec<(String, JsonValue)> = Vec::new();
    push_member(&mut m, name, value);
    proof {
        lemma_object(m);
        assert(members(m@) =~= seq![(name@, v)]);
    }
    JsonValue::Object(m)
}

/// A list of texts.
pub open spec fn text_list(v: Seq<Seq<char>>) -> Json {
    Json::Array(v.map_values(|s: Seq<char>| Json::Str(s)))
}

/// A list of texts.
pub(crate) fn of_texts(v: &Vec<String>) -> (r: JsonValue)
    ensures
        r@ == text_list(texts(v@)),
{
    let mut a: Vec<JsonValue> = Vec::new();
    let mut i: usize = 0;
    while i < v.len()
        invariant
            i <= v@.len(),
            a@.len() == i,
            forall|k: int| 0 <= k < i ==> (#[trigger] a@[k])@ == Json::Str(v@[k]@),
        decreases v@.len() - i,
    {
        a.push(JsonValue::Str(v[i].clone()));
        i += 1;
    }
    proof {
        lemma_array(a);
        assert(jsons(a@) =~= texts(v@).map_values(|s: Seq<char>| Json::Str(s)));
    }
    JsonValue::Array(a)
}

impl Clone for JsonValue {
    fn clone(&self) -> (r: Self)
        ensures
            r@ == self@,
    {
        self.copy()
    }
}

// ---------------------------------------------------------------------------
// Laws
// ---------------------------------------------------------------------------

proof fn lemma_first_member(m: Seq<(Seq<char>, Json)>, key: Seq<char>, i: int)
    requires
        0 <= i <= m.len(),
        forall|k: int| 0 <= k < i ==> (#[trigger] m[k]).0 != key,
        i < m.len() ==> m[i].0 == key,
    ensures
        i < m.len() ==> first_member(m, key) == Some(m[i].1),
        i == m.len() ==> first_member(m, key) is None,
    decreases i,
{
    if i > 0 {
        let w = m.drop_first();
        assert(m[0].0 != key);
        assert forall|k: int| 0 <= k < i - 1 implies (#[trigger] w[k]).0 != key by {
            assert(w[k] == m[k + 1]);
        }
        lemma_first_member(w, key, i - 1);
    }
}

/// A member is found under its name; where two share one, the first counts.
/// Without a member of that name, or in anything but an object, nothing is found.
pub proof fn law_members_are_found_by_name(
    m: Vec<(String, JsonValue)>,
    key: &str,
    i: int,
    r: Option<&JsonValue>,
)
    requires
        call_ensures(JsonValue::get, (&JsonValue::Object(m), key), r),
        0 <= i <= m@.len(),
        forall|k: int| 0 <= k < i ==> (#[trigger] m@[k]).0@ != key@,
        i < m@.len() ==> m@[i].0@ == key@,
    ensures
        i < m@.len() ==> (r matches Some(v) && v@ == m@[i].1@),
        i == m@.len() ==> r is None,
{
    let v = members(m@);
    lemma_object(m);
    assert(forall|k: int| 0 <= k < v.len() ==> (#[trigger] v[k]) == (m@[k].0@, json_of(m@[k].1)));
    assert forall|k: int| 0 <= k < i implies (#[trigger] v[k]).0 != key@ by {
        assert(m@[k].0@ != key@);
    }
    lemma_first_member(v, key@, i);
}

/// A value is read as what it is, and as nothing else: a text as a text, a list
/// as a list, a whole number as a number where it fits.
pub proof fn law_values_are_read_as_they_are(
    j: JsonValue,
    s: Option<&str>,
    v: Option<&Vec<JsonValue>>,
    n: Option<i64>,
    u: Option<u64>,
)
    requires
        call_ensures(JsonValue::as_str, (&j,), s),
        call_ensures(JsonValue::as_array, (&j,), v),
        call_ensures(JsonValue::as_i64, (&j,), n),
        call_ensures(JsonValue::as_u64, (&j,), u),
    ensures
        s is Some <==> j is Str,
        j matches JsonValue::Str(t) ==> (s matches Some(x) && x@ == t@),
        v is Some <==> j is Array,
        j matches JsonValue::Array(a) ==> (v matches Some(x) && jsons(x@) == jsons(a@)),
        j matches JsonValue::PosInt(k) ==> (u matches Some(x) && x == k) && (n is Some <==> k
            <= i64::MAX) && (n matches Some(x) ==> x == k),
        j matches JsonValue::NegInt(k) ==> (n matches Some(x) && x == k) && (u is Some <==> k >= 0),
        j is Str || j is Null || j is Bool || j is Float || j is Array || j is Object ==> n is None
            && u is None,
{
    if let JsonValue::Array(a) = j {
        lemma_array(a);
    }
}

/// A copy of a value is the same value, and a text is read just where there is
/// one.
pub proof fn law_copied_values_read_the_same(
    j: JsonValue,
    c: JsonValue,
    key: &str,
    x: Option<&str>,
    y: Option<&str>,
)
    requires
        call_ensures(JsonValue::copy, (&j,), c),
        call_ensures(JsonValue::get_str, (&j, key), x),
        call_ensures(JsonValue::get_str, (&c, key), y),
    ensures
        x is Some <==> y is Some,
        x matches Some(s) ==> member(j@, key@) == Some(Json::Str(s@)) && y->Some_0@ == s@,
        x is None ==> !(member(j@, key@) matches Some(v) && v is Str),
{
}

} // verus!

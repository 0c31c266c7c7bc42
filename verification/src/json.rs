//! A plain model of JSON values, with the JSON and CBOR codecs of the outside
//! crates behind trusted wrappers.

use vstd::prelude::*;
use crate::text::{copy_str, str_eq};

verus! {

/// A JSON number. Integers are held exactly; any other number keeps its
/// decimal text.
#[derive(Debug)]
pub enum JsonNumber {
    PosInt(u64),
    NegInt(i64),
    Decimal(String),
}

/// A JSON value. Object members keep their order.
#[derive(Debug)]
pub enum Json {
    Null,
    Bool(bool),
    Number(JsonNumber),
    Str(String),
    Array(Vec<Json>),
    Object(Vec<(String, Json)>),
}

/// The mathematical value of a JSON number.
pub enum NumV {
    PosInt(u64),
    NegInt(i64),
    Decimal(Seq<char>),
}

/// The mathematical value of a JSON value.
pub enum JV {
    Null,
    Bool(bool),
    Number(NumV),
    Str(Seq<char>),
    Array(Seq<JV>),
    Object(Seq<(Seq<char>, JV)>),
}

pub open spec fn num_view(n: JsonNumber) -> NumV {
    match n {
        JsonNumber::PosInt(u) => NumV::PosInt(u),
        JsonNumber::NegInt(i) => NumV::NegInt(i),
        JsonNumber::Decimal(s) => NumV::Decimal(s@),
    }
}

pub open spec fn json_view(j: Json) -> JV
    decreases j,
{
    match j {
        Json::Null => JV::Null,
        Json::Bool(b) => JV::Bool(b),
        Json::Number(n) => JV::Number(num_view(n)),
        Json::Str(s) => JV::Str(s@),
        Json::Array(v) => JV::Array(json_views(v@)),
        Json::Object(m) => JV::Object(member_views(m@)),
    }
}

pub open spec fn json_views(s: Seq<Json>) -> Seq<JV>
    decreases s,
{
    if s.len() == 0 {
        Seq::empty()
    } else {
        json_views(s.drop_last()).push(json_view(s.last()))
    }
}

pub open spec fn member_views(m: Seq<(String, Json)>) -> Seq<(Seq<char>, JV)>
    decreases m,
{
    if m.len() == 0 {
        Seq::empty()
    } else {
        member_views(m.drop_last()).push((m.last().0@, json_view(m.last().1)))
    }
}

impl View for JsonNumber {
    type V = NumV;

    open spec fn view(&self) -> NumV {
        num_view(*self)
    }
}

impl View for Json {
    type V = JV;

    open spec fn view(&self) -> JV {
        json_view(*self)
    }
}

pub proof fn lemma_json_views(s: Seq<Json>)
    ensures
        json_views(s).len() == s.len(),
        forall|i: int| 0 <= i < s.len() ==> #[trigger] json_views(s)[i] == json_view(s[i]),
    decreases s.len(),
{
    if s.len() > 0 {
        lemma_json_views(s.drop_last());
    }
}

pub proof fn lemma_member_views(m: Seq<(String, Json)>)
    ensures
        member_views(m).len() == m.len(),
        forall|i: int|
            0 <= i < m.len() ==> #[trigger] member_views(m)[i] == (m[i].0@, json_view(m[i].1)),
    decreases m.len(),
{
    if m.len() > 0 {
        lemma_member_views(m.drop_last());
    }
}

/// The first member named `key`.
pub open spec fn members_get(m: Seq<(Seq<char>, JV)>, key: Seq<char>) -> Option<JV>
    decreases m.len(),
{
    if m.len() == 0 {
        None
    } else if m[0].0 == key {
        Some(m[0].1)
    } else {
        members_get(m.drop_first(), key)
    }
}

/// The first member named `k` is the one at position `i` when no member
/// before `i` has that name.
pub proof fn lemma_members_get_at(m: Seq<(Seq<char>, JV)>, i: int, k: Seq<char>)
    requires
        0 <= i < m.len(),
        m[i].0 == k,
        forall|j: int| 0 <= j < i ==> #[trigger] m[j].0 != k,
    ensures
        members_get(m, k) == Some(m[i].1),
    decreases i,
{
    if i > 0 {
        assert forall|j: int| 0 <= j < i - 1 implies #[trigger] m.drop_first()[j].0 != k by {
            assert(m.drop_first()[j] == m[j + 1]);
        }
        lemma_members_get_at(m.drop_first(), i - 1, k);
    }
}

/// `value.get(key)`: the member `key` of an object, nothing for other values.
pub open spec fn jget(j: JV, key: Seq<char>) -> Option<JV> {
    match j {
        JV::Object(m) => members_get(m, key),
        _ => None,
    }
}

/// The text of a string value.
pub open spec fn jstr(j: JV) -> Option<Seq<char>> {
    match j {
        JV::Str(s) => Some(s),
        _ => None,
    }
}

/// `value.get(key).and_then(Value::as_str)`.
pub open spec fn jget_str(j: JV, key: Seq<char>) -> Option<Seq<char>> {
    match jget(j, key) {
        Some(v) => jstr(v),
        None => None,
    }
}

/// `value.get(key).and_then(Value::as_array)`.
pub open spec fn jget_arr(j: JV, key: Seq<char>) -> Option<Seq<JV>> {
    match jget(j, key) {
        Some(JV::Array(v)) => Some(v),
        _ => None,
    }
}

/// `value.get(key).and_then(Value::as_bool)`.
pub open spec fn jget_bool(j: JV, key: Seq<char>) -> Option<bool> {
    match jget(j, key) {
        Some(JV::Bool(b)) => Some(b),
        _ => None,
    }
}

/// `Value::as_u64`.
pub open spec fn ju64(j: JV) -> Option<u64> {
    match j {
        JV::Number(NumV::PosInt(n)) => Some(n),
        _ => None,
    }
}

/// Size of a JSON value: the number of values it is made of.
pub open spec fn jsize(j: JV) -> nat
    decreases j,
{
    match j {
        JV::Array(v) => 1 + jsizes(v),
        JV::Object(m) => 1 + msizes(m),
        _ => 1,
    }
}

pub open spec fn jsizes(s: Seq<JV>) -> nat
    decreases s,
{
    if s.len() == 0 {
        0
    } else {
        jsizes(s.drop_last()) + jsize(s.last())
    }
}

pub open spec fn msizes(m: Seq<(Seq<char>, JV)>) -> nat
    decreases m,
{
    if m.len() == 0 {
        0
    } else {
        msizes(m.drop_last()) + jsize(m.last().1)
    }
}

/// An element of a sequence is no larger than the sequence.
pub proof fn lemma_jsizes_elem(s: Seq<JV>, i: int)
    requires
        0 <= i < s.len(),
    ensures
        jsize(s[i]) <= jsizes(s),
        jsizes(s.take(i)) + jsize(s[i]) <= jsizes(s),
    decreases s.len(),
{
    if i < s.len() - 1 {
        lemma_jsizes_elem(s.drop_last(), i);
        assert(s.drop_last()[i] == s[i]);
        assert(s.drop_last().take(i) == s.take(i));
    } else {
        assert(s.drop_last() == s.take(i));
    }
}

proof fn lemma_msizes_first(m: Seq<(Seq<char>, JV)>)
    requires
        m.len() > 0,
    ensures
        msizes(m) == jsize(m[0].1) + msizes(m.drop_first()),
    decreases m.len(),
{
    if m.len() > 1 {
        lemma_msizes_first(m.drop_last());
        assert(m.drop_last().drop_first() == m.drop_first().drop_last());
        assert(m.drop_last()[0] == m[0]);
        assert(m.drop_first().last() == m.last());
        assert(msizes(m.drop_first()) == msizes(m.drop_first().drop_last()) + jsize(
            m.drop_first().last().1,
        ));
        assert(msizes(m) == msizes(m.drop_last()) + jsize(m.last().1));
    } else {
        assert(m.drop_last().len() == 0);
        assert(m.drop_first().len() == 0);
        assert(msizes(m.drop_last()) == 0);
        assert(msizes(m.drop_first()) == 0);
        assert(m.last() == m[0]);
        assert(msizes(m) == msizes(m.drop_last()) + jsize(m.last().1));
    }
}

/// A member found by name is no larger than the object's members.
pub proof fn lemma_members_get_size(m: Seq<(Seq<char>, JV)>, key: Seq<char>)
    ensures
        members_get(m, key) matches Some(v) ==> jsize(v) <= msizes(m),
    decreases m.len(),
{
    if m.len() > 0 {
        lemma_members_get_size(m.drop_first(), key);
        lemma_msizes_first(m);
    }
}

/// What `value.get(key)` finds in `j` is smaller than `j`.
pub proof fn lemma_jget_size(j: JV, key: Seq<char>)
    ensures
        jget(j, key) matches Some(v) ==> jsize(v) < jsize(j),
{
    if let JV::Object(m) = j {
        lemma_members_get_size(m, key);
    }
}

impl JsonNumber {
    /// A copy of this number.
    pub fn duplicate(&self) -> (r: JsonNumber)
        ensures
            r@ == self@,
    {
        match self {
            JsonNumber::PosInt(n) => JsonNumber::PosInt(*n),
            JsonNumber::NegInt(n) => JsonNumber::NegInt(*n),
            JsonNumber::Decimal(s) => JsonNumber::Decimal(s.clone()),
        }
    }
}

impl Json {
    /// A copy of this value.
    pub fn duplicate(&self) -> (r: Json)
        ensures
            r@ == self@,
        decreases self,
    {
        match self {
            Json::Null => Json::Null,
            Json::Bool(b) => Json::Bool(*b),
            Json::Number(n) => Json::Number(n.duplicate()),
            Json::Str(s) => Json::Str(s.clone()),
            Json::Array(v) => {
                let mut out: Vec<Json> = Vec::new();
                let mut i: usize = 0;
                proof {
                    lemma_json_views(v@);
                }
                while i < v.len()
                    invariant
                        i <= v.len(),
                        *self == Json::Array(*v),
                        json_views(out@) == json_views(v@).take(i as int),
                        json_views(v@).len() == v@.len(),
                    decreases v.len() - i,
                {
                    assert(decreases_to!(*self => (*self)->Array_0));
                    let e = v[i].duplicate();
                    proof {
                        lemma_json_views(v@);
                    }
                    let ghost prev = out@;
                    out.push(e);
                    assert(out@.drop_last() == prev);
                    assert(json_views(out@) == json_views(prev).push(json_view(e)));
                    assert(json_views(out@) =~= json_views(v@).take(i + 1));
                    i += 1;
                }
                assert(json_views(v@).take(v.len() as int) == json_views(v@));
                Json::Array(out)
            },
            Json::Object(m) => {
                let mut out: Vec<(String, Json)> = Vec::new();
                let mut i: usize = 0;
                proof {
                    lemma_member_views(m@);
                }
                while i < m.len()
                    invariant
                        i <= m.len(),
                        *self == Json::Object(*m),
                        member_views(out@) == member_views(m@).take(i as int),
                        member_views(m@).len() == m@.len(),
                    decreases m.len() - i,
                {
                    assert(decreases_to!(*self => (*self)->Object_0));
                    let e = m[i].1.duplicate();
                    let k = m[i].0.clone();
                    proof {
                        lemma_member_views(m@);
                    }
                    let ghost prev = out@;
                    out.push((k, e));
                    assert(out@.drop_last() == prev);
                    assert(member_views(out@) == member_views(prev).push((k@, json_view(e))));
                    assert(member_views(out@) =~= member_views(m@).take(i + 1));
                    i += 1;
                }
                assert(member_views(m@).take(m.len() as int) == member_views(m@));
                Json::Object(out)
            },
        }
    }

    /// A string value.
    pub fn from_str(s: &str) -> (r: Json)
        ensures
            r@ == JV::Str(s@),
    {
        Json::Str(copy_str(s))
    }

    /// `value.get(key)`.
    pub fn get(&self, key: &str) -> (r: Option<&Json>)
        ensures
            r is Some <==> jget(self@, key@) is Some,
            r matches Some(v) ==> jget(self@, key@) == Some(v@),
    {
        match self {
            Json::Object(m) => {
                let ghost mv = member_views(m@);
                proof {
                    lemma_member_views(m@);
                }
                let mut i: usize = 0;
                assert(mv.skip(0) == mv);
                while i < m.len()
                    invariant
                        i <= m.len(),
                        *self == Json::Object(*m),
                        mv == member_views(m@),
                        mv.len() == m@.len(),
                        forall|j: int| 0 <= j < m@.len() ==> #[trigger] mv[j] == (m@[j].0@, json_view(m@[j].1)),
                        members_get(mv, key@) == members_get(mv.skip(i as int), key@),
                    decreases m.len() - i,
                {
                    assert(mv.skip(i as int)[0] == mv[i as int]);
                    if str_eq(m[i].0.as_str(), key) {
                        return Some(&m[i].1);
                    }
                    assert(mv.skip(i as int).drop_first() == mv.skip(i + 1));
                    i += 1;
                }
                None
            },
            _ => None,
        }
    }

    /// `value.as_str()`.
    pub fn as_str(&self) -> (r: Option<&String>)
        ensures
            r is Some <==> jstr(self@) is Some,
            r matches Some(s) ==> jstr(self@) == Some(s@),
    {
        match self {
            Json::Str(s) => Some(s),
            _ => None,
        }
    }

    /// `value.as_array()`.
    pub fn as_array(&self) -> (r: Option<&Vec<Json>>)
        ensures
            r is Some <==> self@ is Array,
            r matches Some(v) ==> self@ == JV::Array(json_views(v@)),
    {
        match self {
            Json::Array(v) => Some(v),
            _ => None,
        }
    }

    /// `value.as_bool()`.
    pub fn as_bool(&self) -> (r: Option<bool>)
        ensures
            r == (match self@ {
                JV::Bool(b) => Some(b),
                _ => None,
            }),
    {
        match self {
            Json::Bool(b) => Some(*b),
            _ => None,
        }
    }

    /// `value.as_u64()`.
    pub fn as_u64(&self) -> (r: Option<u64>)
        ensures
            r == ju64(self@),
    {
        match self {
            Json::Number(JsonNumber::PosInt(n)) => Some(*n),
            _ => None,
        }
    }

    /// `value.get(key).and_then(Value::as_str)`.
    pub fn get_str(&self, key: &str) -> (r: Option<&String>)
        ensures
            r is Some <==> jget_str(self@, key@) is Some,
            r matches Some(s) ==> jget_str(self@, key@) == Some(s@),
    {
        match self.get(key) {
            Some(v) => v.as_str(),
            None => None,
        }
    }

    /// `value.get(key).and_then(Value::as_array)`.
    pub fn get_array(&self, key: &str) -> (r: Option<&Vec<Json>>)
        ensures
            r is Some <==> jget_arr(self@, key@) is Some,
            r matches Some(v) ==> jget_arr(self@, key@) == Some(json_views(v@)),
    {
        match self.get(key) {
            Some(v) => v.as_array(),
            None => None,
        }
    }
}


/// Appends the member `k: v` to an object under construction.
pub fn push_member(m: &mut Vec<(String, Json)>, k: &str, v: Json)
    ensures
        member_views(final(m)@) == member_views(old(m)@).push((k@, v@)),
{
    let ghost before = m@;
    m.push((copy_str(k), v));
    assert(m@.drop_last() == before);
}

/// A string value, or null.
pub open spec fn opt_str_jv(o: Option<Seq<char>>) -> JV {
    match o {
        Some(s) => JV::Str(s),
        None => JV::Null,
    }
}

pub fn opt_str_json(o: &Option<String>) -> (r: Json)
    ensures
        r@ == opt_str_jv(crate::plan::opt_view(*o)),
{
    match o {
        Some(s) => Json::Str(s.clone()),
        None => Json::Null,
    }
}

/// An array of string values.
pub open spec fn str_array_jv(v: Seq<Seq<char>>) -> JV {
    JV::Array(v.map_values(|s: Seq<char>| JV::Str(s)))
}

pub fn str_array_json(v: &Vec<String>) -> (r: Json)
    ensures
        r@ == str_array_jv(crate::text::views(v@)),
{
    let mut out: Vec<Json> = Vec::new();
    let mut i: usize = 0;
    while i < v.len()
        invariant
            i <= v.len(),
            json_views(out@) == crate::text::views(v@).map_values(|s: Seq<char>| JV::Str(s)).take(
                i as int,
            ),
        decreases v.len() - i,
    {
        let ghost before = out@;
        let e = Json::Str(v[i].clone());
        out.push(e);
        assert(out@.drop_last() == before);
        assert(json_views(out@) == json_views(before).push(json_view(e)));
        assert(crate::text::views(v@)[i as int] == v@[i as int]@);
        assert(json_views(out@) =~= crate::text::views(v@).map_values(|s: Seq<char>| JV::Str(s)).take(
            i + 1,
        ));
        i += 1;
    }
    assert(crate::text::views(v@).map_values(|s: Seq<char>| JV::Str(s)).take(i as int) =~= crate::text::views(
        v@,
    ).map_values(|s: Seq<char>| JV::Str(s)));
    Json::Array(out)
}

} // verus!

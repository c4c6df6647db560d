//! A JSON value model with a mathematical view.

use vstd::prelude::*;
use crate::text::{chars_eq, opt_str_view, str_chars};

verus! {

/// A JSON number: an unsigned or negative integer, or a floating-point
/// number held by its shortest decimal spelling.
#[derive(Clone, Debug, PartialEq)]
pub enum JsonNumber {
    PosInt(u64),
    NegInt(i64),
    Float(String),
}

/// A JSON value. Object members keep their order; a later member shadows an
/// earlier one with the same key.
#[derive(Debug, PartialEq)]
pub enum JsonValue {
    Null,
    Bool(bool),
    Number(JsonNumber),
    Str(String),
    Arr(Vec<JsonValue>),
    Obj(Vec<(String, JsonValue)>),
}

/// A JSON number as plain values.
pub enum NumberSpec {
    PosInt(u64),
    NegInt(i64),
    Float(Seq<char>),
}

/// A JSON value as plain values.
pub enum JsonSpec {
    Null,
    Bool(bool),
    Number(NumberSpec),
    Str(Seq<char>),
    Arr(Seq<JsonSpec>),
    Obj(Seq<(Seq<char>, JsonSpec)>),
}

pub open spec fn number_view(n: JsonNumber) -> NumberSpec {
    match n {
        JsonNumber::PosInt(u) => NumberSpec::PosInt(u),
        JsonNumber::NegInt(i) => NumberSpec::NegInt(i),
        JsonNumber::Float(s) => NumberSpec::Float(s@),
    }
}

pub open spec fn json_view(v: JsonValue) -> JsonSpec
    decreases v, 0nat,
{
    match v {
        JsonValue::Null => JsonSpec::Null,
        JsonValue::Bool(b) => JsonSpec::Bool(b),
        JsonValue::Number(n) => JsonSpec::Number(number_view(n)),
        JsonValue::Str(s) => JsonSpec::Str(s@),
        JsonValue::Arr(items) => JsonSpec::Arr(items_view(items@)),
        JsonValue::Obj(members) => JsonSpec::Obj(members_view(members@)),
    }
}

pub open spec fn items_view(s: Seq<JsonValue>) -> Seq<JsonSpec>
    decreases s, 1nat,
{
    if s.len() == 0 {
        Seq::empty()
    } else {
        seq![json_view(s[0])] + items_view(s.drop_first())
    }
}

pub open spec fn members_view(s: Seq<(String, JsonValue)>) -> Seq<(Seq<char>, JsonSpec)>
    decreases s, 1nat,
{
    if s.len() == 0 {
        Seq::empty()
    } else {
        seq![(s[0].0@, json_view(s[0].1))] + members_view(s.drop_first())
    }
}

/// The views of a list of values, element by element.
pub proof fn lemma_items_view(s: Seq<JsonValue>)
    ensures
        items_view(s).len() == s.len(),
        forall|i: int| 0 <= i < s.len() ==> #[trigger] items_view(s)[i] == json_view(s[i]),
    decreases s.len(),
{
    if s.len() > 0 {
        lemma_items_view(s.drop_first());
        assert forall|i: int| 0 <= i < s.len() implies #[trigger] items_view(s)[i] == json_view(s[i]) by {
            if i > 0 {
                assert(items_view(s)[i] == items_view(s.drop_first())[i - 1]);
            }
        }
    }
}

/// The views of a list of members, member by member.
pub proof fn lemma_members_view(s: Seq<(String, JsonValue)>)
    ensures
        members_view(s).len() == s.len(),
        forall|i: int| 0 <= i < s.len() ==> #[trigger] members_view(s)[i] == (s[i].0@, json_view(s[i].1)),
    decreases s.len(),
{
    if s.len() > 0 {
        lemma_members_view(s.drop_first());
        assert forall|i: int| 0 <= i < s.len() implies #[trigger] members_view(s)[i] == (s[i].0@, json_view(s[i].1)) by {
            if i > 0 {
                assert(members_view(s)[i] == members_view(s.drop_first())[i - 1]);
            }
        }
    }
}

/// The value of the last member named `k`, if any.
pub open spec fn spec_member(m: Seq<(Seq<char>, JsonSpec)>, k: Seq<char>) -> Option<JsonSpec>
    decreases m.len(),
{
    if m.len() == 0 {
        None
    } else if m.last().0 == k {
        Some(m.last().1)
    } else {
        spec_member(m.drop_last(), k)
    }
}

/// Member lookup on an object; `None` for a missing key or a non-object.
pub open spec fn spec_get(j: JsonSpec, k: Seq<char>) -> Option<JsonSpec> {
    match j {
        JsonSpec::Obj(m) => spec_member(m, k),
        _ => None,
    }
}

proof fn lemma_spec_member_index(m: Seq<(Seq<char>, JsonSpec)>, k: Seq<char>, i: int)
    requires
        0 <= i < m.len(),
        m[i].0 == k,
        forall|j: int| i < j < m.len() ==> #[trigger] m[j].0 != k,
    ensures
        spec_member(m, k) == Some(m[i].1),
    decreases m.len(),
{
    if i < m.len() - 1 {
        assert(m.last() == m[m.len() - 1]);
        lemma_spec_member_index(m.drop_last(), k, i);
    }
}

proof fn lemma_spec_member_none(m: Seq<(Seq<char>, JsonSpec)>, k: Seq<char>)
    requires
        forall|j: int| 0 <= j < m.len() ==> #[trigger] m[j].0 != k,
    ensures
        spec_member(m, k) is None,
    decreases m.len(),
{
    if m.len() > 0 {
        assert(m.last() == m[m.len() - 1]);
        lemma_spec_member_none(m.drop_last(), k);
    }
}

impl JsonValue {
    /// Look up a member of an object (`None` for other values).
    pub fn get(&self, key: &str) -> (res: Option<&JsonValue>)
        ensures
            match res {
                Some(r) => spec_get(json_view(*self), key@) == Some(json_view(*r)),
                None => spec_get(json_view(*self), key@) is None,
            },
    {
        match self {
            JsonValue::Obj(members) => {
                proof { lemma_members_view(members@); }
                let k = str_chars(key);
                let mut i = members.len();
                while i > 0
                    invariant
                        0 <= i <= members.len(),
                        k@ == key@,
                        *self == JsonValue::Obj(*members),
                        forall|j: int| i <= j < members.len() ==> #[trigger] members@[j].0@ != key@,
                    decreases i,
                {
                    let name = str_chars(members[i - 1].0.as_str());
                    if chars_eq(&name, &k) {
                        proof {
                            lemma_members_view(members@);
                            let mv = members_view(members@);
                            assert forall|j: int| i - 1 < j < mv.len() implies #[trigger] mv[j].0 != key@ by {
                                assert(mv[j].0 == members@[j].0@);
                            }
                            lemma_spec_member_index(mv, key@, (i - 1) as int);
                            assert(mv[i - 1].1 == json_view(members@[i - 1].1));
                            assert(*self == JsonValue::Obj(*members));
                            assert(json_view(*self) == JsonSpec::Obj(mv));
                        }
                        return Some(&members[i - 1].1);
                    }
                    i -= 1;
                }
                proof {
                    lemma_members_view(members@);
                    let mv = members_view(members@);
                    assert forall|j: int| 0 <= j < mv.len() implies #[trigger] mv[j].0 != key@ by {
                        assert(mv[j].0 == members@[j].0@);
                    }
                    lemma_spec_member_none(mv, key@);
                }
                None
            },
            _ => None,
        }
    }

    /// The string, if this value is a string.
    pub fn as_str(&self) -> (res: Option<&str>)
        ensures
            match res {
                Some(s) => json_view(*self) == JsonSpec::Str(s@),
                None => !(json_view(*self) is Str),
            },
    {
        match self {
            JsonValue::Str(s) => Some(s.as_str()),
            _ => None,
        }
    }

    /// The number, if this value is a non-negative integer.
    pub fn as_u64(&self) -> (res: Option<u64>)
        ensures
            match res {
                Some(n) => json_view(*self) == JsonSpec::Number(NumberSpec::PosInt(n)),
                None => !(json_view(*self) matches JsonSpec::Number(NumberSpec::PosInt(_))),
            },
    {
        match self {
            JsonValue::Number(JsonNumber::PosInt(n)) => Some(*n),
            _ => None,
        }
    }

    /// The elements, if this value is an array.
    pub fn as_array(&self) -> (res: Option<&Vec<JsonValue>>)
        ensures
            match res {
                Some(v) => json_view(*self) == JsonSpec::Arr(items_view(v@)),
                None => !(json_view(*self) is Arr),
            },
    {
        match self {
            JsonValue::Arr(v) => Some(v),
            _ => None,
        }
    }
}

/// The string held by an optional value, if it is a string.
pub open spec fn str_of(o: Option<JsonSpec>) -> Option<Seq<char>> {
    match o {
        Some(JsonSpec::Str(s)) => Some(s),
        _ => None,
    }
}

/// The non-negative integer held by an optional value, if it is one.
pub open spec fn u64_of(o: Option<JsonSpec>) -> Option<u64> {
    match o {
        Some(JsonSpec::Number(NumberSpec::PosInt(n))) => Some(n),
        _ => None,
    }
}

/// The boolean held by an optional value, if it is one.
pub open spec fn bool_of(o: Option<JsonSpec>) -> Option<bool> {
    match o {
        Some(JsonSpec::Bool(b)) => Some(b),
        _ => None,
    }
}

/// The elements held by an optional value, if it is an array.
pub open spec fn arr_of(o: Option<JsonSpec>) -> Option<Seq<JsonSpec>> {
    match o {
        Some(JsonSpec::Arr(a)) => Some(a),
        _ => None,
    }
}

impl JsonValue {
    /// `self.get(key).and_then(as_str)`.
    pub fn get_str(&self, key: &str) -> (res: Option<&str>)
        ensures
            opt_str_view(res) == str_of(spec_get(json_view(*self), key@)),
    {
        match self.get(key) {
            Some(v) => v.as_str(),
            None => None,
        }
    }

    /// `self.get(key).and_then(as_u64)`.
    pub fn get_u64(&self, key: &str) -> (res: Option<u64>)
        ensures
            res == u64_of(spec_get(json_view(*self), key@)),
    {
        match self.get(key) {
            Some(v) => v.as_u64(),
            None => None,
        }
    }

    /// `self.get(key).and_then(as_bool)`.
    pub fn get_bool(&self, key: &str) -> (res: Option<bool>)
        ensures
            res == bool_of(spec_get(json_view(*self), key@)),
    {
        match self.get(key) {
            Some(JsonValue::Bool(b)) => Some(*b),
            _ => None,
        }
    }

    /// `self.get(key).and_then(as_array)`.
    pub fn get_array(&self, key: &str) -> (res: Option<&Vec<JsonValue>>)
        ensures
            match res {
                Some(v) => arr_of(spec_get(json_view(*self), key@)) == Some(items_view(v@)),
                None => arr_of(spec_get(json_view(*self), key@)) is None,
            },
    {
        match self.get(key) {
            Some(v) => v.as_array(),
            None => None,
        }
    }
}

/// `value[key]` with a missing member read as `null`.
pub open spec fn spec_index(j: JsonSpec, k: Seq<char>) -> JsonSpec {
    match spec_get(j, k) {
        Some(v) => v,
        None => JsonSpec::Null,
    }
}

/// A string value.
pub fn json_str(s: &str) -> (res: JsonValue)
    ensures
        json_view(res) == JsonSpec::Str(s@),
{
    JsonValue::Str(crate::text::to_owned_string(s))
}

/// A non-negative integer value.
pub fn json_u64(n: u64) -> (res: JsonValue)
    ensures
        json_view(res) == JsonSpec::Number(NumberSpec::PosInt(n)),
{
    JsonValue::Number(JsonNumber::PosInt(n))
}

/// An object member.
pub fn member(key: &str, value: JsonValue) -> (res: (String, JsonValue))
    ensures
        res.0@ == key@,
        res.1 == value,
{
    (crate::text::to_owned_string(key), value)
}

proof fn lemma_members_view_push(s: Seq<(String, JsonValue)>, x: (String, JsonValue))
    ensures
        members_view(s.push(x)) == members_view(s).push((x.0@, json_view(x.1))),
{
    lemma_members_view(s);
    lemma_members_view(s.push(x));
    assert(members_view(s.push(x)) =~= members_view(s).push((x.0@, json_view(x.1))));
}

proof fn lemma_items_view_push(s: Seq<JsonValue>, x: JsonValue)
    ensures
        items_view(s.push(x)) == items_view(s).push(json_view(x)),
{
    lemma_items_view(s);
    lemma_items_view(s.push(x));
    assert(items_view(s.push(x)) =~= items_view(s).push(json_view(x)));
}

/// Appends a member to an object under construction.
pub fn push_member(members: &mut Vec<(String, JsonValue)>, key: &str, value: JsonValue)
    ensures
        members_view(final(members)@) == members_view(old(members)@).push((key@, json_view(value))),
{
    let m = member(key, value);
    proof { lemma_members_view_push(members@, m); }
    members.push(m);
}

/// Appends an element to an array under construction.
pub fn push_item(items: &mut Vec<JsonValue>, value: JsonValue)
    ensures
        items_view(final(items)@) == items_view(old(items)@).push(json_view(value)),
{
    proof { lemma_items_view_push(items@, value); }
    items.push(value);
}

/// An array of strings.
pub fn json_str_array(strs: &Vec<&str>) -> (res: JsonValue)
    ensures
        json_view(res) == JsonSpec::Arr(strs@.map_values(|s: &str| JsonSpec::Str(s@))),
{
    let mut items: Vec<JsonValue> = Vec::new();
    let mut i: usize = 0;
    while i < strs.len()
        invariant
            0 <= i <= strs.len(),
            items_view(items@) == strs@.take(i as int).map_values(|s: &str| JsonSpec::Str(s@)),
        decreases strs.len() - i,
    {
        push_item(&mut items, json_str(strs[i]));
        assert(strs@.take(i + 1).map_values(|s: &str| JsonSpec::Str(s@))
            =~= strs@.take(i as int).map_values(|s: &str| JsonSpec::Str(s@)).push(JsonSpec::Str(strs@[i as int]@)));
        i += 1;
    }
    assert(strs@.take(strs.len() as int) =~= strs@);
    JsonValue::Arr(items)
}

/// The empty member list.
pub proof fn lemma_members_view_empty()
    ensures
        members_view(Seq::<(String, JsonValue)>::empty()) == Seq::<(Seq<char>, JsonSpec)>::empty(),
{
}

/// The empty element list.
pub proof fn lemma_items_view_empty()
    ensures
        items_view(Seq::<JsonValue>::empty()) == Seq::<JsonSpec>::empty(),
{
}

/// A deep copy of a JSON value.
pub fn clone_json(v: &JsonValue) -> (res: JsonValue)
    ensures
        json_view(res) == json_view(*v),
    decreases v,
{
    match v {
        JsonValue::Null => JsonValue::Null,
        JsonValue::Bool(b) => JsonValue::Bool(*b),
        JsonValue::Number(n) => JsonValue::Number(match n {
            JsonNumber::PosInt(u) => JsonNumber::PosInt(*u),
            JsonNumber::NegInt(i) => JsonNumber::NegInt(*i),
            JsonNumber::Float(s) => JsonNumber::Float(s.clone()),
        }),
        JsonValue::Str(s) => JsonValue::Str(s.clone()),
        JsonValue::Arr(items) => {
            let mut out: Vec<JsonValue> = Vec::new();
            let mut i: usize = 0;
            proof { lemma_items_view(items@); }
            while i < items.len()
                invariant
                    0 <= i <= items.len(),
                    *v == JsonValue::Arr(*items),
                    items_view(out@) == items_view(items@.take(i as int)),
                decreases items.len() - i,
            {
                proof {
                    broadcast use vstd::std_specs::vec::group_vec_axioms;
                    assert((*v)->Arr_0 == *items);
                    assert(decreases_to!(*v => (*v)->Arr_0));
                    assert(decreases_to!(*items => items@));
                    assert(decreases_to!(items@ => items@[i as int]));
                }
                let c = clone_json(&items[i]);
                push_item(&mut out, c);
                proof {
                    lemma_items_view(items@.take(i + 1));
                    lemma_items_view(items@.take(i as int));
                    lemma_items_view(out@);
                    assert(items_view(items@.take(i + 1)) =~= items_view(items@.take(i as int)).push(json_view(items@[i as int])));
                }
                i += 1;
            }
            assert(items@.take(items.len() as int) =~= items@);
            JsonValue::Arr(out)
        },
        JsonValue::Obj(members) => {
            let mut out: Vec<(String, JsonValue)> = Vec::new();
            let mut i: usize = 0;
            while i < members.len()
                invariant
                    0 <= i <= members.len(),
                    *v == JsonValue::Obj(*members),
                    members_view(out@) == members_view(members@.take(i as int)),
                decreases members.len() - i,
            {
                proof {
                    broadcast use vstd::std_specs::vec::group_vec_axioms;
                    assert((*v)->Obj_0 == *members);
                    assert(decreases_to!(*v => (*v)->Obj_0));
                    assert(decreases_to!(*members => members@));
                    assert(decreases_to!(members@ => members@[i as int]));
                    assert(decreases_to!(members@[i as int] => members@[i as int].1));
                }
                let c = clone_json(&members[i].1);
                push_member(&mut out, members[i].0.as_str(), c);
                proof {
                    lemma_members_view(members@.take(i + 1));
                    lemma_members_view(members@.take(i as int));
                    assert(members_view(members@.take(i + 1)) =~= members_view(members@.take(i as int)).push((members@[i as int].0@, json_view(members@[i as int].1))));
                }
                i += 1;
            }
            assert(members@.take(members.len() as int) =~= members@);
            JsonValue::Obj(out)
        },
    }
}

} // verus!

//! A plain model of JSON values as they travel on the wire.
use vstd::prelude::*;

verus! {

/// A JSON number, kept the way the wire decoder distinguishes them.
#[derive(Debug, PartialEq, Eq)]
pub enum JsonNumber {
    /// A non-negative integer.
    PosInt(u64),
    /// A negative integer.
    NegInt(i64),
    /// Any other number, kept as its decimal text.
    Float(String),
}

/// A JSON value.  An object is the sequence of its members; the objects
/// that come from parsed text have members with distinct names.
#[derive(Debug, PartialEq, Eq)]
pub enum Json {
    Null,
    Bool(bool),
    Number(JsonNumber),
    Str(String),
    Array(Vec<Json>),
    Object(Vec<(String, Json)>),
}

/// The content of a JSON number.
pub enum NumberV {
    PosInt(u64),
    NegInt(i64),
    Float(Seq<char>),
}

/// The content of a JSON value, with text as character sequences.
pub enum JsonV {
    Null,
    Bool(bool),
    Number(NumberV),
    Str(Seq<char>),
    Array(Seq<JsonV>),
    Object(Seq<(Seq<char>, JsonV)>),
}

impl JsonNumber {
    /// The content of the number.
    pub open spec fn spec_view(&self) -> NumberV {
        match self {
            JsonNumber::PosInt(n) => NumberV::PosInt(*n),
            JsonNumber::NegInt(n) => NumberV::NegInt(*n),
            JsonNumber::Float(s) => NumberV::Float(s@),
        }
    }
}

/// The contents of a sequence of values.
pub open spec fn items_view(items: Seq<Json>) -> Seq<JsonV>
    decreases items,
{
    if items.len() == 0 {
        Seq::empty()
    } else {
        seq![json_view(items[0])] + items_view(items.subrange(1, items.len() as int))
    }
}

/// The contents of a sequence of members.
pub open spec fn members_view(members: Seq<(String, Json)>) -> Seq<(Seq<char>, JsonV)>
    decreases members,
{
    if members.len() == 0 {
        Seq::empty()
    } else {
        seq![(members[0].0@, json_view(members[0].1))] + members_view(members.subrange(1, members.len() as int))
    }
}

/// The content of a value.
pub open spec fn json_view(j: Json) -> JsonV
    decreases j,
{
    match j {
        Json::Null => JsonV::Null,
        Json::Bool(b) => JsonV::Bool(b),
        Json::Number(n) => JsonV::Number(n.spec_view()),
        Json::Str(s) => JsonV::Str(s@),
        Json::Array(items) => JsonV::Array(items_view(items@)),
        Json::Object(members) => JsonV::Object(members_view(members@)),
    }
}

impl JsonNumber {
    /// A copy of the number.
    pub fn copy(&self) -> (res: JsonNumber)
        ensures
            res@ == self@,
    {
        match self {
            JsonNumber::PosInt(n) => JsonNumber::PosInt(*n),
            JsonNumber::NegInt(n) => JsonNumber::NegInt(*n),
            JsonNumber::Float(s) => JsonNumber::Float(s.clone()),
        }
    }
}

impl View for JsonNumber {
    type V = NumberV;

    open spec fn view(&self) -> NumberV {
        self.spec_view()
    }
}

impl View for Json {
    type V = JsonV;

    open spec fn view(&self) -> JsonV {
        json_view(*self)
    }
}

/// First member of `members` named `key`, as `serde_json`'s map lookup finds it.
pub open spec fn member_lookup(members: Seq<(Seq<char>, JsonV)>, key: Seq<char>) -> Option<JsonV>
    decreases members.len(),
{
    if members.len() == 0 {
        None
    } else if members[0].0 == key {
        Some(members[0].1)
    } else {
        member_lookup(members.subrange(1, members.len() as int), key)
    }
}

impl JsonV {
    /// `value.get(key)`: the member named `key` of an object; nothing for any other value.
    pub open spec fn get(self, key: Seq<char>) -> Option<JsonV> {
        match self {
            JsonV::Object(members) => member_lookup(members, key),
            _ => None,
        }
    }
}

/// `as_str` applied to a lookup result.
pub open spec fn opt_str(v: Option<JsonV>) -> Option<Seq<char>> {
    match v {
        Some(JsonV::Str(s)) => Some(s),
        _ => None,
    }
}

/// `as_i64` applied to a lookup result.
pub open spec fn opt_i64(v: Option<JsonV>) -> Option<i64> {
    match v {
        Some(JsonV::Number(NumberV::PosInt(n))) => if n <= i64::MAX { Some(n as i64) } else { None },
        Some(JsonV::Number(NumberV::NegInt(n))) => Some(n),
        _ => None,
    }
}

/// The content of each member of a sequence, one for one.
pub proof fn lemma_members_view(members: Seq<(String, Json)>)
    ensures
        members_view(members).len() == members.len(),
        forall|i: int| 0 <= i < members.len() ==> #[trigger] members_view(members)[i] == (members[i].0@, json_view(members[i].1)),
    decreases members.len(),
{
    if members.len() > 0 {
        let rest = members.subrange(1, members.len() as int);
        lemma_members_view(rest);
        assert forall|i: int| 0 <= i < members.len() implies #[trigger] members_view(members)[i] == (members[i].0@, json_view(members[i].1)) by {
            if i > 0 {
                assert(members[i] == rest[i - 1]);
            }
        }
    }
}

/// The content of each item of a sequence, one for one.
pub proof fn lemma_items_view(items: Seq<Json>)
    ensures
        items_view(items).len() == items.len(),
        forall|i: int| 0 <= i < items.len() ==> #[trigger] items_view(items)[i] == json_view(items[i]),
    decreases items.len(),
{
    if items.len() > 0 {
        let rest = items.subrange(1, items.len() as int);
        lemma_items_view(rest);
        assert forall|i: int| 0 <= i < items.len() implies #[trigger] items_view(items)[i] == json_view(items[i]) by {
            if i > 0 {
                assert(items[i] == rest[i - 1]);
            }
        }
    }
}

/// Lookup in `s` finds the first member whose key is `key`.
pub proof fn lemma_member_lookup(s: Seq<(Seq<char>, JsonV)>, key: Seq<char>, i: int)
    requires
        0 <= i <= s.len(),
        forall|j: int| 0 <= j < i ==> #[trigger] s[j].0 != key,
    ensures
        i < s.len() && s[i].0 == key ==> member_lookup(s, key) == Some(s[i].1),
        i == s.len() ==> member_lookup(s, key) is None,
    decreases i,
{
    if i > 0 {
        let rest = s.subrange(1, s.len() as int);
        assert forall|j: int| 0 <= j < i - 1 implies #[trigger] rest[j].0 != key by {
            assert(rest[j] == s[j + 1]);
        }
        lemma_member_lookup(rest, key, i - 1);
        if i < s.len() {
            assert(rest[i - 1] == s[i]);
        }
    }
}

impl Json {
    /// `value.get(key)`.
    pub fn get(&self, key: &str) -> (res: Option<&Json>)
        ensures
            match res {
                Some(r) => self@.get(key@) == Some(r@),
                None => self@.get(key@) is None,
            },
    {
        match self {
            Json::Object(members) => {
                let k = key.to_owned();
                let ghost s = members_view(members@);
                proof {
                    lemma_members_view(members@);
                }
                let mut i: usize = 0;
                while i < members.len()
                    invariant
                        0 <= i <= members@.len(),
                        s == members_view(members@),
                        self@ == JsonV::Object(s),
                        s.len() == members@.len(),
                        k@ == key@,
                        forall|j: int| 0 <= j < members@.len() ==> #[trigger] s[j] == (members@[j].0@, json_view(members@[j].1)),
                        forall|j: int| 0 <= j < i ==> #[trigger] s[j].0 != key@,
                    decreases members@.len() - i,
                {
                    if members[i].0 == k {
                        proof {
                            lemma_member_lookup(s, key@, i as int);
                            assert(s[i as int].0 == key@);
                        }
                        return Some(&members[i].1);
                    }
                    i = i + 1;
                }
                proof {
                    lemma_member_lookup(s, key@, i as int);
                }
                None
            },
            _ => None,
        }
    }

    /// A copy of the value with the same content.
    pub fn copy(&self) -> (res: Json)
        ensures
            res@ == self@,
        decreases self,
    {
        match self {
            Json::Null => Json::Null,
            Json::Bool(b) => Json::Bool(*b),
            Json::Number(n) => Json::Number(n.copy()),
            Json::Str(s) => Json::Str(s.clone()),
            Json::Array(items) => {
                let mut out: Vec<Json> = Vec::new();
                let mut i: usize = 0;
                proof {
                    lemma_items_view(items@);
                }
                while i < items.len()
                    invariant
                        0 <= i <= items@.len(),
                        *self == Json::Array(*items),
                        out@.len() == i,
                        forall|j: int| 0 <= j < i ==> json_view(#[trigger] out@[j]) == json_view(items@[j]),
                    decreases items@.len() - i,
                {
                    proof {
                        assert(decreases_to!(*self => (*self)->Array_0));
                        assert(decreases_to!(*items => items@));
                        assert(decreases_to!(items@ => items@[i as int]));
                        assert(decreases_to!(self => items@[i as int]));
                    }
                    let c = items[i].copy();
                    out.push(c);
                    i = i + 1;
                }
                proof {
                    lemma_items_view(out@);
                    lemma_items_view(items@);
                    assert(items_view(out@) =~= items_view(items@));
                }
                Json::Array(out)
            },
            Json::Object(members) => {
                let mut out: Vec<(String, Json)> = Vec::new();
                let mut i: usize = 0;
                while i < members.len()
                    invariant
                        0 <= i <= members@.len(),
                        *self == Json::Object(*members),
                        out@.len() == i,
                        forall|j: int| 0 <= j < i ==> (#[trigger] out@[j]).0@ == members@[j].0@ && json_view(out@[j].1) == json_view(members@[j].1),
                    decreases members@.len() - i,
                {
                    proof {
                        assert(decreases_to!(*self => (*self)->Object_0));
                        assert(decreases_to!(*members => members@));
                        assert(decreases_to!(members@ => members@[i as int]));
                        assert(decreases_to!(members@[i as int] => members@[i as int].1));
                        assert(decreases_to!(self => members@[i as int].1));
                    }
                    let c = members[i].1.copy();
                    let k = members[i].0.clone();
                    out.push((k, c));
                    i = i + 1;
                }
                proof {
                    lemma_members_view(out@);
                    lemma_members_view(members@);
                    assert(members_view(out@) =~= members_view(members@));
                }
                Json::Object(out)
            },
        }
    }
}

/// An object built from members given in order.
pub fn object(members: Vec<(String, Json)>) -> (j: Json)
    ensures
        j@ == JsonV::Object(Seq::new(members@.len(), |i: int| (members@[i].0@, members@[i].1@))),
{
    proof {
        lemma_members_view(members@);
        assert(members_view(members@) =~= Seq::new(members@.len(), |i: int| (members@[i].0@, members@[i].1@)));
    }
    Json::Object(members)
}

/// An array of the given items.
pub fn array(items: Vec<Json>) -> (j: Json)
    ensures
        j@ == JsonV::Array(Seq::new(items@.len(), |i: int| items@[i]@)),
{
    proof {
        lemma_items_view(items@);
        assert(items_view(items@) =~= Seq::new(items@.len(), |i: int| items@[i]@));
    }
    Json::Array(items)
}

/// An object of one member.
pub fn object1(k1: &str, v1: Json) -> (j: Json)
    ensures
        j@ == JsonV::Object(seq![(k1@, v1@)]),
{
    let mut m: Vec<(String, Json)> = Vec::new();
    m.push((k1.to_owned(), v1));
    let j = object(m);
    proof {
        assert(Seq::new(m@.len(), |i: int| (m@[i].0@, m@[i].1@)) =~= seq![(k1@, v1@)]);
    }
    j
}

/// An object of two members, in this order.
pub fn object2(k1: &str, v1: Json, k2: &str, v2: Json) -> (j: Json)
    ensures
        j@ == JsonV::Object(seq![(k1@, v1@), (k2@, v2@)]),
{
    let mut m: Vec<(String, Json)> = Vec::new();
    m.push((k1.to_owned(), v1));
    m.push((k2.to_owned(), v2));
    let j = object(m);
    proof {
        assert(Seq::new(m@.len(), |i: int| (m@[i].0@, m@[i].1@)) =~= seq![(k1@, v1@), (k2@, v2@)]);
    }
    j
}

/// A string value.
pub fn string(s: &str) -> (j: Json)
    ensures
        j@ == JsonV::Str(s@),
{
    Json::Str(s.to_owned())
}

/// The empty object `{}`.
pub fn empty_object() -> (j: Json)
    ensures
        j@ == JsonV::Object(Seq::empty()),
{
    let m: Vec<(String, Json)> = Vec::new();
    let j = object(m);
    proof {
        assert(Seq::new(m@.len(), |i: int| (m@[i].0@, m@[i].1@)) =~= Seq::<(Seq<char>, JsonV)>::empty());
    }
    j
}

} // verus!

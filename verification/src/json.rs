//! JSON documents as the balancer reads, builds and forwards them.

use vstd::prelude::*;

verus! {

/// A JSON document as the balancer reads and writes it.
///
/// Numbers that arrive from clients are carried untouched in `Other`; the
/// balancer only creates integers of its own (`Int`, `UInt`).
#[derive(Debug, PartialEq)]
pub enum JsonValue {
    Null,
    Bool(bool),
    Int(i64),
    UInt(u64),
    Str(String),
    Array(Vec<JsonValue>),
    Object(Vec<JsonMember>),
    Other(serde_json::Value),
}

/// One `"key": value` entry of a JSON object.
#[derive(Debug, PartialEq)]
pub struct JsonMember {
    pub key: String,
    pub value: JsonValue,
}

/// The mathematical picture of a JSON document.
pub enum JsonView {
    Null,
    Bool(bool),
    Int(i64),
    UInt(u64),
    Str(Seq<char>),
    Array(Seq<JsonView>),
    Object(Seq<(Seq<char>, JsonView)>),
    Other(serde_json::Value),
}

#[verifier::external_type_specification]
#[verifier::external_body]
pub struct ExJsonText(serde_json::Value);

impl JsonValue {
    pub open spec fn view_of(self) -> JsonView
        decreases self,
    {
        match self {
            JsonValue::Null => JsonView::Null,
            JsonValue::Bool(b) => JsonView::Bool(b),
            JsonValue::Int(n) => JsonView::Int(n),
            JsonValue::UInt(n) => JsonView::UInt(n),
            JsonValue::Str(s) => JsonView::Str(s@),
            JsonValue::Array(items) => JsonView::Array(
                Seq::new(items.len() as nat, |i: int| {
                    if 0 <= i < items.len() { items@[i].view_of() } else { JsonView::Null }
                }),
            ),
            JsonValue::Object(members) => JsonView::Object(
                Seq::new(members.len() as nat, |i: int| {
                    if 0 <= i < members.len() {
                        (members@[i].key@, members@[i].value.view_of())
                    } else {
                        (Seq::empty(), JsonView::Null)
                    }
                }),
            ),
            JsonValue::Other(v) => JsonView::Other(v),
        }
    }
}

impl View for JsonValue {
    type V = JsonView;

    open spec fn view(&self) -> JsonView {
        self.view_of()
    }
}

} // verus!

verus! {

/// The entries of an object, in order, as keys and viewed values.
pub open spec fn entries_of(members: Seq<JsonMember>) -> Seq<(Seq<char>, JsonView)> {
    members.map_values(|m: JsonMember| (m.key@, m.value@))
}

/// No key occurs twice among the entries.
pub open spec fn keys_unique(entries: Seq<(Seq<char>, JsonView)>) -> bool {
    forall|i: int, j: int| 0 <= i < j < entries.len() ==> entries[i].0 != entries[j].0
}

/// The key-to-value mapping that a list of entries denotes (a later entry wins).
pub open spec fn object_map(entries: Seq<(Seq<char>, JsonView)>) -> Map<Seq<char>, JsonView>
    decreases entries.len(),
{
    if entries.len() == 0 {
        Map::empty()
    } else {
        object_map(entries.drop_last()).insert(entries.last().0, entries.last().1)
    }
}

/// Whether some entry has the key `key`.
pub open spec fn has_key(entries: Seq<(Seq<char>, JsonView)>, key: Seq<char>) -> bool {
    exists|i: int| 0 <= i < entries.len() && entries[i].0 == key
}

/// The entries after `object[key] = value`: an existing entry keeps its place and
/// takes the new value; a new key goes to the end.
pub open spec fn entries_set(
    entries: Seq<(Seq<char>, JsonView)>,
    key: Seq<char>,
    value: JsonView,
) -> Seq<(Seq<char>, JsonView)> {
    if has_key(entries, key) {
        let i = choose|i: int| 0 <= i < entries.len() && entries[i].0 == key;
        entries.update(i, (key, value))
    } else {
        entries.push((key, value))
    }
}

impl JsonView {
    /// `value.get(key)`: the member of an object, nothing for any other value.
    pub open spec fn field(self, key: Seq<char>) -> Option<JsonView> {
        match self {
            JsonView::Object(entries) => if object_map(entries).contains_key(key) {
                Some(object_map(entries)[key])
            } else {
                None
            },
            _ => None,
        }
    }

    /// An object whose keys are all distinct.
    pub open spec fn is_object(self) -> bool {
        match self {
            JsonView::Object(entries) => keys_unique(entries),
            _ => false,
        }
    }

    /// `value[key] = new`, on an object or on `null` (which becomes an object).
    pub open spec fn with_field(self, key: Seq<char>, new: JsonView) -> JsonView {
        match self {
            JsonView::Object(entries) => JsonView::Object(entries_set(entries, key, new)),
            _ => JsonView::Object(seq![(key, new)]),
        }
    }

    pub open spec fn as_text(self) -> Option<Seq<char>> {
        match self {
            JsonView::Str(s) => Some(s),
            _ => None,
        }
    }

    pub open spec fn as_flag(self) -> Option<bool> {
        match self {
            JsonView::Bool(b) => Some(b),
            _ => None,
        }
    }
}

pub proof fn lemma_object_map_entry(entries: Seq<(Seq<char>, JsonView)>, i: int)
    requires
        keys_unique(entries),
        0 <= i < entries.len(),
    ensures
        object_map(entries).contains_key(entries[i].0),
        object_map(entries)[entries[i].0] == entries[i].1,
    decreases entries.len(),
{
    if i < entries.len() - 1 {
        lemma_object_map_entry(entries.drop_last(), i);
    }
}

pub proof fn lemma_object_map_absent(entries: Seq<(Seq<char>, JsonView)>, key: Seq<char>)
    requires
        !has_key(entries, key),
    ensures
        !object_map(entries).contains_key(key),
    decreases entries.len(),
{
    if entries.len() > 0 {
        assert(!has_key(entries.drop_last(), key)) by {
            if has_key(entries.drop_last(), key) {
                let i = choose|i: int| 0 <= i < entries.drop_last().len() && entries.drop_last()[i].0 == key;
                assert(entries[i].0 == key);
            }
        }
        lemma_object_map_absent(entries.drop_last(), key);
    }
}

pub proof fn lemma_object_map_update(
    entries: Seq<(Seq<char>, JsonView)>,
    i: int,
    value: JsonView,
)
    requires
        keys_unique(entries),
        0 <= i < entries.len(),
    ensures
        keys_unique(entries.update(i, (entries[i].0, value))),
        object_map(entries.update(i, (entries[i].0, value))) == object_map(entries).insert(
            entries[i].0,
            value,
        ),
    decreases entries.len(),
{
    let updated = entries.update(i, (entries[i].0, value));
    if i == entries.len() - 1 {
        assert(updated.drop_last() =~= entries.drop_last());
        lemma_object_map_absent(entries.drop_last(), entries[i].0);
        assert(object_map(updated) =~= object_map(entries).insert(entries[i].0, value));
    } else {
        assert(updated.drop_last() =~= entries.drop_last().update(i, (entries[i].0, value)));
        lemma_object_map_update(entries.drop_last(), i, value);
        assert(object_map(updated) =~= object_map(entries).insert(entries[i].0, value));
    }
}

/// `entries_set` keeps keys distinct and denotes the map with the key set.
pub proof fn lemma_entries_set(
    entries: Seq<(Seq<char>, JsonView)>,
    key: Seq<char>,
    value: JsonView,
)
    requires
        keys_unique(entries),
    ensures
        keys_unique(entries_set(entries, key, value)),
        object_map(entries_set(entries, key, value)) == object_map(entries).insert(key, value),
{
    if has_key(entries, key) {
        let i = choose|i: int| 0 <= i < entries.len() && entries[i].0 == key;
        lemma_object_map_update(entries, i, value);
    } else {
        let pushed = entries.push((key, value));
        assert(pushed.drop_last() =~= entries);
        assert forall|a: int, b: int| 0 <= a < b < pushed.len() implies pushed[a].0 != pushed[b].0 by {
            if b == entries.len() {
                assert(entries[a].0 != key);
            }
        }
    }
}

} // verus!

verus! {

/// Position of the member named `key`, if there is one.
pub fn find_member(members: &Vec<JsonMember>, key: &str) -> (found: Option<usize>)
    ensures
        match found {
            Some(i) => i < members.len() && members@[i as int].key@ == key@,
            None => !has_key(entries_of(members@), key@),
        },
{
    let mut i: usize = 0;
    while i < members.len()
        invariant
            i <= members.len(),
            forall|j: int| 0 <= j < i ==> members@[j].key@ != key@,
        decreases members.len() - i,
    {
        if crate::text::same_text(members[i].key.as_str(), key) {
            return Some(i);
        }
        i = i + 1;
    }
    assert(!has_key(entries_of(members@), key@)) by {
        if has_key(entries_of(members@), key@) {
            let j = choose|j: int|
                0 <= j < entries_of(members@).len() && entries_of(members@)[j].0 == key@;
            assert(members@[j].key@ == key@);
        }
    }
    None
}

/// The member `"key": value`.
pub fn member(key: &str, value: JsonValue) -> (m: JsonMember)
    ensures
        m.key@ == key@,
        m.value == value,
{
    JsonMember { key: String::from_str(key), value }
}

pub proof fn lemma_object_view(members: Vec<JsonMember>)
    ensures
        JsonValue::Object(members)@ == JsonView::Object(entries_of(members@)),
{
    if let JsonView::Object(e) = JsonValue::Object(members).view_of() {
        assert(e =~= entries_of(members@));
    }
}

pub proof fn lemma_array_view(items: Vec<JsonValue>)
    ensures
        JsonValue::Array(items)@ == JsonView::Array(items@.map_values(|v: JsonValue| v@)),
{
    if let JsonView::Array(e) = JsonValue::Array(items).view_of() {
        assert(e =~= items@.map_values(|v: JsonValue| v@));
    }
}

impl JsonValue {
    /// `value.get(key)`: the member of an object named `key`.
    pub fn get(&self, key: &str) -> (r: Option<&JsonValue>)
        requires
            self@ is Object ==> self@.is_object(),
        ensures
            match r {
                Some(v) => self@.field(key@) == Some(v@),
                None => self@.field(key@) is None,
            },
    {
        match self {
            JsonValue::Object(members) => {
                proof {
                    lemma_object_view(*members);
                }
                match find_member(members, key) {
                    Some(i) => {
                        proof {
                            lemma_object_map_entry(entries_of(members@), i as int);
                        }
                        Some(&members[i].value)
                    },
                    None => {
                        proof {
                            lemma_object_map_absent(entries_of(members@), key@);
                        }
                        None
                    },
                }
            },
            _ => None,
        }
    }

    pub fn as_str(&self) -> (r: Option<&String>)
        ensures
            match r {
                Some(s) => self@.as_text() == Some(s@),
                None => self@.as_text() is None,
            },
    {
        match self {
            JsonValue::Str(s) => Some(s),
            _ => None,
        }
    }

    pub fn as_bool(&self) -> (r: Option<bool>)
        ensures
            r == self@.as_flag(),
    {
        match self {
            JsonValue::Bool(b) => Some(*b),
            _ => None,
        }
    }

    /// `value[key] = new` on an object (or on `null`, which becomes an object).
    pub fn set_field(&mut self, key: String, new: JsonValue)
        requires
            old(self)@.is_object() || old(self)@ is Null,
        ensures
            final(self)@ == old(self)@.with_field(key@, new@),
            final(self)@.is_object(),
    {
        match self {
            JsonValue::Object(members) => {
                proof {
                    lemma_object_view(*members);
                }
                let ghost before = entries_of(members@);
                match find_member(members, key.as_str()) {
                    Some(i) => {
                        let k = members[i].key.clone();
                        members.set(i, JsonMember { key: k, value: new });
                        assert(before[i as int].0 == key@);
                        assert(has_key(before, key@));
                        let ghost j = choose|j: int| 0 <= j < before.len() && before[j].0 == key@;
                        assert(j == i);
                        assert(entries_of(members@) =~= before.update(i as int, (key@, new@)));
                    },
                    None => {
                        members.push(JsonMember { key, value: new });
                        assert(entries_of(members@) =~= before.push((key@, new@)));
                    },
                }
                proof {
                    lemma_object_view(*members);
                    lemma_entries_set(before, key@, new@);
                }
            },
            _ => {
                let mut members = Vec::new();
                members.push(JsonMember { key, value: new });
                proof {
                    lemma_object_view(members);
                    assert(entries_of(members@) =~= seq![(key@, new@)]);
                }
                *self = JsonValue::Object(members);
            },
        }
    }
}

} // verus!

verus! {

/// `Clone` of `serde_json::Value` (derived): the copy is the same value.
#[verifier::external_body]
fn copy_other(v: &serde_json::Value) -> (r: serde_json::Value)
    ensures
        r == *v,
{
    v.clone()
}

impl JsonValue {
    /// A copy of the document.
    pub fn duplicate(&self) -> (r: JsonValue)
        ensures
            r@ == self@,
        decreases self,
    {
        match self {
            JsonValue::Null => JsonValue::Null,
            JsonValue::Bool(b) => JsonValue::Bool(*b),
            JsonValue::Int(n) => JsonValue::Int(*n),
            JsonValue::UInt(n) => JsonValue::UInt(*n),
            JsonValue::Str(s) => JsonValue::Str(s.clone()),
            JsonValue::Array(items) => {
                let mut copy: Vec<JsonValue> = Vec::new();
                let mut i: usize = 0;
                while i < items.len()
                    invariant
                        i <= items.len(),
                        *self == JsonValue::Array(*items),
                        copy@.map_values(|x: JsonValue| x@) == items@.subrange(0, i as int).map_values(
                            |x: JsonValue| x@,
                        ),
                    decreases items.len() - i,
                {
                    let ghost before = copy@;
                    proof {
                        vstd::std_specs::vec::axiom_vec_index_decreases(*items, i as int);
                        assert(decreases_to!(*self => (*self)->Array_0));
                        assert(decreases_to!(*items => items[i as int]));
                        assert(decreases_to!(*self => items@[i as int]));
                    }
                    let item = items[i].duplicate();
                    copy.push(item);
                    assert(copy@.map_values(|x: JsonValue| x@) =~= before.map_values(
                        |x: JsonValue| x@,
                    ).push(items@[i as int]@));
                    assert(items@.subrange(0, i + 1).map_values(|x: JsonValue| x@)
                        =~= items@.subrange(0, i as int).map_values(|x: JsonValue| x@).push(
                        items@[i as int]@,
                    ));
                    i = i + 1;
                }
                assert(items@.subrange(0, i as int) =~= items@);
                proof {
                    lemma_array_view(copy);
                    lemma_array_view(*items);
                }
                JsonValue::Array(copy)
            },
            JsonValue::Object(members) => {
                let mut copy: Vec<JsonMember> = Vec::new();
                let mut i: usize = 0;
                while i < members.len()
                    invariant
                        i <= members.len(),
                        *self == JsonValue::Object(*members),
                        entries_of(copy@) == entries_of(members@.subrange(0, i as int)),
                    decreases members.len() - i,
                {
                    let ghost before = copy@;
                    proof {
                        vstd::std_specs::vec::axiom_vec_index_decreases(*members, i as int);
                        assert(decreases_to!(*self => (*self)->Object_0));
                        assert(decreases_to!(*members => members[i as int]));
                        assert(decreases_to!(members[i as int] => members[i as int].value));
                        assert(decreases_to!(*self => members@[i as int].value));
                    }
                    let value = members[i].value.duplicate();
                    copy.push(JsonMember { key: members[i].key.clone(), value });
                    assert(entries_of(copy@) =~= entries_of(before).push(
                        (members@[i as int].key@, members@[i as int].value@),
                    ));
                    assert(entries_of(members@.subrange(0, i + 1)) =~= entries_of(
                        members@.subrange(0, i as int),
                    ).push((members@[i as int].key@, members@[i as int].value@)));
                    i = i + 1;
                }
                assert(members@.subrange(0, i as int) =~= members@);
                proof {
                    lemma_object_view(copy);
                    lemma_object_view(*members);
                }
                JsonValue::Object(copy)
            },
            JsonValue::Other(v) => JsonValue::Other(copy_other(v)),
        }
    }
}

} // verus!

verus! {

/// The document that `serde_json::from_str::<serde_json::Value>` reads from a
/// text, or nothing when it refuses the text.
pub uninterp spec fn json_text_value(text: Seq<char>) -> Option<serde_json::Value>;

/// `serde_json::from_str::<serde_json::Value>`: the JSON document the text
/// holds, when it is one. The contract names the result and does not spell
/// out JSON's grammar.
#[verifier::external_body]
pub fn parse_json_text(text: &str) -> (v: Option<serde_json::Value>)
    ensures
        v == json_text_value(text@),
{
    serde_json::from_str::<serde_json::Value>(text).ok()
}

} // verus!

verus! {

/// Reading a member back after setting it gives the value set, and every other
/// member reads as before: `value[key] = new` followed by `value.get(key)`.
pub proof fn law_field_read_after_write(
    value: JsonView,
    key: Seq<char>,
    new: JsonView,
    other: Seq<char>,
)
    requires
        value.is_object() || value is Null,
    ensures
        value.with_field(key, new).is_object(),
        value.with_field(key, new).field(key) == Some(new),
        other != key ==> value.with_field(key, new).field(other) == value.field(other),
{
    match value {
        JsonView::Object(entries) => {
            lemma_entries_set(entries, key, new);
        },
        _ => {
            let single = seq![(key, new)];
            assert(single.drop_last() =~= Seq::<(Seq<char>, JsonView)>::empty());
            assert(object_map(single.drop_last()) =~= Map::<Seq<char>, JsonView>::empty());
            assert(single.last() == (key, new));
            assert(object_map(single) =~= Map::<Seq<char>, JsonView>::empty().insert(key, new));
        },
    }
}

} // verus!

verus! {

impl JsonValue {
    /// Whether the document is an object whose keys are all distinct.
    pub fn is_object_with_distinct_keys(&self) -> (r: bool)
        ensures
            r == self@.is_object(),
    {
        match self {
            JsonValue::Object(members) => {
                proof {
                    lemma_object_view(*members);
                }
                let ghost entries = entries_of(members@);
                let mut j: usize = 0;
                while j < members.len()
                    invariant
                        j <= members.len(),
                        entries == entries_of(members@),
                        self@ == JsonView::Object(entries),
                        forall|a: int, b: int| 0 <= a < b < j ==> entries[a].0 != entries[b].0,
                    decreases members.len() - j,
                {
                    let mut i: usize = 0;
                    while i < j
                        invariant
                            i <= j,
                            j < members.len(),
                            entries == entries_of(members@),
                            self@ == JsonView::Object(entries),
                            forall|a: int| 0 <= a < i ==> entries[a].0 != entries[j as int].0,
                        decreases j - i,
                    {
                        if crate::text::same_text(members[i].key.as_str(), members[j].key.as_str()) {
                            assert(entries[i as int].0 == entries[j as int].0);
                            return false;
                        }
                        i = i + 1;
                    }
                    j = j + 1;
                }
                true
            },
            _ => false,
        }
    }
}

} // verus!

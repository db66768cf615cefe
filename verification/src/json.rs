use crate::text::str_eq;
use vstd::prelude::*;

verus! {

/// A JSON document as the controller sends and receives it.
///
/// A number is kept as its decimal text. An object is a list of entries in
/// which a later entry replaces an earlier one that has the same key.
#[derive(Debug, Eq)]
pub enum Json {
    Null,
    Bool(bool),
    Number(String),
    Text(String),
    Array(Vec<Json>),
    Object(Vec<(String, Json)>),
}

/// The mathematical value of a JSON document.
pub enum JsonValue {
    Null,
    Bool(bool),
    Number(Seq<char>),
    Text(Seq<char>),
    Array(Seq<JsonValue>),
    Object(Map<Seq<char>, JsonValue>),
}

impl JsonValue {
    /// The member stored under `key`, if this is an object that has one.
    pub open spec fn field(self, key: Seq<char>) -> Option<JsonValue> {
        match self {
            JsonValue::Object(members) => if members.dom().contains(key) {
                Some(members[key])
            } else {
                None
            },
            _ => None,
        }
    }

    /// The elements, if this is an array.
    pub open spec fn items(self) -> Option<Seq<JsonValue>> {
        match self {
            JsonValue::Array(elements) => Some(elements),
            _ => None,
        }
    }

    /// The characters, if this is a string.
    pub open spec fn text(self) -> Option<Seq<char>> {
        match self {
            JsonValue::Text(chars) => Some(chars),
            _ => None,
        }
    }

    /// The characters of the string stored under `key`, if there is one.
    pub open spec fn text_field(self, key: Seq<char>) -> Option<Seq<char>> {
        match self.field(key) {
            Some(member) => member.text(),
            None => None,
        }
    }

    /// The empty array.
    pub open spec fn empty_array() -> JsonValue {
        JsonValue::Array(Seq::empty())
    }
}

/// The index of the last element of `keys` equal to `key`, or -1 if there is none.
pub open spec fn last_index_of(keys: Seq<Seq<char>>, key: Seq<char>) -> int
    decreases keys.len(),
{
    if keys.len() == 0 {
        -1
    } else if keys.last() == key {
        keys.len() - 1
    } else {
        last_index_of(keys.drop_last(), key)
    }
}

/// The keys of a list of object entries, in order.
pub open spec fn entry_keys(entries: Seq<(String, Json)>) -> Seq<Seq<char>> {
    Seq::new(entries.len(), |i: int| entries[i].0@)
}

impl View for Json {
    type V = JsonValue;

    open spec fn view(&self) -> JsonValue
        decreases self,
    {
        match self {
            Json::Null => JsonValue::Null,
            Json::Bool(b) => JsonValue::Bool(*b),
            Json::Number(digits) => JsonValue::Number(digits@),
            Json::Text(chars) => JsonValue::Text(chars@),
            Json::Array(items) => JsonValue::Array(
                Seq::new(
                    items@.len(),
                    |i: int|
                        if 0 <= i < items@.len() {
                            items@[i].view()
                        } else {
                            JsonValue::Null
                        },
                ),
            ),
            Json::Object(entries) => JsonValue::Object(
                Map::new(
                    |k: Seq<char>| last_index_of(entry_keys(entries@), k) >= 0,
                    |k: Seq<char>|
                        {
                            let i = last_index_of(entry_keys(entries@), k);
                            if 0 <= i < entries@.len() {
                                entries@[i].1.view()
                            } else {
                                JsonValue::Null
                            }
                        },
                ),
            ),
        }
    }
}

/// The values of a list of documents, element by element.
pub open spec fn values_of(items: Seq<Json>) -> Seq<JsonValue> {
    Seq::new(items.len(), |i: int| items[i]@)
}

/// The members that a list of object entries stands for: each key maps to the
/// value of the last entry that carries it.
pub open spec fn fields_of(entries: Seq<(String, Json)>) -> Map<Seq<char>, JsonValue> {
    Map::new(
        |k: Seq<char>| last_index_of(entry_keys(entries), k) >= 0,
        |k: Seq<char>| entries[last_index_of(entry_keys(entries), k)].1@,
    )
}

/// `last_index_of` returns -1 or the position of the last occurrence.
pub proof fn lemma_last_index_of(keys: Seq<Seq<char>>, key: Seq<char>)
    ensures
        -1 <= last_index_of(keys, key) < keys.len(),
        last_index_of(keys, key) >= 0 ==> keys[last_index_of(keys, key)] == key,
        forall|j: int| last_index_of(keys, key) < j < keys.len() ==> keys[j] != key,
    decreases keys.len(),
{
    if keys.len() > 0 && keys.last() != key {
        let shorter = keys.drop_last();
        lemma_last_index_of(shorter, key);
        assert forall|j: int| last_index_of(keys, key) < j < keys.len() implies keys[j] != key by {
            if j < shorter.len() {
                assert(shorter[j] == keys[j]);
            }
        }
    }
}

/// An array's value is the sequence of its elements' values.
pub proof fn lemma_array_view(items: Vec<Json>)
    ensures
        Json::Array(items)@ == JsonValue::Array(values_of(items@)),
{
    assert(Json::Array(items)@.items().unwrap() =~= values_of(items@));
}

/// An object's value is the map that its entries stand for.
pub proof fn lemma_object_view(entries: Vec<(String, Json)>)
    ensures
        Json::Object(entries)@ == JsonValue::Object(fields_of(entries@)),
{
    let members = Json::Object(entries)@->Object_0;
    assert forall|k: Seq<char>| members.dom().contains(k) implies #[trigger] members[k]
        == fields_of(entries@)[k] by {
        lemma_last_index_of(entry_keys(entries@), k);
    }
    assert(members =~= fields_of(entries@));
}

/// Appending an entry inserts its key, replacing what the key stood for.
pub proof fn lemma_fields_push(entries: Seq<(String, Json)>, entry: (String, Json))
    ensures
        fields_of(entries.push(entry)) == fields_of(entries).insert(entry.0@, entry.1@),
{
    let longer = entries.push(entry);
    assert(entry_keys(longer).drop_last() =~= entry_keys(entries));
    assert forall|k: Seq<char>|
        fields_of(longer).dom().contains(k) <==> fields_of(entries).insert(
            entry.0@,
            entry.1@,
        ).dom().contains(k) by {}
    assert forall|k: Seq<char>| fields_of(longer).dom().contains(k) implies #[trigger] fields_of(
        longer,
    )[k] == fields_of(entries).insert(entry.0@, entry.1@)[k] by {
        lemma_last_index_of(entry_keys(entries), k);
    }
}

/// Entries with the same keys and equal values, in the same order, stand for
/// the same members.
pub proof fn lemma_fields_same(left: Seq<(String, Json)>, right: Seq<(String, Json)>)
    requires
        left.len() == right.len(),
        forall|i: int| 0 <= i < left.len() ==> left[i].0@ == right[i].0@ && left[i].1@ == right[i].1@,
    ensures
        fields_of(left) == fields_of(right),
{
    assert(entry_keys(left) =~= entry_keys(right));
    assert forall|k: Seq<char>| fields_of(left).dom().contains(k) implies #[trigger] fields_of(
        left,
    )[k] == fields_of(right)[k] by {
        lemma_last_index_of(entry_keys(left), k);
    }
}

/// A key that occurs in a list of keys has a last occurrence at or after
/// each of its occurrences.
pub proof fn lemma_key_found(keys: Seq<Seq<char>>, i: int)
    requires
        0 <= i < keys.len(),
    ensures
        i <= last_index_of(keys, keys[i]) < keys.len(),
{
    lemma_last_index_of(keys, keys[i]);
}

impl PartialEq for Json {
    /// Whether two documents have the same value. The order of an object's
    /// entries does not count, nor do entries that a later one replaces.
    #[verifier::loop_isolation(false)]
    fn eq(&self, other: &Json) -> (same: bool)
        decreases self,
    {
        match (self, other) {
            (Json::Null, Json::Null) => true,
            (Json::Bool(left), Json::Bool(right)) => *left == *right,
            (Json::Number(left), Json::Number(right)) => *left == *right,
            (Json::Text(left), Json::Text(right)) => *left == *right,
            (Json::Array(left), Json::Array(right)) => {
                proof {
                    lemma_array_view(*left);
                    lemma_array_view(*right);
                }
                if left.len() != right.len() {
                    assert(values_of(left@).len() != values_of(right@).len());
                    return false;
                }
                let mut i: usize = 0;
                while i < left.len()
                    invariant
                        i <= left.len(),
                        left.len() == right.len(),
                        forall|j: int| 0 <= j < i ==> left@[j]@ == right@[j]@,
                    decreases left.len() - i,
                {
                    if !left[i].eq(&right[i]) {
                        assert(values_of(left@)[i as int] != values_of(right@)[i as int]);
                        return false;
                    }
                    i += 1;
                }
                assert(values_of(left@) =~= values_of(right@));
                true
            },
            (Json::Object(left), Json::Object(right)) => {
                proof {
                    lemma_object_view(*left);
                    lemma_object_view(*right);
                }
                let same = members_within(left, right) && keys_within(right, left);
                proof {
                    if same {
                        assert(fields_of(left@) =~= fields_of(right@));
                    }
                }
                same
            },
            _ => false,
        }
    }
}

impl vstd::std_specs::cmp::PartialEqSpecImpl for Json {
    open spec fn obeys_eq_spec() -> bool {
        true
    }

    open spec fn eq_spec(&self, other: &Json) -> bool {
        self@ == other@
    }
}

/// Whether every member of `left` is a member of `right`, with the same
/// value.
pub open spec fn held_by(left: Map<Seq<char>, JsonValue>, right: Map<Seq<char>, JsonValue>) -> bool {
    forall|key: Seq<char>| #[trigger]
        left.dom().contains(key) ==> right.dom().contains(key) && left[key] == right[key]
}

/// Whether every member that `left` stands for is a member that `right`
/// stands for, with the same value.
pub fn members_within(left: &Vec<(String, Json)>, right: &Vec<(String, Json)>) -> (within: bool)
    ensures
        within == held_by(fields_of(left@), fields_of(right@)),
    decreases left,
{
    let ghost keys = entry_keys(left@);
    let mut i: usize = 0;
    while i < left.len()
        invariant
            i <= left.len(),
            keys == entry_keys(left@),
            forall|j: int|
                0 <= j < i ==> fields_of(right@).dom().contains(#[trigger] keys[j]) && fields_of(
                    left@,
                )[keys[j]] == fields_of(right@)[keys[j]],
        decreases left.len() - i,
    {
        let key = left[i].0.as_str();
        proof {
            lemma_key_found(keys, i as int);
        }
        assert(fields_of(left@).dom().contains(keys[i as int]));
        match find_entry(left, key) {
            Some(here) => {
                match find_entry(right, key) {
                    Some(there) => {
                        if !left[here].1.eq(&right[there].1) {
                            return false;
                        }
                    },
                    None => {
                        return false;
                    },
                }
            },
            None => {
                return false;
            },
        }
        i += 1;
    }
    proof {
        assert forall|key: Seq<char>| #[trigger]
            fields_of(left@).dom().contains(key) implies fields_of(right@).dom().contains(key)
            && fields_of(left@)[key] == fields_of(right@)[key] by {
            lemma_last_index_of(keys, key);
        }
    }
    true
}

/// Whether every key that `left` holds is a key that `right` holds.
pub fn keys_within(left: &Vec<(String, Json)>, right: &Vec<(String, Json)>) -> (within: bool)
    ensures
        within == fields_of(left@).dom().subset_of(fields_of(right@).dom()),
{
    let ghost keys = entry_keys(left@);
    let mut i: usize = 0;
    while i < left.len()
        invariant
            i <= left.len(),
            keys == entry_keys(left@),
            forall|j: int| 0 <= j < i ==> fields_of(right@).dom().contains(#[trigger] keys[j]),
        decreases left.len() - i,
    {
        proof {
            lemma_key_found(keys, i as int);
        }
        if find_entry(right, left[i].0.as_str()).is_none() {
            assert(fields_of(left@).dom().contains(keys[i as int]));
            return false;
        }
        i += 1;
    }
    proof {
        assert forall|key: Seq<char>| #[trigger]
            fields_of(left@).dom().contains(key) implies fields_of(right@).dom().contains(key) by {
            lemma_last_index_of(keys, key);
        }
    }
    true
}

impl Clone for Json {
    /// A deep copy: it has the value of the document copied.
    #[verifier::loop_isolation(false)]
    fn clone(&self) -> (copy: Self)
        ensures
            copy@ == self@,
        decreases self,
    {
        match self {
            Json::Null => Json::Null,
            Json::Bool(b) => Json::Bool(*b),
            Json::Number(digits) => Json::Number(digits.clone()),
            Json::Text(chars) => Json::Text(chars.clone()),
            Json::Array(items) => {
                let mut copies: Vec<Json> = Vec::new();
                let mut i: usize = 0;
                while i < items.len()
                    invariant
                        i <= items.len(),
                        copies.len() == i,
                        forall|j: int| 0 <= j < i ==> copies@[j]@ == items@[j]@,
                    decreases items.len() - i,
                {
                    copies.push(items[i].clone());
                    i += 1;
                }
                proof {
                    lemma_array_view(*items);
                    lemma_array_view(copies);
                    assert(values_of(copies@) =~= values_of(items@));
                }
                Json::Array(copies)
            },
            Json::Object(entries) => {
                let copies = clone_entries(entries);
                proof {
                    lemma_object_view(*entries);
                    lemma_object_view(copies);
                }
                Json::Object(copies)
            },
        }
    }
}

impl Json {
    /// The string with the characters of `value`.
    pub fn text(value: &str) -> (document: Json)
        ensures
            document@ == JsonValue::Text(value@),
    {
        Json::Text(String::from_str(value))
    }

    /// The array without elements.
    pub fn empty_array() -> (document: Json)
        ensures
            document@ == JsonValue::empty_array(),
    {
        let items: Vec<Json> = Vec::new();
        proof {
            lemma_array_view(items);
            assert(values_of(items@) =~= Seq::empty());
        }
        Json::Array(items)
    }

    /// The array of the elements given.
    pub fn array(items: Vec<Json>) -> (document: Json)
        ensures
            document@ == JsonValue::Array(values_of(items@)),
    {
        proof {
            lemma_array_view(items);
        }
        Json::Array(items)
    }

    /// The object that the entries given stand for.
    pub fn object(entries: Vec<(String, Json)>) -> (document: Json)
        ensures
            document@ == JsonValue::Object(fields_of(entries@)),
    {
        proof {
            lemma_object_view(entries);
        }
        Json::Object(entries)
    }

    /// The member stored under `key`, if this is an object that has one.
    pub fn get(&self, key: &str) -> (found: Option<&Json>)
        ensures
            match found {
                Some(member) => self@.field(key@) == Some(member@),
                None => self@.field(key@) is None,
            },
    {
        match self {
            Json::Object(entries) => {
                match find_entry(entries, key) {
                    Some(i) => Some(&entries[i].1),
                    None => None,
                }
            },
            _ => None,
        }
    }

    /// The elements, if this is an array.
    pub fn as_array(&self) -> (found: Option<&Vec<Json>>)
        ensures
            match found {
                Some(items) => self@.items() == Some(values_of(items@)),
                None => self@.items() is None,
            },
    {
        match self {
            Json::Array(items) => {
                Some(items)
            },
            _ => None,
        }
    }

    /// The characters, if this is a string.
    pub fn as_str(&self) -> (found: Option<&str>)
        ensures
            match found {
                Some(chars) => self@.text() == Some(chars@),
                None => self@.text() is None,
            },
    {
        match self {
            Json::Text(chars) => Some(chars.as_str()),
            _ => None,
        }
    }
}

/// The list of object entries that stands for no member.
pub fn no_fields() -> (entries: Vec<(String, Json)>)
    ensures
        fields_of(entries@) == Map::<Seq<char>, JsonValue>::empty(),
{
    Vec::new()
}

/// Sets `key` to `value` in a list of object entries: an entry is appended,
/// which replaces what the key stood for.
pub fn set_field(entries: &mut Vec<(String, Json)>, key: &str, value: Json)
    ensures
        fields_of(final(entries)@) == fields_of(old(entries)@).insert(key@, value@),
{
    let entry = (String::from_str(key), value);
    proof {
        lemma_fields_push(entries@, entry);
    }
    entries.push(entry);
}

/// A deep copy of a list of object entries.
pub fn clone_entries(entries: &Vec<(String, Json)>) -> (copies: Vec<(String, Json)>)
    ensures
        copies.len() == entries.len(),
        forall|i: int|
            0 <= i < entries.len() ==> copies@[i].0@ == entries@[i].0@ && copies@[i].1@
                == entries@[i].1@,
        fields_of(copies@) == fields_of(entries@),
    decreases entries,
{
    let mut copies: Vec<(String, Json)> = Vec::new();
    let mut i: usize = 0;
    while i < entries.len()
        invariant
            i <= entries.len(),
            copies.len() == i,
            forall|j: int|
                0 <= j < i ==> copies@[j].0@ == entries@[j].0@ && copies@[j].1@ == entries@[j].1@,
        decreases entries.len() - i,
    {
        let key = entries[i].0.clone();
        let value = entries[i].1.clone();
        copies.push((key, value));
        i += 1;
    }
    proof {
        lemma_fields_same(copies@, entries@);
    }
    copies
}

/// The position of the last entry whose key is `key`.
pub fn find_entry(entries: &Vec<(String, Json)>, key: &str) -> (found: Option<usize>)
    ensures
        match found {
            Some(i) => i < entries.len() && i as int == last_index_of(
                entry_keys(entries@),
                key@,
            ),
            None => last_index_of(entry_keys(entries@), key@) == -1,
        },
{
    let ghost keys = entry_keys(entries@);
    let mut i: usize = entries.len();
    assert(keys.subrange(0, i as int) =~= keys);
    while i > 0
        invariant
            i <= entries.len(),
            keys == entry_keys(entries@),
            last_index_of(keys, key@) == last_index_of(keys.subrange(0, i as int), key@),
        decreases i,
    {
        i -= 1;
        let ghost head = keys.subrange(0, i + 1);
        assert(head.drop_last() =~= keys.subrange(0, i as int));
        if str_eq(entries[i].0.as_str(), key) {
            return Some(i);
        }
    }
    None
}

} // verus!

//! Generic structured values: what a text frame holds before any shape is
//! asked of it.

use vstd::prelude::*;
use crate::decimal::{digit_values, digits_end, lemma_number_of_prefix, number_of};
use crate::text::{chars_of, same_chars};

verus! {

/// Mathematical model of a structured value. A number is held by its decimal
/// text, a record by its entries in the order in which they are stored.
pub enum Json {
    Null,
    Bool(bool),
    Number(Seq<char>),
    Text(Seq<char>),
    List(Seq<Json>),
    Record(Seq<JsonMember>),
}

/// One member of a record.
pub struct JsonMember {
    pub key: Seq<char>,
    pub value: Json,
}

/// The value of the first entry of `entries` whose key is `key`.
pub open spec fn lookup(entries: Seq<JsonMember>, key: Seq<char>) -> Option<Json>
    decreases entries.len(),
{
    if entries.len() == 0 {
        None
    } else if entries[0].key == key {
        Some(entries[0].value)
    } else {
        lookup(entries.drop_first(), key)
    }
}

/// The unsigned integer that `s` writes in plain digits, where it is one that
/// fits in 64 bits.
pub open spec fn unsigned_of_text(s: Seq<char>) -> Option<u64> {
    if s.len() > 0 && digits_end(s, 0) == s.len() && number_of(digit_values(s)) <= u64::MAX {
        Some(number_of(digit_values(s)) as u64)
    } else {
        None
    }
}

impl Json {
    /// The member named `key`, where this value is a record that has one.
    pub open spec fn field(self, key: Seq<char>) -> Option<Json> {
        match self {
            Json::Record(entries) => lookup(entries, key),
            _ => None,
        }
    }

    /// The characters of a text value.
    pub open spec fn text(self) -> Option<Seq<char>> {
        match self {
            Json::Text(s) => Some(s),
            _ => None,
        }
    }

    /// The elements of a list value.
    pub open spec fn items(self) -> Option<Seq<Json>> {
        match self {
            Json::List(items) => Some(items),
            _ => None,
        }
    }

    /// The truth value of a boolean value.
    pub open spec fn flag(self) -> Option<bool> {
        match self {
            Json::Bool(b) => Some(b),
            _ => None,
        }
    }

    /// The unsigned integer of a number value that is one.
    pub open spec fn unsigned(self) -> Option<u64> {
        match self {
            Json::Number(n) => unsigned_of_text(n),
            _ => None,
        }
    }
}

/// A generic structured value.
#[derive(Debug, PartialEq, Eq)]
pub enum WireValue {
    Null,
    Bool(bool),
    /// A number, by its decimal text.
    Number(String),
    String(String),
    Array(Vec<WireValue>),
    /// A record, by its members; a key is looked up from the front.
    Object(Vec<Member>),
}

/// One member of a record.
#[derive(Debug, PartialEq, Eq)]
pub struct Member {
    pub key: String,
    pub value: WireValue,
}

impl View for WireValue {
    type V = Json;

    open spec fn view(&self) -> Json
        decreases self,
    {
        match self {
            WireValue::Null => Json::Null,
            WireValue::Bool(b) => Json::Bool(*b),
            WireValue::Number(n) => Json::Number(n@),
            WireValue::String(s) => Json::Text(s@),
            WireValue::Array(items) => Json::List(
                Seq::new(
                    items@.len(),
                    |i: int|
                        if 0 <= i < items@.len() {
                            items@[i].view()
                        } else {
                            Json::Null
                        },
                ),
            ),
            WireValue::Object(entries) => Json::Record(
                Seq::new(
                    entries@.len(),
                    |i: int|
                        if 0 <= i < entries@.len() {
                            JsonMember { key: entries@[i].key@, value: entries@[i].value.view() }
                        } else {
                            JsonMember { key: Seq::empty(), value: Json::Null }
                        },
                ),
            ),
        }
    }
}

/// The models of a sequence of values.
pub open spec fn views_of(values: Seq<WireValue>) -> Seq<Json> {
    Seq::new(values.len(), |i: int| values[i]@)
}

/// The models of the entries of a record.
pub open spec fn entry_views_of(entries: Seq<Member>) -> Seq<JsonMember> {
    Seq::new(entries.len(), |i: int| JsonMember { key: entries[i].key@, value: entries[i].value@ })
}

/// A list value is modelled by the models of its elements.
pub proof fn lemma_array_view(v: WireValue)
    requires
        v is Array,
    ensures
        v@ == Json::List(views_of(v->Array_0@)),
{
    let items = v@->List_0;
    assert(v.view() == Json::List(items));
    assert(items =~= views_of(v->Array_0@));
}

/// A record value is modelled by its entries, each by its key and the model
/// of its value.
pub proof fn lemma_object_view(v: WireValue)
    requires
        v is Object,
    ensures
        v@ == Json::Record(entry_views_of(v->Object_0@)),
{
    let entries = v@->Record_0;
    assert(v.view() == Json::Record(entries));
    assert(entries =~= entry_views_of(v->Object_0@));
}

/// Reads an unsigned integer written in plain digits.
pub fn unsigned_from_text(text: &str) -> (r: Option<u64>)
    ensures
        r == unsigned_of_text(text@),
{
    let s = chars_of(text);
    if s.len() == 0 {
        return None;
    }
    let mut acc: u64 = 0;
    let mut i: usize = 0;
    let ghost ds = digit_values(s@);
    while i < s.len()
        invariant
            i <= s.len(),
            ds == digit_values(s@),
            s@ == text@,
            digits_end(s@, 0) == digits_end(s@, i as int),
            acc == number_of(ds.take(i as int)),
        decreases s.len() - i,
    {
        let c = s[i];
        if !('0' <= c && c <= '9') {
            assert(digits_end(s@, i as int) == i);
            return None;
        }
        let d: u64 = (c as u32 - 48) as u64;
        assert(ds.take(i + 1).drop_last() == ds.take(i as int));
        assert(number_of(ds.take(i + 1)) == acc * 10 + d);
        if acc > (u64::MAX - d) / 10 {
            proof {
                assert(acc * 10 + d > u64::MAX);
                lemma_number_of_prefix(ds, i + 1);
            }
            return None;
        }
        acc = acc * 10 + d;
        i += 1;
    }
    assert(ds.take(s.len() as int) == ds);
    Some(acc)
}

impl WireValue {
    /// The member named `key`, where this value is a record that has one.
    pub fn get(&self, key: &str) -> (r: Option<&WireValue>)
        ensures
            match r {
                Some(v) => self@.field(key@) == Some(v@),
                None => self@.field(key@).is_none(),
            },
    {
        match self {
            WireValue::Object(entries) => {
                let ghost model = entry_views_of(entries@);
                proof {
                    lemma_object_view(*self);
                }
                let wanted = chars_of(key);
                assert(model.skip(0) == model);
                let mut i: usize = 0;
                while i < entries.len()
                    invariant
                        i <= entries.len(),
                        wanted@ == key@,
                        model == entry_views_of(entries@),
                        self@ == Json::Record(model),
                        lookup(model, key@) == lookup(model.skip(i as int), key@),
                    decreases entries.len() - i,
                {
                    let name = chars_of(entries[i].key.as_str());
                    assert(model.skip(i as int)[0] == model[i as int]);
                    if same_chars(&name, &wanted) {
                        return Some(&entries[i].value);
                    }
                    assert(model.skip(i as int).drop_first() == model.skip(i + 1));
                    i += 1;
                }
                None
            },
            _ => None,
        }
    }

    /// The characters of a text value.
    pub fn as_str(&self) -> (r: Option<&str>)
        ensures
            match r {
                Some(s) => self@.text() == Some(s@),
                None => self@.text().is_none(),
            },
    {
        match self {
            WireValue::String(s) => Some(s.as_str()),
            _ => None,
        }
    }

    /// The decimal text of a number value.
    pub fn as_number_text(&self) -> (r: Option<&str>)
        ensures
            match r {
                Some(s) => self@ == Json::Number(s@),
                None => !(self@ is Number),
            },
    {
        match self {
            WireValue::Number(n) => Some(n.as_str()),
            _ => None,
        }
    }

    /// The unsigned integer of a number value that is one.
    pub fn as_u64(&self) -> (r: Option<u64>)
        ensures
            r == self@.unsigned(),
    {
        match self {
            WireValue::Number(n) => unsigned_from_text(n.as_str()),
            _ => None,
        }
    }

    /// The truth value of a boolean value.
    pub fn as_bool(&self) -> (r: Option<bool>)
        ensures
            r == self@.flag(),
    {
        match self {
            WireValue::Bool(b) => Some(*b),
            _ => None,
        }
    }

    /// The elements of a list value.
    pub fn as_array(&self) -> (r: Option<&Vec<WireValue>>)
        ensures
            match r {
                Some(items) => self@.items() == Some(views_of(items@)),
                None => self@.items().is_none(),
            },
    {
        match self {
            WireValue::Array(items) => {
                proof {
                    lemma_array_view(*self);
                }
                Some(items)
            },
            _ => None,
        }
    }

    /// Whether this value is a record.
    pub fn is_object(&self) -> (b: bool)
        ensures
            b == (self@ is Record),
    {
        match self {
            WireValue::Object(_) => true,
            _ => false,
        }
    }
}

/// A copy of the members of a record.
fn copy_members(members: &Vec<Member>) -> (out: Vec<Member>)
    ensures
        entry_views_of(out@) == entry_views_of(members@),
    decreases members,
{
    let mut out: Vec<Member> = Vec::new();
    let mut i: usize = 0;
    while i < members.len()
        invariant
            i <= members.len(),
            out@.len() == i,
            forall|j: int|
                0 <= j < i ==> out@[j].key@ == members@[j].key@ && out@[j].value@
                    == members@[j].value@,
        decreases members.len() - i,
    {
        let value = members[i].value.clone();
        out.push(Member { key: members[i].key.clone(), value });
        i += 1;
    }
    assert(entry_views_of(out@) =~= entry_views_of(members@));
    out
}

/// A copy of the elements of a list.
fn copy_items(items: &Vec<WireValue>) -> (out: Vec<WireValue>)
    ensures
        views_of(out@) == views_of(items@),
    decreases items,
{
    let mut out: Vec<WireValue> = Vec::new();
    let mut i: usize = 0;
    while i < items.len()
        invariant
            i <= items.len(),
            out@.len() == i,
            forall|j: int| 0 <= j < i ==> out@[j]@ == items@[j]@,
        decreases items.len() - i,
    {
        out.push(items[i].clone());
        i += 1;
    }
    assert(views_of(out@) =~= views_of(items@));
    out
}

impl Clone for WireValue {
    /// A copy with the same model.
    fn clone(&self) -> (out: Self)
        ensures
            out@ == self@,
        decreases self,
    {
        match self {
            WireValue::Null => WireValue::Null,
            WireValue::Bool(b) => WireValue::Bool(*b),
            WireValue::Number(n) => WireValue::Number(n.clone()),
            WireValue::String(s) => WireValue::String(s.clone()),
            WireValue::Array(items) => {
                let out = WireValue::Array(copy_items(items));
                proof {
                    lemma_array_view(*self);
                    lemma_array_view(out);
                }
                out
            },
            WireValue::Object(members) => {
                let out = WireValue::Object(copy_members(members));
                proof {
                    lemma_object_view(*self);
                    lemma_object_view(out);
                }
                out
            },
        }
    }
}

/// `serde_json::Value`, the tree that `serde_json` reads a document into. It
/// is carried from the parser to `lift` and never looked into.
#[verifier::external_type_specification]
#[verifier::external_body]
pub struct ExJsonValue(serde_json::Value);

/// What a `serde_json::Value` holds: its variant and, below it, its numbers
/// by the text that `serde_json` displays for them, and the members of its
/// objects in the order in which `serde_json` iterates them.
pub uninterp spec fn json_of(value: serde_json::Value) -> Json;

/// What `serde_json` reads from a text: what the value of the document
/// holds, or the complaint of the parser where the text is no JSON document.
pub uninterp spec fn json_document(text: Seq<char>) -> Result<Json, Seq<char>>;

/// `serde_json::from_str` at type `serde_json::Value`. The contract claims
/// only that the outcome is a function of the text: the value read, or the
/// error of the parser as it displays it.
#[verifier::external_body]
pub(crate) fn read_json(text: &str) -> (r: Result<serde_json::Value, String>)
    ensures
        match r {
            Ok(value) => json_document(text@) == Ok::<Json, Seq<char>>(json_of(value)),
            Err(complaint) => json_document(text@) == Err::<Json, Seq<char>>(complaint@),
        },
{
    serde_json::from_str::<serde_json::Value>(text).map_err(|e| e.to_string())
}

/// Moves a `serde_json::Value` into a `WireValue`, variant by variant and
/// field by field; a number goes through `Display` of `serde_json::Number`.
/// The contract claims that the result holds what the value held.
#[verifier::external_body]
pub(crate) fn lift(value: serde_json::Value) -> (out: WireValue)
    ensures
        out@ == json_of(value),
{
    match value {
        serde_json::Value::Null => WireValue::Null,
        serde_json::Value::Bool(b) => WireValue::Bool(b),
        serde_json::Value::Number(n) => WireValue::Number(n.to_string()),
        serde_json::Value::String(s) => WireValue::String(s),
        serde_json::Value::Array(a) => WireValue::Array(a.into_iter().map(lift).collect()),
        serde_json::Value::Object(m) => WireValue::Object(
            m.into_iter().map(|(key, v)| Member { key, value: lift(v) }).collect(),
        ),
    }
}

/// How `serde_json` writes a text as a JSON string: the quotes, and between
/// them the characters with those escaped that JSON does not take as they
/// are.
pub uninterp spec fn json_string_literal(s: Seq<char>) -> Seq<char>;

/// `Display` of `serde_json::Value::String`, the compact JSON form of one
/// string. The contract claims only that the outcome is a function of the
/// characters.
#[verifier::external_body]
pub(crate) fn write_json_string(s: &str) -> (out: String)
    ensures
        out@ == json_string_literal(s@),
{
    serde_json::Value::String(s.to_owned()).to_string()
}

} // verus!

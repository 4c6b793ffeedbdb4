//! Loosely typed documents, as the services send them.
//!
//! A [`JsonValue`] holds a parsed document as plain data. The functions of
//! this library that read such documents navigate them with the accessors
//! below; every accessor answers "nothing" where the document has another
//! shape than asked for.

use vstd::prelude::*;
use vstd::string::StringExecFns;
use crate::common::text::{str_eq, texts};

verus! {

/// A number of a document.
#[derive(Clone, Debug)]
pub enum JsonNumber {
    /// An integer that is not negative.
    Unsigned(u64),
    /// A negative integer.
    Negative(i64),
    /// Any other number, by its decimal text.
    Other(String),
}

/// A document or a part of one.
#[derive(Debug)]
pub enum JsonValue {
    Null,
    Bool(bool),
    Number(JsonNumber),
    String(String),
    Array(Vec<JsonValue>),
    /// The entries of an object, each a name and a value, in the order in
    /// which they are walked; no name occurs twice (`entry_names_distinct`,
    /// and `well_formed` for a whole document).
    Object(Vec<(String, JsonValue)>),
}

/// The value of the first entry named `key` at or after index `from`.
pub open spec fn entry_from(entries: Seq<(String, JsonValue)>, key: Seq<char>, from: int) -> Option<
    JsonValue,
>
    decreases entries.len() - from,
{
    if from < 0 || from >= entries.len() {
        None
    } else if entries[from].0@ == key {
        Some(entries[from].1)
    } else {
        entry_from(entries, key, from + 1)
    }
}

/// No two entries have the same name.
pub open spec fn entry_names_distinct(entries: Seq<(String, JsonValue)>) -> bool {
    forall|i: int, j: int| 0 <= i < j < entries.len() ==> entries[i].0@ != entries[j].0@
}

/// Among entries with distinct names, the entry of a name is the one that
/// a lookup by the name finds.
pub proof fn lemma_entry_of_name(entries: Seq<(String, JsonValue)>, key: Seq<char>, at: int)
    requires
        entry_names_distinct(entries),
        0 <= at < entries.len(),
        entries[at].0@ == key,
    ensures
        entry_from(entries, key, 0) == Some(entries[at].1),
{
    lemma_entry_from(entries, key, 0, at);
}

proof fn lemma_entry_from(entries: Seq<(String, JsonValue)>, key: Seq<char>, from: int, at: int)
    requires
        entry_names_distinct(entries),
        0 <= from <= at < entries.len(),
        entries[at].0@ == key,
    ensures
        entry_from(entries, key, from) == Some(entries[at].1),
    decreases at - from,
{
    if from < at {
        lemma_entry_from(entries, key, from + 1, at);
    }
}

/// What a lookup finds is one of the entries.
pub proof fn lemma_entry_from_is_entry(
    entries: Seq<(String, JsonValue)>,
    key: Seq<char>,
    from: int,
)
    requires
        0 <= from,
    ensures
        entry_from(entries, key, from) matches Some(found) ==> exists|at: int|
            from <= at < entries.len() && (#[trigger] entries[at]).0@ == key && entries[at].1
                == found,
    decreases entries.len() - from,
{
    if from < entries.len() && entries[from].0@ != key {
        lemma_entry_from_is_entry(entries, key, from + 1);
    }
}

/// Every part of a well-formed document is well formed: the entry of a
/// name is.
pub proof fn lemma_field_well_formed(value: JsonValue, key: Seq<char>)
    requires
        value.well_formed(),
    ensures
        value.field(key) matches Some(inner) ==> inner.well_formed(),
{
    if let JsonValue::Object(entries) = value {
        lemma_entry_from_is_entry(entries@, key, 0);
    }
}

/// A document has another shape than the function that reads it needs: a
/// field is missing or holds a value of another type.
#[derive(Clone, Copy, Debug, PartialEq, Eq, Structural)]
pub struct MalformedDocument;

/// Every element is a string.
pub open spec fn all_text(items: Seq<JsonValue>) -> bool {
    forall|i: int| 0 <= i < items.len() ==> (#[trigger] items[i]).text() is Some
}

/// The texts of the elements, where every element is a string.
pub open spec fn element_texts(items: Seq<JsonValue>) -> Seq<Seq<char>> {
    Seq::new(items.len(), |i: int| items[i].text()->0)
}

impl JsonValue {
    /// A document is well formed if no object in it, at any depth, has two
    /// entries of the same name.
    pub open spec fn well_formed(self) -> bool
        decreases self,
    {
        match self {
            JsonValue::Array(items) => forall|i: int|
                0 <= i < items@.len() ==> (#[trigger] items@[i]).well_formed(),
            JsonValue::Object(entries) => entry_names_distinct(entries@) && forall|i: int|
                0 <= i < entries@.len() ==> (#[trigger] entries@[i]).1.well_formed(),
            _ => true,
        }
    }

    /// The entry named `key`, if this is an object that has one.
    pub open spec fn field(self, key: Seq<char>) -> Option<JsonValue> {
        match self {
            JsonValue::Object(entries) => entry_from(entries@, key, 0),
            _ => None,
        }
    }

    /// The entry named `second` of the entry named `first`.
    pub open spec fn field2(self, first: Seq<char>, second: Seq<char>) -> Option<JsonValue> {
        match self.field(first) {
            Some(inner) => inner.field(second),
            None => None,
        }
    }

    /// The entry named `third` of the entry named `second` of the entry
    /// named `first`.
    pub open spec fn field3(self, first: Seq<char>, second: Seq<char>, third: Seq<char>) -> Option<
        JsonValue,
    > {
        match self.field2(first, second) {
            Some(inner) => inner.field(third),
            None => None,
        }
    }

    /// The text, if this is a string.
    pub open spec fn text(self) -> Option<Seq<char>> {
        match self {
            JsonValue::String(s) => Some(s@),
            _ => None,
        }
    }

    /// The elements, if this is an array.
    pub open spec fn elements(self) -> Option<Seq<JsonValue>> {
        match self {
            JsonValue::Array(items) => Some(items@),
            _ => None,
        }
    }

    /// The entries, if this is an object.
    pub open spec fn entries(self) -> Option<Seq<(String, JsonValue)>> {
        match self {
            JsonValue::Object(entries) => Some(entries@),
            _ => None,
        }
    }

    /// The number, if this is an integer that is not negative.
    pub open spec fn unsigned(self) -> Option<u64> {
        match self {
            JsonValue::Number(JsonNumber::Unsigned(n)) => Some(n),
            _ => None,
        }
    }

    /// The number, if this is an integer that fits in 64 bits with a sign.
    pub open spec fn signed(self) -> Option<i64> {
        match self {
            JsonValue::Number(JsonNumber::Unsigned(n)) if n <= i64::MAX => Some(n as i64),
            JsonValue::Number(JsonNumber::Negative(n)) => Some(n),
            _ => None,
        }
    }

    /// The truth value, if this is one.
    pub open spec fn truth(self) -> Option<bool> {
        match self {
            JsonValue::Bool(b) => Some(b),
            _ => None,
        }
    }

    /// The text of the entry named `key`, if there is one and it is a
    /// string.
    pub open spec fn field_text(self, key: Seq<char>) -> Option<Seq<char>> {
        match self.field(key) {
            Some(inner) => inner.text(),
            None => None,
        }
    }

    /// Returns the entry named `key`, if this is an object that has one.
    pub fn get(&self, key: &str) -> (found: Option<&JsonValue>)
        ensures
            found is Some == self.field(key@) is Some,
            found matches Some(inner) ==> Some(*inner) == self.field(key@),
    {
        match self {
            JsonValue::Object(entries) => {
                let mut i: usize = 0;
                while i < entries.len()
                    invariant
                        i <= entries.len(),
                        self.field(key@) == entry_from(entries@, key@, 0),
                        entry_from(entries@, key@, 0) == entry_from(entries@, key@, i as int),
                    decreases entries.len() - i,
                {
                    if str_eq(entries[i].0.as_str(), key) {
                        return Some(&entries[i].1);
                    }
                    i = i + 1;
                }
                None
            },
            _ => None,
        }
    }

    /// Returns the entry named `second` of the entry named `first`.
    pub fn get2(&self, first: &str, second: &str) -> (found: Option<&JsonValue>)
        ensures
            found is Some == self.field2(first@, second@) is Some,
            found matches Some(inner) ==> Some(*inner) == self.field2(first@, second@),
    {
        match self.get(first) {
            Some(inner) => inner.get(second),
            None => None,
        }
    }

    /// Returns the entry named `third` of the entry named `second` of the
    /// entry named `first`.
    pub fn get3(&self, first: &str, second: &str, third: &str) -> (found: Option<&JsonValue>)
        ensures
            found is Some == self.field3(first@, second@, third@) is Some,
            found matches Some(inner) ==> Some(*inner) == self.field3(first@, second@, third@),
    {
        match self.get2(first, second) {
            Some(inner) => inner.get(third),
            None => None,
        }
    }

    /// Returns the text, if this is a string.
    pub fn as_str(&self) -> (text: Option<&str>)
        ensures
            text is Some == self.text() is Some,
            text matches Some(t) ==> Some(t@) == self.text(),
    {
        match self {
            JsonValue::String(s) => Some(s.as_str()),
            _ => None,
        }
    }

    /// Returns the elements, if this is an array.
    pub fn as_array(&self) -> (items: Option<&Vec<JsonValue>>)
        ensures
            items is Some == self.elements() is Some,
            items matches Some(list) ==> Some(list@) == self.elements(),
    {
        match self {
            JsonValue::Array(items) => Some(items),
            _ => None,
        }
    }

    /// Returns the entries, if this is an object.
    pub fn as_object(&self) -> (entries: Option<&Vec<(String, JsonValue)>>)
        ensures
            entries is Some == self.entries() is Some,
            entries matches Some(list) ==> Some(list@) == self.entries(),
    {
        match self {
            JsonValue::Object(entries) => Some(entries),
            _ => None,
        }
    }

    /// Returns the number, if this is an integer that is not negative.
    pub fn as_u64(&self) -> (n: Option<u64>)
        ensures
            n == self.unsigned(),
    {
        match self {
            JsonValue::Number(JsonNumber::Unsigned(n)) => Some(*n),
            _ => None,
        }
    }

    /// Returns the number, if this is an integer that fits in 64 bits with
    /// a sign.
    pub fn as_i64(&self) -> (n: Option<i64>)
        ensures
            n == self.signed(),
    {
        match self {
            JsonValue::Number(JsonNumber::Unsigned(n)) => {
                if *n <= 0x7fff_ffff_ffff_ffff {
                    Some(*n as i64)
                } else {
                    None
                }
            },
            JsonValue::Number(JsonNumber::Negative(n)) => Some(*n),
            _ => None,
        }
    }

    /// Returns the truth value, if this is one.
    pub fn as_bool(&self) -> (b: Option<bool>)
        ensures
            b == self.truth(),
    {
        match self {
            JsonValue::Bool(b) => Some(*b),
            _ => None,
        }
    }

    /// Returns the text of the entry named `key`, if there is one and it is
    /// a string.
    pub fn get_str(&self, key: &str) -> (text: Option<&str>)
        ensures
            text is Some == self.field_text(key@) is Some,
            text matches Some(t) ==> Some(t@) == self.field_text(key@),
    {
        match self.get(key) {
            Some(inner) => inner.as_str(),
            None => None,
        }
    }
}

/// Returns the texts of the elements, or nothing if an element is not a
/// string.
pub fn strings_of(items: &Vec<JsonValue>) -> (list: Option<Vec<String>>)
    ensures
        list is Some == all_text(items@),
        list matches Some(strings) ==> texts(strings@) == element_texts(items@),
{
    let mut strings: Vec<String> = Vec::new();
    let mut i: usize = 0;
    while i < items.len()
        invariant
            i <= items.len(),
            forall|j: int| 0 <= j < i ==> (#[trigger] items[j]).text() is Some,
            texts(strings@) =~= element_texts(items@).subrange(0, i as int),
        decreases items.len() - i,
    {
        match items[i].as_str() {
            Some(text) => {
                let ghost before = texts(strings@);
                strings.push(String::from_str(text));
                assert(texts(strings@) =~= before.push(text@));
                assert(element_texts(items@).subrange(0, i + 1) =~= element_texts(
                    items@,
                ).subrange(0, i as int).push(text@));
            },
            None => {
                return None;
            },
        }
        i = i + 1;
    }
    assert(element_texts(items@).subrange(0, i as int) =~= element_texts(items@));
    Some(strings)
}

/// The text of an optional string.
pub open spec fn optional_text(text: Option<String>) -> Option<Seq<char>> {
    match text {
        Some(t) => Some(t@),
        None => None,
    }
}

/// The text of a value that may be missing, but must be a string if it is
/// there.
pub open spec fn text_if_present(value: Option<JsonValue>) -> Result<
    Option<Seq<char>>,
    MalformedDocument,
> {
    match value {
        Some(inner) => match inner.text() {
            Some(text) => Ok(Some(text)),
            None => Err(MalformedDocument),
        },
        None => Ok(None),
    }
}

/// The value behind an optional reference.
pub open spec fn referred(value: Option<&JsonValue>) -> Option<JsonValue> {
    match value {
        Some(inner) => Some(*inner),
        None => None,
    }
}

/// Returns the text of a value that may be missing, but must be a string if
/// it is there.
pub fn string_if_present(value: Option<&JsonValue>) -> (text: Result<
    Option<String>,
    MalformedDocument,
>)
    ensures
        text is Ok == text_if_present(referred(value)) is Ok,
        text matches Ok(found) ==> text_if_present(referred(value)) == Ok::<
            Option<Seq<char>>,
            MalformedDocument,
        >(optional_text(found)),
{
    match value {
        Some(inner) => match inner.as_str() {
            Some(text) => Ok(Some(String::from_str(text))),
            None => Err(MalformedDocument),
        },
        None => Ok(None),
    }
}

/// Every element has an entry named `key` that is a string.
pub open spec fn all_have_text(items: Seq<JsonValue>, key: Seq<char>) -> bool {
    forall|i: int| 0 <= i < items.len() ==> (#[trigger] items[i]).field_text(key) is Some
}

/// The texts of the entries named `key` of the elements, where every
/// element has one.
pub open spec fn field_texts(items: Seq<JsonValue>, key: Seq<char>) -> Seq<Seq<char>> {
    Seq::new(items.len(), |i: int| items[i].field_text(key)->0)
}

/// Returns the texts of the entries named `key` of the elements, or nothing
/// if an element has no such entry or it is not a string.
pub fn field_strings_of(items: &Vec<JsonValue>, key: &str) -> (list: Option<Vec<String>>)
    ensures
        list is Some == all_have_text(items@, key@),
        list matches Some(strings) ==> texts(strings@) == field_texts(items@, key@),
{
    let mut strings: Vec<String> = Vec::new();
    let mut i: usize = 0;
    while i < items.len()
        invariant
            i <= items.len(),
            forall|j: int| 0 <= j < i ==> (#[trigger] items[j]).field_text(key@) is Some,
            texts(strings@) =~= field_texts(items@, key@).subrange(0, i as int),
        decreases items.len() - i,
    {
        match items[i].get_str(key) {
            Some(text) => {
                let ghost before = texts(strings@);
                strings.push(String::from_str(text));
                assert(texts(strings@) =~= before.push(text@));
                assert(field_texts(items@, key@).subrange(0, i + 1) =~= field_texts(
                    items@,
                    key@,
                ).subrange(0, i as int).push(text@));
            },
            None => {
                return None;
            },
        }
        i = i + 1;
    }
    assert(field_texts(items@, key@).subrange(0, i as int) =~= field_texts(items@, key@));
    Some(strings)
}

/// The first element, at or after `from`, whose entry named `key` is the
/// text `wanted`, looking at the elements in order; an error if an element
/// met on the way has no text under `key`.
pub open spec fn first_with_text(
    items: Seq<JsonValue>,
    key: Seq<char>,
    wanted: Seq<char>,
    from: int,
) -> Result<Option<JsonValue>, MalformedDocument>
    decreases items.len() - from,
{
    if from < 0 || from >= items.len() {
        Ok(None)
    } else {
        match items[from].field_text(key) {
            None => Err(MalformedDocument),
            Some(text) => if text == wanted {
                Ok(Some(items[from]))
            } else {
                first_with_text(items, key, wanted, from + 1)
            },
        }
    }
}

/// Returns the first element whose entry named `key` is the text `wanted`.
pub fn find_with_text<'a>(items: &'a Vec<JsonValue>, key: &str, wanted: &str) -> (found: Result<
    Option<&'a JsonValue>,
    MalformedDocument,
>)
    ensures
        found is Ok == first_with_text(items@, key@, wanted@, 0) is Ok,
        found matches Ok(inner) ==> first_with_text(items@, key@, wanted@, 0) == Ok::<
            Option<JsonValue>,
            MalformedDocument,
        >(referred(inner)),
{
    let mut i: usize = 0;
    while i < items.len()
        invariant
            i <= items.len(),
            first_with_text(items@, key@, wanted@, 0) == first_with_text(
                items@,
                key@,
                wanted@,
                i as int,
            ),
        decreases items.len() - i,
    {
        match items[i].get_str(key) {
            Some(text) => {
                if str_eq(text, wanted) {
                    return Ok(Some(&items[i]));
                }
            },
            None => {
                return Err(MalformedDocument);
            },
        }
        i = i + 1;
    }
    Ok(None)
}

} // verus!

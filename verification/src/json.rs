//! JSON documents as plain values, and the readers that take them apart.

use crate::text::{decimal, parse_decimal};
use vstd::prelude::*;
use vstd::string::*;

verus! {

/// `serde_json::Value`, carried as it comes from the parser: nothing is
/// claimed of what is inside.
#[verifier::external_type_specification]
#[verifier::external_body]
pub struct ExValue(serde_json::Value);

/// A JSON document. A number is kept as the text that writes it, the members
/// of an object as pairs of name and document.
pub enum Json {
    Null,
    Bool(bool),
    Number(String),
    Text(String),
    Array(Vec<Json>),
    Object(Vec<(String, Json)>),
}

/// The mathematical model of a `Json`.
pub enum JsonView {
    Null,
    Bool(bool),
    Number(Seq<char>),
    Text(Seq<char>),
    Array(Seq<JsonView>),
    Object(Seq<(Seq<char>, JsonView)>),
}

/// The model of a document: that of each item and member, in their order.
pub open spec fn json_view(document: &Json) -> JsonView
    decreases document,
{
    match document {
        Json::Null => JsonView::Null,
        Json::Bool(b) => JsonView::Bool(*b),
        Json::Number(s) => JsonView::Number(s@),
        Json::Text(s) => JsonView::Text(s@),
        Json::Array(items) => JsonView::Array(
            Seq::new(
                items.len() as nat,
                |i: int|
                    if 0 <= i < items.len() {
                        json_view(&items[i])
                    } else {
                        JsonView::Null
                    },
            ),
        ),
        Json::Object(fields) => JsonView::Object(
            Seq::new(
                fields.len() as nat,
                |i: int|
                    if 0 <= i < fields.len() {
                        (fields[i].0@, json_view(&fields[i].1))
                    } else {
                        (Seq::empty(), JsonView::Null)
                    },
            ),
        ),
    }
}

impl View for Json {
    type V = JsonView;

    open spec fn view(&self) -> JsonView {
        json_view(self)
    }
}

/// The document tree that `serde_json::from_str` reads from `text`, where it
/// accepts `text`.
pub uninterp spec fn parsed_value(text: Seq<char>) -> Option<serde_json::Value>;

/// The document that holds what a tree of `serde_json` holds.
pub uninterp spec fn value_json(value: serde_json::Value) -> JsonView;

/// The JSON string literal that `serde_json::to_string` writes for `text`.
pub uninterp spec fn json_quoted(text: Seq<char>) -> Seq<char>;

/// Calls `serde_json::from_str` for a `serde_json::Value`, and gives `None`
/// where it reports an error. The contract claims only that the outcome is a
/// function of the text: whether the text is accepted, and the tree that is
/// read from it.
#[verifier::external_body]
fn value_from_text(text: &str) -> (res: Option<serde_json::Value>)
    ensures
        res == parsed_value(text@),
{
    serde_json::from_str::<serde_json::Value>(text).ok()
}

/// Moves the content of a `serde_json::Value` into a `Json`, variant by
/// variant; a number becomes the text that `serde_json::Number` displays. The
/// contract claims only that the result is a function of the tree.
#[verifier::external_body]
fn json_from_value(value: serde_json::Value) -> (res: Json)
    ensures
        res@ == value_json(value),
{
    match value {
        serde_json::Value::Null => Json::Null,
        serde_json::Value::Bool(b) => Json::Bool(b),
        serde_json::Value::Number(n) => Json::Number(n.to_string()),
        serde_json::Value::String(s) => Json::Text(s),
        serde_json::Value::Array(items) => Json::Array(items.into_iter().map(json_from_value).collect()),
        serde_json::Value::Object(members) => Json::Object(
            members.into_iter().map(|(name, member)| (name, json_from_value(member))).collect(),
        ),
    }
}

/// Calls `serde_json::to_string` on a string slice, which writes it as a JSON
/// string literal, quotes and escapes included. The contract claims only that
/// the literal is a function of the text.
#[verifier::external_body]
pub(crate) fn quoted(text: &str) -> (res: String)
    ensures
        res@ == json_quoted(text@),
{
    serde_json::to_string(text).unwrap_or_default()
}

/// The document that `text` writes, if it is a JSON text.
pub open spec fn parsed(text: Seq<char>) -> Option<JsonView> {
    match parsed_value(text) {
        Some(value) => Some(value_json(value)),
        None => None,
    }
}

/// The position of the first member of `fields` named `key`, or the length
/// of `fields` if there is none.
pub open spec fn field_index(fields: Seq<(Seq<char>, JsonView)>, key: Seq<char>) -> int
    decreases fields.len(),
{
    if fields.len() == 0 {
        0
    } else if fields[0].0 == key {
        0
    } else {
        1 + field_index(fields.drop_first(), key)
    }
}

/// `field_index` is within bounds, and no member before it is named `key`.
pub proof fn lemma_field_index_bounds(fields: Seq<(Seq<char>, JsonView)>, key: Seq<char>)
    ensures
        0 <= field_index(fields, key) <= fields.len(),
        forall|j: int| 0 <= j < field_index(fields, key) ==> (#[trigger] fields[j]).0 != key,
        field_index(fields, key) < fields.len() ==> fields[field_index(fields, key)].0 == key,
    decreases fields.len(),
{
    if fields.len() > 0 && fields[0].0 != key {
        let rest = fields.drop_first();
        lemma_field_index_bounds(rest, key);
        assert forall|j: int| 0 <= j < field_index(fields, key) implies (#[trigger] fields[j]).0
            != key by {
            if j > 0 {
                assert(fields[j] == rest[j - 1]);
            }
        }
        if field_index(rest, key) < rest.len() {
            assert(fields[field_index(rest, key) + 1] == rest[field_index(rest, key)]);
        }
    }
}

/// A position before which no member is named `key`, and which is the end or
/// holds `key`, is `field_index`.
pub proof fn lemma_field_index_is(fields: Seq<(Seq<char>, JsonView)>, key: Seq<char>, i: int)
    requires
        0 <= i <= fields.len(),
        forall|j: int| 0 <= j < i ==> (#[trigger] fields[j]).0 != key,
        i < fields.len() ==> fields[i].0 == key,
    ensures
        field_index(fields, key) == i,
{
    lemma_field_index_bounds(fields, key);
    let k = field_index(fields, key);
    if k < i {
        assert(fields[k].0 != key);
    } else if i < k {
        assert(fields[i].0 != key);
    }
}

/// The texts of `items`, if every one of them is a text.
pub open spec fn texts_of(items: Seq<JsonView>) -> Option<Seq<Seq<char>>> {
    if forall|i: int| 0 <= i < items.len() ==> (#[trigger] items[i]) is Text {
        Some(Seq::new(items.len(), |i: int| items[i]->Text_0))
    } else {
        None
    }
}

impl JsonView {
    /// The first member named `key`, if this is an object that has one.
    pub open spec fn member(self, key: Seq<char>) -> Option<JsonView> {
        match self {
            JsonView::Object(fields) => {
                if field_index(fields, key) < fields.len() {
                    Some(fields[field_index(fields, key)].1)
                } else {
                    None
                }
            },
            _ => None,
        }
    }

    /// The text, if this is a text.
    pub open spec fn text(self) -> Option<Seq<char>> {
        match self {
            JsonView::Text(s) => Some(s),
            _ => None,
        }
    }

    /// The truth value, if this is one.
    pub open spec fn truth(self) -> Option<bool> {
        match self {
            JsonView::Bool(b) => Some(b),
            _ => None,
        }
    }

    /// The number, if this is a number written as the decimal text of an
    /// unsigned integer of 64 bits.
    pub open spec fn unsigned(self) -> Option<u64> {
        match self {
            JsonView::Number(s) => {
                if exists|n: u64| decimal(n as nat) == s {
                    Some(choose|n: u64| decimal(n as nat) == s)
                } else {
                    None
                }
            },
            _ => None,
        }
    }

    /// The items, if this is an array.
    pub open spec fn items(self) -> Option<Seq<JsonView>> {
        match self {
            JsonView::Array(items) => Some(items),
            _ => None,
        }
    }

    /// The members, if this is an object.
    pub open spec fn members(self) -> Option<Seq<(Seq<char>, JsonView)>> {
        match self {
            JsonView::Object(fields) => Some(fields),
            _ => None,
        }
    }

    /// The texts of the items, if this is an array of texts.
    pub open spec fn texts(self) -> Option<Seq<Seq<char>>> {
        match self {
            JsonView::Array(items) => texts_of(items),
            _ => None,
        }
    }
}

/// The text under `name`: empty where `document` has no such member, and
/// none where the member is no text.
pub open spec fn text_field(document: JsonView, name: Seq<char>) -> Option<Seq<char>> {
    match document.member(name) {
        None => Some(Seq::empty()),
        Some(found) => found.text(),
    }
}

/// The truth value under `name`: false where `document` has no such member,
/// and none where the member is no truth value.
pub open spec fn bool_field(document: JsonView, name: Seq<char>) -> Option<bool> {
    match document.member(name) {
        None => Some(false),
        Some(found) => found.truth(),
    }
}

/// The count under `name`: zero where `document` has no such member, and
/// none where the member is no unsigned integer that fits a `usize`.
pub open spec fn count_field(document: JsonView, name: Seq<char>) -> Option<usize> {
    match document.member(name) {
        None => Some(0),
        Some(found) => match found.unsigned() {
            Some(n) if n <= usize::MAX => Some(n as usize),
            _ => None,
        },
    }
}

/// The texts under `name`: none at all where `document` has no such member,
/// and no result where the member is no array of texts.
pub open spec fn texts_field(document: JsonView, name: Seq<char>) -> Option<Seq<Seq<char>>> {
    match document.member(name) {
        None => Some(Seq::empty()),
        Some(found) => found.texts(),
    }
}

impl Clone for Json {
    fn clone(&self) -> (res: Json)
        ensures
            res@ == self@,
        decreases self,
    {
        match self {
            Json::Null => Json::Null,
            Json::Bool(b) => Json::Bool(*b),
            Json::Number(s) => Json::Number(s.clone()),
            Json::Text(s) => Json::Text(s.clone()),
            Json::Array(items) => {
                let mut copy: Vec<Json> = Vec::new();
                let mut i: usize = 0;
                while i < items.len()
                    invariant
                        i <= items.len(),
                        copy.len() == i,
                        self is Array && self->Array_0 == *items,
                        forall|j: int| 0 <= j < i ==> (#[trigger] copy[j])@ == items[j]@,
                    decreases items.len() - i,
                {
                    copy.push(items[i].clone());
                    i += 1;
                }
                let res = Json::Array(copy);
                assert(res@->Array_0 =~= self@->Array_0);
                res
            },
            Json::Object(fields) => {
                let mut copy: Vec<(String, Json)> = Vec::new();
                let mut i: usize = 0;
                while i < fields.len()
                    invariant
                        i <= fields.len(),
                        copy.len() == i,
                        self is Object && self->Object_0 == *fields,
                        forall|j: int|
                            0 <= j < i ==> (#[trigger] copy[j]).0@ == fields[j].0@ && copy[j].1@
                                == fields[j].1@,
                    decreases fields.len() - i,
                {
                    copy.push((fields[i].0.clone(), fields[i].1.clone()));
                    i += 1;
                }
                let res = Json::Object(copy);
                assert(res@->Object_0 =~= self@->Object_0);
                res
            },
        }
    }
}

impl Json {
    /// Reads a JSON text.
    pub fn parse(text: &str) -> (res: Option<Json>)
        ensures
            match res {
                Some(document) => parsed(text@) == Some(document@),
                None => parsed(text@) is None,
            },
    {
        match value_from_text(text) {
            Some(value) => Some(json_from_value(value)),
            None => None,
        }
    }

    /// The first member named `key`, if this is an object that has one.
    pub fn member(&self, key: &str) -> (res: Option<&Json>)
        ensures
            match res {
                Some(found) => self@.member(key@) == Some(found@),
                None => self@.member(key@) is None,
            },
    {
        match self {
            Json::Object(fields) => {
                let wanted = key.to_owned();
                let mut i: usize = 0;
                while i < fields.len()
                    invariant
                        i <= fields.len(),
                        wanted@ == key@,
                        self is Object && self->Object_0 == *fields,
                        forall|j: int|
                            0 <= j < i ==> (#[trigger] self@->Object_0[j]).0 != key@,
                    decreases fields.len() - i,
                {
                    if fields[i].0 == wanted {
                        proof {
                            lemma_field_index_is(self@->Object_0, key@, i as int);
                        }
                        return Some(&fields[i].1);
                    }
                    i += 1;
                }
                proof {
                    lemma_field_index_is(self@->Object_0, key@, i as int);
                }
                None
            },
            _ => None,
        }
    }

    /// The text, if this is a text.
    pub fn as_text(&self) -> (res: Option<&String>)
        ensures
            match res {
                Some(s) => self@.text() == Some(s@),
                None => self@.text() is None,
            },
    {
        match self {
            Json::Text(s) => Some(s),
            _ => None,
        }
    }

    /// The truth value, if this is one.
    pub fn as_bool(&self) -> (res: Option<bool>)
        ensures
            res == self@.truth(),
    {
        match self {
            Json::Bool(b) => Some(*b),
            _ => None,
        }
    }

    /// The number, if this is a number written as the decimal text of an
    /// unsigned integer of 64 bits.
    pub fn as_unsigned(&self) -> (res: Option<u64>)
        ensures
            res == self@.unsigned(),
    {
        match self {
            Json::Number(s) => {
                let res = parse_decimal(s.as_str());
                proof {
                    match res {
                        Some(n) => {
                            let m = choose|m: u64| decimal(m as nat) == s@;
                            crate::text::lemma_decimal_injective(n as nat, m as nat);
                        },
                        None => {},
                    }
                }
                res
            },
            _ => None,
        }
    }

    /// The items, if this is an array.
    pub fn as_items(&self) -> (res: Option<&Vec<Json>>)
        ensures
            match res {
                Some(items) => self@.items() == Some(items@.map_values(|item: Json| item@)),
                None => self@.items() is None,
            },
    {
        match self {
            Json::Array(items) => {
                assert(self@->Array_0 =~= items@.map_values(|item: Json| item@));
                Some(items)
            },
            _ => None,
        }
    }

    /// The members, if this is an object.
    pub fn as_members(&self) -> (res: Option<&Vec<(String, Json)>>)
        ensures
            match res {
                Some(fields) => self@.members() == Some(
                    fields@.map_values(|field: (String, Json)| (field.0@, field.1@)),
                ),
                None => self@.members() is None,
            },
    {
        match self {
            Json::Object(fields) => {
                assert(self@->Object_0 =~= fields@.map_values(
                    |field: (String, Json)| (field.0@, field.1@),
                ));
                Some(fields)
            },
            _ => None,
        }
    }

    /// The texts of the items, if this is an array of texts.
    pub fn as_texts(&self) -> (res: Option<Vec<String>>)
        ensures
            match res {
                Some(texts) => self@.texts() == Some(texts@.map_values(|s: String| s@)),
                None => self@.texts() is None,
            },
    {
        match self {
            Json::Array(items) => {
                let mut texts: Vec<String> = Vec::new();
                let mut i: usize = 0;
                while i < items.len()
                    invariant
                        i <= items.len(),
                        texts.len() == i,
                        self is Array && self->Array_0 == *items,
                        forall|j: int| 0 <= j < i ==> (#[trigger] self@->Array_0[j]) is Text,
                        forall|j: int|
                            0 <= j < i ==> (#[trigger] texts[j])@ == self@->Array_0[j]->Text_0,
                    decreases items.len() - i,
                {
                    match &items[i] {
                        Json::Text(s) => {
                            assert(self@->Array_0[i as int] == json_view(&items[i as int]));
                            texts.push(s.clone());
                        },
                        _ => {
                            assert(self@->Array_0[i as int] == json_view(&items[i as int]));
                            assert(!(self@->Array_0[i as int] is Text));
                            return None;
                        },
                    }
                    i += 1;
                }
                assert(texts@.map_values(|s: String| s@) =~= texts_of(self@->Array_0).unwrap());
                Some(texts)
            },
            _ => None,
        }
    }

    /// The text under `name`, with the empty text for a member that is not
    /// there.
    pub fn read_text(&self, name: &str) -> (res: Option<String>)
        ensures
            match res {
                Some(s) => text_field(self@, name@) == Some(s@),
                None => text_field(self@, name@) is None,
            },
    {
        match self.member(name) {
            None => Some(String::new()),
            Some(found) => match found.as_text() {
                Some(s) => Some(s.clone()),
                None => None,
            },
        }
    }

    /// The truth value under `name`, with false for a member that is not
    /// there.
    pub fn read_bool(&self, name: &str) -> (res: Option<bool>)
        ensures
            res == bool_field(self@, name@),
    {
        match self.member(name) {
            None => Some(false),
            Some(found) => found.as_bool(),
        }
    }

    /// The count under `name`, with zero for a member that is not there.
    pub fn read_count(&self, name: &str) -> (res: Option<usize>)
        ensures
            res == count_field(self@, name@),
    {
        match self.member(name) {
            None => Some(0),
            Some(found) => match found.as_unsigned() {
                Some(n) => {
                    if n <= usize::MAX as u64 {
                        Some(n as usize)
                    } else {
                        None
                    }
                },
                None => None,
            },
        }
    }

    /// The texts under `name`, with none at all for a member that is not
    /// there.
    pub fn read_texts(&self, name: &str) -> (res: Option<Vec<String>>)
        ensures
            match res {
                Some(texts) => texts_field(self@, name@) == Some(texts@.map_values(|s: String| s@)),
                None => texts_field(self@, name@) is None,
            },
    {
        match self.member(name) {
            None => {
                let none: Vec<String> = Vec::new();
                assert(none@.map_values(|s: String| s@) =~= Seq::<Seq<char>>::empty());
                Some(none)
            },
            Some(found) => found.as_texts(),
        }
    }
}

} // verus!

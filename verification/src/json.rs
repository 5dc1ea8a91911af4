//! JSON documents as plain data: what a workflow node reads out of and stamps
//! into its context.
use serde_json::{Number, Value};
use vstd::prelude::*;

use crate::text::owned;

verus! {

/// A JSON number. Integers are held exactly; any other number by its text.
#[derive(Debug, PartialEq, Eq)]
pub enum JsonNumber {
    PosInt(u64),
    NegInt(i64),
    Float(String),
}

/// A JSON document. Of two entries of an object under one key, the first is
/// the one that counts.
#[derive(Debug, PartialEq, Eq)]
pub enum Json {
    Null,
    Bool(bool),
    Number(JsonNumber),
    Text(String),
    Array(Vec<Json>),
    Object(Vec<(String, Json)>),
}

/// What a JSON number says.
pub enum NumberView {
    PosInt(u64),
    NegInt(i64),
    Float(Seq<char>),
}

/// What a JSON document says: the model every contract on documents is
/// written over.
pub enum JsonView {
    Null,
    Bool(bool),
    Number(NumberView),
    Text(Seq<char>),
    Array(Seq<JsonView>),
    Object(Map<Seq<char>, JsonView>),
}

/// Where `key` first stands in `entries`, or `entries.len()`.
pub open spec fn key_index<V>(entries: Seq<(String, V)>, key: Seq<char>) -> int
    decreases entries.len(),
{
    if entries.len() == 0 || entries[0].0@ == key {
        0
    } else {
        1 + key_index(entries.drop_first(), key)
    }
}

/// The key index lies in range; the key stands there unless it is the end,
/// and nowhere before.
pub proof fn lemma_key_index<V>(entries: Seq<(String, V)>, key: Seq<char>)
    ensures
        0 <= key_index(entries, key) <= entries.len(),
        key_index(entries, key) < entries.len() ==> entries[key_index(entries, key)].0@ == key,
        forall|j: int| 0 <= j < key_index(entries, key) ==> (#[trigger] entries[j]).0@ != key,
    decreases entries.len(),
{
    if entries.len() > 0 && entries[0].0@ != key {
        lemma_key_index(entries.drop_first(), key);
        assert forall|j: int| 0 <= j < key_index(entries, key) implies (
        #[trigger] entries[j]).0@ != key by {
            if j > 0 {
                assert(entries.drop_first()[j - 1].0@ != key);
            }
        }
    }
}

/// An index with the key at it, or the end, and no such key before it is the
/// key index.
pub proof fn lemma_key_index_is<V>(entries: Seq<(String, V)>, key: Seq<char>, i: int)
    requires
        0 <= i <= entries.len(),
        i < entries.len() ==> entries[i].0@ == key,
        forall|j: int| 0 <= j < i ==> (#[trigger] entries[j]).0@ != key,
    ensures
        key_index(entries, key) == i,
{
    lemma_key_index(entries, key);
    let k = key_index(entries, key);
    if k < i {
        assert(entries[k].0@ != key);
    }
}

/// What a number says.
pub open spec fn number_view(n: JsonNumber) -> NumberView {
    match n {
        JsonNumber::PosInt(v) => NumberView::PosInt(v),
        JsonNumber::NegInt(v) => NumberView::NegInt(v),
        JsonNumber::Float(t) => NumberView::Float(t@),
    }
}

/// What a document says.
pub open spec fn value_view(v: Json) -> JsonView
    decreases v,
{
    match v {
        Json::Null => JsonView::Null,
        Json::Bool(b) => JsonView::Bool(b),
        Json::Number(n) => JsonView::Number(number_view(n)),
        Json::Text(s) => JsonView::Text(s@),
        Json::Array(items) => JsonView::Array(
            Seq::new(
                items@.len(),
                |i: int|
                    if 0 <= i < items@.len() {
                        value_view(items@[i])
                    } else {
                        JsonView::Null
                    },
            ),
        ),
        Json::Object(entries) => JsonView::Object(
            Map::new(
                |k: Seq<char>| key_index(entries@, k) < entries@.len(),
                |k: Seq<char>|
                    {
                        let i = key_index(entries@, k);
                        if 0 <= i < entries@.len() {
                            value_view(entries@[i].1)
                        } else {
                            JsonView::Null
                        }
                    },
            ),
        ),
    }
}

impl View for Json {
    type V = JsonView;

    open spec fn view(&self) -> JsonView {
        value_view(*self)
    }
}

impl JsonView {
    /// The member of an object under `key`.
    pub open spec fn get(self, key: Seq<char>) -> Option<JsonView> {
        match self {
            JsonView::Object(m) => if m.contains_key(key) {
                Some(m[key])
            } else {
                None
            },
            _ => None,
        }
    }

    /// The text of a string.
    pub open spec fn as_str(self) -> Option<Seq<char>> {
        match self {
            JsonView::Text(s) => Some(s),
            _ => None,
        }
    }

    /// The member under `key`, when it is a string.
    pub open spec fn get_str(self, key: Seq<char>) -> Option<Seq<char>> {
        match self.get(key) {
            Some(v) => v.as_str(),
            None => None,
        }
    }

    /// The value of a boolean.
    pub open spec fn as_bool(self) -> Option<bool> {
        match self {
            JsonView::Bool(b) => Some(b),
            _ => None,
        }
    }

    /// The value of a non-negative integer.
    pub open spec fn as_u64(self) -> Option<u64> {
        match self {
            JsonView::Number(NumberView::PosInt(n)) => Some(n),
            _ => None,
        }
    }

    /// The value of an integer in the range of `i64`.
    pub open spec fn as_i64(self) -> Option<i64> {
        match self {
            JsonView::Number(NumberView::PosInt(n)) => if n <= i64::MAX {
                Some(n as i64)
            } else {
                None
            },
            JsonView::Number(NumberView::NegInt(n)) => Some(n),
            _ => None,
        }
    }
}

/// The JSON string `s`, as a model value.
pub open spec fn json_str(s: Seq<char>) -> JsonView {
    JsonView::Text(s)
}

/// The JSON string or null for an optional text.
pub open spec fn json_opt_str(s: Option<Seq<char>>) -> JsonView {
    match s {
        Some(t) => JsonView::Text(t),
        None => JsonView::Null,
    }
}

/// The JSON integer or null for an optional number.
pub open spec fn json_opt_u64(n: Option<u64>) -> JsonView {
    match n {
        Some(v) => json_u64(v),
        None => JsonView::Null,
    }
}

/// The JSON integer `n`, of either sign, as a model value.
pub open spec fn json_i64(n: i64) -> JsonView {
    JsonView::Number(
        if n >= 0 {
            NumberView::PosInt(n as u64)
        } else {
            NumberView::NegInt(n)
        },
    )
}

/// The JSON object with no members, as a model value.
pub open spec fn json_object() -> Map<Seq<char>, JsonView> {
    Map::empty()
}

/// The JSON integer `n`, as a model value.
pub open spec fn json_u64(n: u64) -> JsonView {
    JsonView::Number(NumberView::PosInt(n))
}

impl Clone for JsonNumber {
    fn clone(&self) -> (r: Self)
        ensures
            number_view(r) == number_view(*self),
    {
        match self {
            JsonNumber::PosInt(v) => JsonNumber::PosInt(*v),
            JsonNumber::NegInt(v) => JsonNumber::NegInt(*v),
            JsonNumber::Float(t) => JsonNumber::Float(t.clone()),
        }
    }
}

impl Clone for Json {
    fn clone(&self) -> (r: Self)
        ensures
            r@ == self@,
        decreases self,
    {
        match self {
            Json::Null => Json::Null,
            Json::Bool(b) => Json::Bool(*b),
            Json::Number(n) => Json::Number(n.clone()),
            Json::Text(s) => Json::Text(s.clone()),
            Json::Array(items) => {
                let mut out: Vec<Json> = Vec::new();
                let mut i: usize = 0;
                while i < items.len()
                    invariant
                        i <= items@.len(),
                        out@.len() == i,
                        forall|j: int| 0 <= j < i ==> value_view(#[trigger] out@[j]) == value_view(items@[j]),
                        *self == Json::Array(*items),
                    decreases items@.len() - i,
                {
                    assert(decreases_to!(*self => self->Array_0@[i as int]));
                    out.push(items[i].clone());
                    i += 1;
                }
                assert(value_view(Json::Array(out))->Array_0 =~= value_view(*self)->Array_0);
                Json::Array(out)
            },
            Json::Object(entries) => {
                let mut out: Vec<(String, Json)> = Vec::new();
                let mut i: usize = 0;
                while i < entries.len()
                    invariant
                        i <= entries@.len(),
                        out@.len() == i,
                        forall|j: int|
                            0 <= j < i ==> (#[trigger] out@[j]).0@ == entries@[j].0@ && value_view(
                                out@[j].1,
                            ) == value_view(entries@[j].1),
                        *self == Json::Object(*entries),
                    decreases entries@.len() - i,
                {
                    assert(decreases_to!(*self => self->Object_0@[i as int].1));
                    out.push((entries[i].0.clone(), entries[i].1.clone()));
                    i += 1;
                }
                proof {
                    lemma_same_entries(out@, entries@);
                    lemma_object_view(out);
                    lemma_object_view(*entries);
                }
                Json::Object(out)
            },
        }
    }
}

/// What the items of an array say, in order.
pub open spec fn array_view(items: Seq<Json>) -> Seq<JsonView> {
    items.map_values(|v: Json| v@)
}

/// What the entries of an object say.
pub open spec fn object_view(entries: Seq<(String, Json)>) -> Map<Seq<char>, JsonView> {
    Map::new(
        |k: Seq<char>| key_index(entries, k) < entries.len(),
        |k: Seq<char>|
            {
                let i = key_index(entries, k);
                if 0 <= i < entries.len() {
                    value_view(entries[i].1)
                } else {
                    JsonView::Null
                }
            },
    )
}

/// An object says what its entries say.
pub proof fn lemma_object_view(entries: Vec<(String, Json)>)
    ensures
        value_view(Json::Object(entries)) == JsonView::Object(object_view(entries@)),
{
    assert(value_view(Json::Object(entries))->Object_0 =~= object_view(entries@));
}

proof fn lemma_same_entries(a: Seq<(String, Json)>, b: Seq<(String, Json)>)
    requires
        a.len() == b.len(),
        forall|j: int|
            0 <= j < a.len() ==> (#[trigger] a[j]).0@ == b[j].0@ && value_view(a[j].1) == value_view(
                b[j].1,
            ),
    ensures
        object_view(a) =~= object_view(b),
{
    assert forall|k: Seq<char>| key_index(a, k) == key_index(b, k) by {
        lemma_key_index(a, k);
        assert forall|j: int| 0 <= j < key_index(a, k) implies (#[trigger] b[j]).0@ != k by {
            assert(a[j].0@ != k);
        }
        lemma_key_index_is(b, k, key_index(a, k));
    }
}

/// A new member shows in what an object says.
pub proof fn lemma_object_push(entries: Seq<(String, Json)>, e: (String, Json))
    requires
        key_index(entries, e.0@) == entries.len(),
    ensures
        object_view(entries.push(e)) =~= object_view(entries).insert(e.0@, e.1@),
{
    let more = entries.push(e);
    assert forall|k: Seq<char>|
        key_index(more, k) == (if key_index(entries, k) < entries.len() {
            key_index(entries, k)
        } else if k == e.0@ {
            entries.len() as int
        } else {
            more.len() as int
        }) by {
        lemma_key_index(entries, k);
        let i = key_index(entries, k);
        if i < entries.len() {
            assert(more[i].0@ == k);
            lemma_key_index_is(more, k, i);
        } else if k == e.0@ {
            lemma_key_index_is(more, k, entries.len() as int);
        } else {
            lemma_key_index_is(more, k, more.len() as int);
        }
    }
    assert forall|k: Seq<char>| #[trigger] key_index(entries, k) >= 0 by {
        lemma_key_index(entries, k);
    }
}

proof fn lemma_object_update(entries: Seq<(String, Json)>, i: int, e: (String, Json))
    requires
        0 <= i < entries.len(),
        entries[i].0@ == e.0@,
        key_index(entries, e.0@) == i,
    ensures
        object_view(entries.update(i, e)) =~= object_view(entries).insert(e.0@, e.1@),
{
    let new = entries.update(i, e);
    assert forall|k: Seq<char>|
        key_index(new, k) == key_index(entries, k) && (key_index(entries, k) < entries.len()
            ==> entries[key_index(entries, k)].0@ == k) by {
        lemma_key_index(entries, k);
        let n = key_index(entries, k);
        assert forall|j: int| 0 <= j < n implies (#[trigger] new[j]).0@ != k by {
            assert(entries[j].0@ != k);
        }
        lemma_key_index_is(new, k, n);
    }
    assert forall|k: Seq<char>| #[trigger] key_index(entries, k) >= 0 by {
        lemma_key_index(entries, k);
    }
}

impl Json {
    /// A string document.
    pub fn text(s: &str) -> (r: Self)
        ensures
            r@ == json_str(s@),
    {
        Json::Text(owned(s))
    }

    /// A string document, or null.
    pub fn opt_text(s: &Option<String>) -> (r: Self)
        ensures
            r@ == json_opt_str(crate::text::opt_text(*s)),
    {
        match s {
            Some(t) => Json::text(t.as_str()),
            None => Json::Null,
        }
    }

    /// An integer document.
    pub fn uint(n: u64) -> (r: Self)
        ensures
            r@ == json_u64(n),
    {
        Json::Number(JsonNumber::PosInt(n))
    }

    /// An integer document of either sign.
    pub fn sint(n: i64) -> (r: Self)
        ensures
            r@ == json_i64(n),
    {
        if n >= 0 {
            Json::Number(JsonNumber::PosInt(n as u64))
        } else {
            Json::Number(JsonNumber::NegInt(n))
        }
    }

    /// An integer document, or null.
    pub fn opt_uint(n: Option<u64>) -> (r: Self)
        ensures
            r@ == json_opt_u64(n),
    {
        match n {
            Some(v) => Json::uint(v),
            None => Json::Null,
        }
    }

    /// An object with no members.
    pub fn object() -> (r: Self)
        ensures
            r is Object,
            r@ == JsonView::Object(json_object()),
    {
        let out: Vec<(String, Json)> = Vec::new();
        assert(object_view(out@) =~= Map::empty());
        proof {
            lemma_object_view(out);
        }
        Json::Object(out)
    }

    /// An array of documents.
    pub fn array(items: Vec<Json>) -> (r: Self)
        ensures
            r@ == JsonView::Array(array_view(items@)),
    {
        assert(value_view(Json::Array(items))->Array_0 =~= array_view(items@));
        Json::Array(items)
    }

    /// This object with `value` under `key`, in place of any member there.
    pub fn with(self, key: &str, value: Json) -> (r: Self)
        requires
            self is Object,
        ensures
            r is Object,
            r@ == JsonView::Object(self@->Object_0.insert(key@, value@)),
    {
        match self {
            Json::Object(entries) => {
                let mut entries = entries;
                let ghost before = entries@;
                let mut i: usize = 0;
                while i < entries.len() && !(*entries[i].0.as_str() == *key)
                    invariant
                        i <= entries@.len(),
                        entries@ == before,
                        forall|j: int| 0 <= j < i ==> (#[trigger] entries@[j]).0@ != key@,
                    decreases entries@.len() - i,
                {
                    i += 1;
                }
                let entry = (owned(key), value);
                proof {
                    lemma_object_view(entries);
                    lemma_key_index_is(before, key@, i as int);
                    if i < before.len() {
                        lemma_object_update(before, i as int, entry);
                    } else {
                        lemma_object_push(before, entry);
                    }
                }
                if i < entries.len() {
                    entries.set(i, entry);
                } else {
                    entries.push(entry);
                }
                proof {
                    lemma_object_view(entries);
                }
                Json::Object(entries)
            },
            other => other,
        }
    }

    /// The member of an object under `key`.
    pub fn get(&self, key: &str) -> (r: Option<&Json>)
        ensures
            match r {
                Some(v) => self@.get(key@) == Some(v@),
                None => self@.get(key@) is None,
            },
    {
        match self {
            Json::Object(entries) => {
                let mut i: usize = 0;
                while i < entries.len()
                    invariant
                        i <= entries@.len(),
                        *self == Json::Object(*entries),
                        forall|j: int| 0 <= j < i ==> (#[trigger] entries@[j]).0@ != key@,
                    decreases entries@.len() - i,
                {
                    if *entries[i].0.as_str() == *key {
                        proof {
                            lemma_key_index_is(entries@, key@, i as int);
                        }
                        return Some(&entries[i].1);
                    }
                    i += 1;
                }
                proof {
                    lemma_key_index_is(entries@, key@, entries@.len() as int);
                }
                None
            },
            _ => None,
        }
    }

    /// The text of a string document.
    pub fn as_str(&self) -> (r: Option<&str>)
        ensures
            crate::text::opt_str(r) == self@.as_str(),
    {
        match self {
            Json::Text(s) => Some(s.as_str()),
            _ => None,
        }
    }

    /// The text of the member under `key`, when it is a string.
    pub fn get_str(&self, key: &str) -> (r: Option<&str>)
        ensures
            crate::text::opt_str(r) == self@.get_str(key@),
    {
        match self.get(key) {
            Some(v) => v.as_str(),
            None => None,
        }
    }

    /// The value of a boolean document.
    pub fn as_bool(&self) -> (r: Option<bool>)
        ensures
            r == self@.as_bool(),
    {
        match self {
            Json::Bool(b) => Some(*b),
            _ => None,
        }
    }

    /// The value of a non-negative integer document.
    pub fn as_u64(&self) -> (r: Option<u64>)
        ensures
            r == self@.as_u64(),
    {
        match self {
            Json::Number(JsonNumber::PosInt(n)) => Some(*n),
            _ => None,
        }
    }

    /// The value of an integer document in the range of `i64`.
    pub fn as_i64(&self) -> (r: Option<i64>)
        ensures
            r == self@.as_i64(),
    {
        match self {
            Json::Number(JsonNumber::PosInt(n)) => if *n <= i64::MAX as u64 {
                Some(*n as i64)
            } else {
                None
            },
            Json::Number(JsonNumber::NegInt(n)) => Some(*n),
            _ => None,
        }
    }

    /// Whether this document is null.
    pub fn is_null(&self) -> (r: bool)
        ensures
            r == (self@ is Null),
    {
        matches!(self, Json::Null)
    }
}

// ── Reading text ─────────────────────────────────────────────────────────

/// `serde_json::Value`, a parsed document.
#[verifier::external_type_specification]
#[verifier::external_body]
pub struct ExParsed(serde_json::Value);

/// What a parsed document holds.
pub uninterp spec fn parsed_content(doc: serde_json::Value) -> JsonView;

/// What parsing a text gives: the document's content, or the message of the
/// parser's error.
pub uninterp spec fn parsed_text(raw: Seq<char>) -> Result<JsonView, Seq<char>>;

/// `serde_json::from_str` into a generic document; an error comes back as its
/// message.
#[verifier::external_body]
fn parse_document(raw: &str) -> (r: Result<serde_json::Value, String>)
    ensures
        match r {
            Ok(doc) => parsed_text(raw@) == Ok::<JsonView, Seq<char>>(parsed_content(doc)),
            Err(e) => parsed_text(raw@) == Err::<JsonView, Seq<char>>(e@),
        },
{
    serde_json::from_str(raw).map_err(|e| e.to_string())
}

/// The content of a `serde_json::Value`, variant by variant.
#[verifier::external_body]
fn document_content(doc: &serde_json::Value) -> (r: Json)
    ensures
        r@ == parsed_content(*doc),
{
    match doc {
        Value::Null => Json::Null,
        Value::Bool(b) => Json::Bool(*b),
        Value::Number(n) => Json::Number(match (n.as_u64(), n.as_i64()) {
            (Some(v), _) => JsonNumber::PosInt(v),
            (None, Some(v)) => JsonNumber::NegInt(v),
            (None, None) => JsonNumber::Float(n.to_string()),
        }),
        Value::String(s) => Json::Text(s.clone()),
        Value::Array(a) => Json::Array(a.iter().map(document_content).collect()),
        Value::Object(m) => Json::Object(
            m.iter().map(|(k, v)| (k.clone(), document_content(v))).collect()),
    }
}

/// Parse `raw` as JSON.
pub fn parse(raw: &str) -> (r: Result<Json, String>)
    ensures
        match r {
            Ok(v) => parsed_text(raw@) == Ok::<JsonView, Seq<char>>(v@),
            Err(e) => parsed_text(raw@) == Err::<JsonView, Seq<char>>(e@),
        },
{
    match parse_document(raw) {
        Ok(doc) => Ok(document_content(&doc)),
        Err(e) => Err(e),
    }
}

// ── Writing text ─────────────────────────────────────────────────────────

/// The `serde_json::Value` with this content.
pub uninterp spec fn document_of(content: JsonView) -> serde_json::Value;

/// What a document is printed as.
pub uninterp spec fn printed(doc: serde_json::Value) -> Seq<char>;

/// The `serde_json::Value` with the content of `doc`, variant by variant: a
/// number with a fraction through `serde_json::Number::from_f64`, null where
/// its text is none, and of two entries under one key the first. What is
/// claimed is that the value depends on the content alone.
#[verifier::external_body]
fn document(doc: &Json) -> (r: serde_json::Value)
    ensures
        r == document_of(doc@),
{
    match doc {
        Json::Null => Value::Null,
        Json::Bool(b) => Value::Bool(*b),
        Json::Number(JsonNumber::PosInt(n)) => Value::from(*n),
        Json::Number(JsonNumber::NegInt(n)) => Value::from(*n),
        Json::Number(JsonNumber::Float(t)) =>
            t.parse().ok().and_then(Number::from_f64).map_or(Value::Null, Value::Number),
        Json::Text(s) => Value::String(s.clone()),
        Json::Array(a) => a.iter().map(document).collect(),
        Json::Object(m) => Value::Object(
            m.iter().rev().map(|(k, v)| (k.clone(), document(v))).collect()),
    }
}

/// The `Display` of `serde_json::Value`: the document as compact JSON. What is
/// claimed is that it depends on the document alone.
#[verifier::external_body]
fn document_text(doc: &serde_json::Value) -> (r: String)
    ensures
        r@ == printed(*doc),
{
    doc.to_string()
}

/// What a document with this content is printed as.
pub open spec fn content_text(content: JsonView) -> Seq<char> {
    printed(document_of(content))
}

/// A document as compact JSON.
pub fn to_text(doc: &Json) -> (r: String)
    ensures
        r@ == content_text(doc@),
{
    document_text(&document(doc))
}

/// A member that is added to an object is read back, and every other member
/// stays.
pub proof fn law_added_member_is_read_back(
    doc: Json,
    key: &str,
    value: Json,
    other: &str,
    after: Json,
    r: Option<&Json>,
    s: Option<&Json>,
    before: Option<&Json>,
)
    requires
        doc is Object,
        Json::with.ensures((doc, key, value), after),
        Json::get.ensures((&after, key), r),
        Json::get.ensures((&after, other), s),
        Json::get.ensures((&doc, other), before),
    ensures
        r is Some && r->0@ == value@,
        other@ != key@ ==> (s is Some <==> before is Some) && (s is Some ==> s->0@ == before->0@),
{
}

/// Each kind of value is read back as itself, and as nothing else.
pub proof fn law_values_are_read_back(
    s: &str,
    n: u64,
    m: i64,
    b: bool,
    text_doc: Json,
    uint_doc: Json,
    sint_doc: Json,
    as_text: Option<&str>,
    as_uint: Option<u64>,
    as_sint: Option<i64>,
    as_flag: Option<bool>,
    text_as_uint: Option<u64>,
    flag_as_text: Option<&str>,
)
    requires
        Json::text.ensures((s,), text_doc),
        Json::uint.ensures((n,), uint_doc),
        Json::sint.ensures((m,), sint_doc),
        Json::as_str.ensures((&text_doc,), as_text),
        Json::as_u64.ensures((&uint_doc,), as_uint),
        Json::as_i64.ensures((&sint_doc,), as_sint),
        Json::as_bool.ensures((&Json::Bool(b),), as_flag),
        Json::as_u64.ensures((&text_doc,), text_as_uint),
        Json::as_str.ensures((&Json::Bool(b),), flag_as_text),
    ensures
        as_text is Some && as_text->0@ == s@,
        as_uint == Some(n),
        as_sint == Some(m),
        as_flag == Some(b),
        text_as_uint is None,
        flag_as_text is None,
{
}

/// Of two members under one key the first counts.
pub proof fn law_first_member_counts(
    entries: Vec<(String, Json)>,
    key: &str,
    i: int,
    r: Option<&Json>,
)
    requires
        Json::get.ensures((&Json::Object(entries), key), r),
        0 <= i <= entries@.len(),
        i < entries@.len() ==> entries@[i].0@ == key@,
        forall|j: int| 0 <= j < i ==> (#[trigger] entries@[j]).0@ != key@,
    ensures
        i < entries@.len() ==> r is Some && r->0@ == entries@[i].1@,
        i == entries@.len() ==> r is None,
{
    lemma_object_view(entries);
    lemma_key_index_is(entries@, key@, i);
}

/// A number is read as an integer of a type exactly when it is an integer in
/// the range of that type.
pub proof fn law_integers_are_read_in_range(
    n: u64,
    m: i64,
    t: String,
    n_as_signed: Option<i64>,
    m_as_unsigned: Option<u64>,
    t_as_unsigned: Option<u64>,
    t_as_signed: Option<i64>,
)
    requires
        Json::as_i64.ensures((&Json::Number(JsonNumber::PosInt(n)),), n_as_signed),
        Json::as_u64.ensures((&Json::Number(JsonNumber::NegInt(m)),), m_as_unsigned),
        Json::as_u64.ensures((&Json::Number(JsonNumber::Float(t)),), t_as_unsigned),
        Json::as_i64.ensures((&Json::Number(JsonNumber::Float(t)),), t_as_signed),
    ensures
        n <= 9_223_372_036_854_775_807 ==> n_as_signed is Some && n_as_signed->0 == n,
        n > 9_223_372_036_854_775_807 ==> n_as_signed is None,
        m_as_unsigned is None,
        t_as_unsigned is None,
        t_as_signed is None,
{
}

/// The text under a key is that of the member, where the member is a text.
pub proof fn law_member_text(
    doc: &Json,
    key: &str,
    member: Option<&Json>,
    r: Option<&str>,
    null: bool,
)
    requires
        Json::get.ensures((doc, key), member),
        Json::get_str.ensures((doc, key), r),
        Json::is_null.ensures((doc,), null),
    ensures
        member is None ==> r is None,
        member is Some && member->0@ is Text ==> r is Some && r->0@ == member->0@->Text_0,
        member is Some && !(member->0@ is Text) ==> r is None,
        null <==> *doc is Null,
{
}

/// A value that is not there is null, and one that is there is itself.
pub proof fn law_absent_values_are_null(
    s: &Option<String>,
    n: Option<u64>,
    text_doc: Json,
    uint_doc: Json,
)
    requires
        Json::opt_text.ensures((s,), text_doc),
        Json::opt_uint.ensures((n,), uint_doc),
    ensures
        *s is None ==> text_doc@ is Null,
        *s is Some ==> text_doc@ == JsonView::Text(s->0@),
        n is None ==> uint_doc@ is Null,
        n is Some ==> uint_doc@ == JsonView::Number(NumberView::PosInt(n->0)),
{
}

/// An integer is written as a positive one unless it is below zero.
pub proof fn law_integers_are_written_by_their_sign(m: i64, r: Json)
    requires
        Json::sint.ensures((m,), r),
    ensures
        m >= 0 ==> r@ == JsonView::Number(NumberView::PosInt(m as u64)),
        m < 0 ==> r@ == JsonView::Number(NumberView::NegInt(m)),
{
}

} // verus!

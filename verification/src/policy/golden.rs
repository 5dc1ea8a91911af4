//! Holding a document against a golden one that may say less: what the golden
//! document pins must be there unchanged, what it does not mention may be
//! added.
use vstd::prelude::*;

use crate::json;
use crate::json::{to_text, Json, JsonNumber, JsonView, NumberView};
use crate::text;
use crate::text::{concat2, concat3, concat4, concat5, decimal_text, join_from, owned, quoted};

verus! {

/// Where and how a document departs from a golden one.
#[derive(Debug, PartialEq, Eq)]
pub enum Mismatch {
    /// A member is missing; `keys` are those that are there.
    MissingKey { path: String, key: String, keys: Vec<String> },
    /// An array has another length.
    ArrayLength { path: String, expected: usize, actual: usize },
    /// A value differs, or is of another kind.
    Leaf { path: String, expected: Json, actual: Json },
}

/// How a path is shown.
pub open spec fn shown(path: Seq<char>) -> Seq<char> {
    if path.len() == 0 {
        "<root>"@
    } else {
        path
    }
}

/// The path of a member.
pub open spec fn member(path: Seq<char>, key: Seq<char>) -> Seq<char> {
    if path.len() == 0 {
        key
    } else {
        path + "."@ + key
    }
}

/// The path of an item.
pub open spec fn item(path: Seq<char>, i: nat) -> Seq<char> {
    path + "["@ + text::decimal(i) + "]"@
}

/// Whether a number is a zero with a fraction, of either sign.
pub open spec fn is_zero(t: Seq<char>) -> bool {
    t == "0.0"@ || t == "-0.0"@
}

/// Whether two numbers are the same; the two zeros with a fraction are.
pub open spec fn numbers_agree(a: NumberView, b: NumberView) -> bool {
    match (a, b) {
        (NumberView::Float(x), NumberView::Float(y)) => x == y || (is_zero(x) && is_zero(y)),
        _ => a == b,
    }
}

/// Whether two values that are not both objects or both arrays are the same.
pub open spec fn leaves_agree(a: JsonView, b: JsonView) -> bool {
    match (a, b) {
        (JsonView::Number(x), JsonView::Number(y)) => numbers_agree(x, y),
        _ => a == b,
    }
}

/// The keys of an object's entries, in order.
pub open spec fn keys_of(entries: Seq<(String, Json)>) -> Seq<Seq<char>> {
    entries.map_values(|e: (String, Json)| e.0@)
}

/// Whether everything that `expected` pins stands in `actual`: every member of
/// an object, every item of an array of the same length, every other value
/// unchanged.
pub open spec fn subset(expected: Json, actual: Json) -> bool
    decreases expected,
{
    match (expected, actual) {
        (Json::Object(e), Json::Object(a)) => forall|i: int|
            0 <= i < e@.len() ==> {
                let k = json::key_index(a@, (#[trigger] e@[i]).0@);
                0 <= k < a@.len() && subset(e@[i].1, a@[k].1)
            },
        (Json::Array(e), Json::Array(a)) => {
            &&& e@.len() == a@.len()
            &&& forall|i: int| 0 <= i < e@.len() ==> subset(#[trigger] e@[i], a@[i])
        },
        _ => leaves_agree(expected@, actual@),
    }
}

/// Whether `m` is the first place where `actual` departs from `expected`, the
/// two standing at `path`.
pub open spec fn departs(expected: Json, actual: Json, path: Seq<char>, m: Mismatch) -> bool
    decreases expected,
{
    match (expected, actual) {
        (Json::Object(e), Json::Object(a)) => exists|i: int|
            {
                &&& 0 <= i < e@.len()
                &&& forall|j: int|
                    0 <= j < i ==> {
                        let k = json::key_index(a@, (#[trigger] e@[j]).0@);
                        0 <= k < a@.len() && subset(e@[j].1, a@[k].1)
                    }
                &&& {
                    let key = (#[trigger] e@[i]).0@;
                    let k = json::key_index(a@, key);
                    if 0 <= k < a@.len() {
                        !subset(e@[i].1, a@[k].1) && departs(
                            e@[i].1,
                            a@[k].1,
                            member(path, key),
                            m,
                        )
                    } else {
                        m matches Mismatch::MissingKey { path: p, key: q, keys } && p@ == shown(
                            path,
                        ) && q@ == key && text::texts(keys@) == keys_of(a@)
                    }
                }
            },
        (Json::Array(e), Json::Array(a)) => if e@.len() != a@.len() {
            m matches Mismatch::ArrayLength { path: p, expected: n, actual: l } && p@ == shown(path)
                && n == e@.len() && l == a@.len()
        } else {
            exists|i: int|
                {
                    &&& 0 <= i < e@.len()
                    &&& forall|j: int| 0 <= j < i ==> subset(#[trigger] e@[j], a@[j])
                    &&& !subset(e@[i], a@[i])
                    &&& departs(#[trigger] e@[i], a@[i], item(path, i as nat), m)
                }
        },
        _ => !leaves_agree(expected@, actual@) && (m matches Mismatch::Leaf { path: p, expected: x, actual: y }
            && p@ == shown(path) && x@ == expected@ && y@ == actual@),
    }
}

fn shown_path(path: &str) -> (r: String)
    ensures
        r@ == shown(path@),
{
    if path.is_empty() {
        owned("<root>")
    } else {
        owned(path)
    }
}

fn is_zero_text(t: &str) -> (r: bool)
    ensures
        r == is_zero(t@),
{
    *t == *"0.0" || *t == *"-0.0"
}

fn entry_keys(entries: &Vec<(String, Json)>) -> (r: Vec<String>)
    ensures
        text::texts(r@) == keys_of(entries@),
{
    let mut keys: Vec<String> = Vec::new();
    let mut i: usize = 0;
    while i < entries.len()
        invariant
            i <= entries@.len(),
            text::texts(keys@) == keys_of(entries@).take(i as int),
        decreases entries@.len() - i,
    {
        let ghost before = keys@;
        let key = owned(entries[i].0.as_str());
        keys.push(key);
        i += 1;
        assert(text::texts(keys@) =~= text::texts(before).push(key@));
        assert(text::texts(keys@) =~= keys_of(entries@).take(i as int));
    }
    assert(keys_of(entries@).take(i as int) =~= keys_of(entries@));
    keys
}

fn same_number(a: &JsonNumber, b: &JsonNumber) -> (r: bool)
    ensures
        r == numbers_agree(json::number_view(*a), json::number_view(*b)),
{
    match (a, b) {
        (JsonNumber::PosInt(x), JsonNumber::PosInt(y)) => *x == *y,
        (JsonNumber::NegInt(x), JsonNumber::NegInt(y)) => *x == *y,
        (JsonNumber::Float(x), JsonNumber::Float(y)) => *x.as_str() == *y.as_str() || (
        is_zero_text(x.as_str()) && is_zero_text(y.as_str())),
        _ => false,
    }
}

fn same_leaf(a: &Json, b: &Json) -> (r: bool)
    requires
        !(*a is Object && *b is Object),
        !(*a is Array && *b is Array),
    ensures
        r == leaves_agree(a@, b@),
{
    match (a, b) {
        (Json::Null, Json::Null) => true,
        (Json::Bool(x), Json::Bool(y)) => *x == *y,
        (Json::Number(x), Json::Number(y)) => same_number(x, y),
        (Json::Text(x), Json::Text(y)) => *x.as_str() == *y.as_str(),
        _ => false,
    }
}

fn mismatch_at(expected: &Json, actual: &Json, path: &str) -> (r: Option<Mismatch>)
    ensures
        match r {
            None => subset(*expected, *actual),
            Some(m) => !subset(*expected, *actual) && departs(*expected, *actual, path@, m),
        },
    decreases *expected,
{
    match (expected, actual) {
        (Json::Object(e), Json::Object(a)) => {
            let mut i: usize = 0;
            while i < e.len()
                invariant
                    i <= e@.len(),
                    *expected == Json::Object(*e),
                    *actual == Json::Object(*a),
                    forall|j: int|
                        0 <= j < i ==> {
                            let k = json::key_index(a@, (#[trigger] e@[j]).0@);
                            0 <= k < a@.len() && subset(e@[j].1, a@[k].1)
                        },
                decreases e@.len() - i,
            {
                let key = e[i].0.as_str();
                let mut k: usize = 0;
                while k < a.len() && !(*a[k].0.as_str() == *key)
                    invariant
                        k <= a@.len(),
                        forall|j: int| 0 <= j < k ==> (#[trigger] a@[j]).0@ != key@,
                    decreases a@.len() - k,
                {
                    k += 1;
                }
                proof {
                    json::lemma_key_index_is(a@, key@, k as int);
                }
                if k == a.len() {
                    return Some(
                        Mismatch::MissingKey {
                            path: shown_path(path),
                            key: owned(key),
                            keys: entry_keys(a),
                        },
                    );
                }
                let below = if path.is_empty() {
                    owned(key)
                } else {
                    concat3(path, ".", key)
                };
                assert(decreases_to!(*expected => expected->Object_0@[i as int].1));
                match mismatch_at(&e[i].1, &a[k].1, below.as_str()) {
                    Some(m) => {
                        return Some(m);
                    },
                    None => {},
                }
                i += 1;
            }
            None
        },
        (Json::Array(e), Json::Array(a)) => {
            if e.len() != a.len() {
                return Some(
                    Mismatch::ArrayLength {
                        path: shown_path(path),
                        expected: e.len(),
                        actual: a.len(),
                    },
                );
            }
            let mut i: usize = 0;
            while i < e.len()
                invariant
                    i <= e@.len(),
                    e@.len() == a@.len(),
                    *expected == Json::Array(*e),
                    *actual == Json::Array(*a),
                    forall|j: int| 0 <= j < i ==> subset(#[trigger] e@[j], a@[j]),
                decreases e@.len() - i,
            {
                let below = concat4(path, "[", decimal_text(i as u64).as_str(), "]");
                assert(decreases_to!(*expected => expected->Array_0@[i as int]));
                match mismatch_at(&e[i], &a[i], below.as_str()) {
                    Some(m) => {
                        return Some(m);
                    },
                    None => {},
                }
                i += 1;
            }
            None
        },
        _ => if same_leaf(expected, actual) {
            None
        } else {
            Some(
                Mismatch::Leaf {
                    path: shown_path(path),
                    expected: expected.clone(),
                    actual: actual.clone(),
                },
            )
        },
    }
}

/// The first place where `actual` departs from `expected`, if there is one.
/// Members are taken in the order of `expected`.
pub fn json_subset_mismatch(expected: &Json, actual: &Json) -> (r: Option<Mismatch>)
    ensures
        match r {
            None => subset(*expected, *actual),
            Some(m) => !subset(*expected, *actual) && departs(*expected, *actual, ""@, m),
        },
{
    mismatch_at(expected, actual, "")
}

/// Texts in double quotes, with commas between them.
pub open spec fn quoted_list(texts: Seq<Seq<char>>) -> Seq<char> {
    text::join(texts.map_values(|t: Seq<char>| text::debug_text(t)), ", "@)
}

fn quote_all(texts: &Vec<String>) -> (r: String)
    ensures
        r@ == quoted_list(text::texts(texts@)),
{
    let ghost all = text::texts(texts@).map_values(|t: Seq<char>| text::debug_text(t));
    let mut shown: Vec<String> = Vec::new();
    let mut i: usize = 0;
    while i < texts.len()
        invariant
            i <= texts@.len(),
            all == text::texts(texts@).map_values(|t: Seq<char>| text::debug_text(t)),
            text::texts(shown@) == all.take(i as int),
        decreases texts@.len() - i,
    {
        let ghost before = shown@;
        let one = quoted(texts[i].as_str());
        shown.push(one);
        assert(text::texts(texts@)[i as int] == texts@[i as int]@);
        i += 1;
        assert(text::texts(shown@) =~= text::texts(before).push(one@));
        assert(text::texts(shown@) =~= all.take(i as int));
    }
    assert(text::texts(shown@).skip(0) =~= all);
    join_from(&shown, 0, ", ")
}

impl Mismatch {
    /// The mismatch in words.
    pub open spec fn says(self) -> Seq<char> {
        match self {
            Mismatch::MissingKey { path, key, keys } => "JSON subset mismatch at `"@ + path@
                + "`: key `"@ + key@ + "` missing from actual"@ + (" (actual keys: ["@
                + quoted_list(text::texts(keys@)) + "])"@),
            Mismatch::ArrayLength { path, expected, actual } => "JSON subset mismatch at `"@ + path@
                + "`: array length differs (expected "@ + text::decimal(expected as nat)
                + ", actual "@ + text::decimal(actual as nat) + ")"@,
            Mismatch::Leaf { path, expected, actual } => "JSON subset mismatch at `"@ + path@
                + "`: expected "@ + json::content_text(expected@) + (", actual "@
                + json::content_text(actual@)),
        }
    }

    /// The mismatch in words.
    pub fn message(&self) -> (r: String)
        ensures
            r@ == self.says(),
    {
        match self {
            Mismatch::MissingKey { path, key, keys } => {
                let head = concat5(
                    "JSON subset mismatch at `",
                    path.as_str(),
                    "`: key `",
                    key.as_str(),
                    "` missing from actual",
                );
                let list = quote_all(keys);
                let tail = concat3(" (actual keys: [", list.as_str(), "])");
                concat2(head.as_str(), tail.as_str())
            },
            Mismatch::ArrayLength { path, expected, actual } => {
                let head = concat4(
                    "JSON subset mismatch at `",
                    path.as_str(),
                    "`: array length differs (expected ",
                    decimal_text(*expected as u64).as_str(),
                );
                concat4(head.as_str(), ", actual ", decimal_text(*actual as u64).as_str(), ")")
            },
            Mismatch::Leaf { path, expected, actual } => {
                let head = concat4(
                    "JSON subset mismatch at `",
                    path.as_str(),
                    "`: expected ",
                    to_text(expected).as_str(),
                );
                let tail = concat2(", actual ", to_text(actual).as_str());
                concat2(head.as_str(), tail.as_str())
            },
        }
    }
}

/// Adding a member to a document leaves it a match for what it matched before.
pub proof fn law_additions_are_tolerated(
    expected: Vec<(String, Json)>,
    actual: Vec<(String, Json)>,
    more: Vec<(String, Json)>,
    added: (String, Json),
)
    requires
        subset(Json::Object(expected), Json::Object(actual)),
        more@ == actual@.push(added),
    ensures
        subset(Json::Object(expected), Json::Object(more)),
{
    assert forall|i: int| 0 <= i < expected@.len() implies {
        let k = json::key_index(more@, (#[trigger] expected@[i]).0@);
        0 <= k < more@.len() && subset(expected@[i].1, more@[k].1)
    } by {
        let key = expected@[i].0@;
        let k = json::key_index(actual@, key);
        json::lemma_key_index(actual@, key);
        assert(Json::Object(expected)->Object_0@[i].0@ == key);
        assert(k < actual@.len() && subset(expected@[i].1, actual@[k].1));
        assert forall|j: int| 0 <= j < k implies (#[trigger] more@[j]).0@ != key by {
            assert(actual@[j].0@ != key);
        }
        assert(more@[k].0@ == key);
        json::lemma_key_index_is(more@, key, k);
    }
}

/// Two values that are neither objects nor arrays match exactly when they are
/// of one kind and the same; two numbers with a fraction also when both are
/// zero.
pub proof fn law_plain_values_match_when_equal(expected: &Json, actual: &Json, r: Option<Mismatch>)
    requires
        json_subset_mismatch.ensures((expected, actual), r),
    ensures
        *expected is Null ==> (r is None <==> *actual is Null),
        *expected is Bool ==> (r is None <==> *actual is Bool && actual->Bool_0
            == expected->Bool_0),
        *expected is Text ==> (r is None <==> *actual is Text && actual->Text_0@
            == expected->Text_0@),
        *expected is Number && expected->Number_0 is PosInt ==> (r is None <==> *actual is Number
            && actual->Number_0 is PosInt && actual->Number_0->PosInt_0
            == expected->Number_0->PosInt_0),
        *expected is Number && expected->Number_0 is NegInt ==> (r is None <==> *actual is Number
            && actual->Number_0 is NegInt && actual->Number_0->NegInt_0
            == expected->Number_0->NegInt_0),
        *expected is Number && expected->Number_0 is Float ==> (r is None <==> *actual is Number
            && actual->Number_0 is Float && {
            let x = expected->Number_0->Float_0@;
            let y = actual->Number_0->Float_0@;
            x == y || ((x == "0.0"@ || x == "-0.0"@) && (y == "0.0"@ || y == "-0.0"@))
        }),
        *expected is Object && !(*actual is Object) ==> r is Some,
        *expected is Array && !(*actual is Array) ==> r is Some,
        r is Some && !(*expected is Object && *actual is Object) && !(*expected is Array && *actual
            is Array) ==> r->0 is Leaf && r->0->Leaf_path@ == "<root>"@
            && r->0->Leaf_expected@ == expected@ && r->0->Leaf_actual@ == actual@,
{
    reveal_strlit("");
}

/// Arrays match exactly when they are of one length and every item matches the
/// one in its place; where the lengths differ, both are told.
pub proof fn law_arrays_match_item_by_item(
    expected: Vec<Json>,
    actual: Vec<Json>,
    r: Option<Mismatch>,
    each: Seq<Option<Mismatch>>,
)
    requires
        json_subset_mismatch.ensures((&Json::Array(expected), &Json::Array(actual)), r),
        expected@.len() == actual@.len() ==> each.len() == expected@.len() && forall|i: int|
            0 <= i < each.len() ==> json_subset_mismatch.ensures(
                (&expected@[i], &actual@[i]),
                #[trigger] each[i],
            ),
    ensures
        expected@.len() != actual@.len() ==> r is Some && r->0 is ArrayLength
            && r->0->ArrayLength_expected == expected@.len() && r->0->ArrayLength_actual
            == actual@.len() && r->0->ArrayLength_path@ == "<root>"@,
        expected@.len() == actual@.len() ==> (r is None <==> forall|i: int|
            0 <= i < each.len() ==> (#[trigger] each[i]) is None),
{
    reveal_strlit("");
    if expected@.len() == actual@.len() {
        let e = Json::Array(expected);
        let a = Json::Array(actual);
        assert forall|i: int| 0 <= i < each.len() implies (#[trigger] each[i]) is None == subset(
            expected@[i],
            actual@[i],
        ) by {}
        if forall|i: int| 0 <= i < each.len() ==> (#[trigger] each[i]) is None {
            assert forall|i: int| 0 <= i < expected@.len() implies subset(
                #[trigger] expected@[i],
                actual@[i],
            ) by {
                assert(each[i] is None);
            }
            assert(subset(e, a));
        }
        if r is None {
            assert forall|i: int| 0 <= i < each.len() implies (#[trigger] each[i]) is None by {
                assert(subset(expected@[i], actual@[i]));
            }
        }
    }
}

/// Objects match exactly when every member of the golden one is there and
/// matches; members that only the other has make no difference.
pub proof fn law_objects_match_member_by_member(
    expected: Vec<(String, Json)>,
    actual: Vec<(String, Json)>,
    r: Option<Mismatch>,
    found: Seq<int>,
    each: Seq<Option<Mismatch>>,
)
    requires
        json_subset_mismatch.ensures((&Json::Object(expected), &Json::Object(actual)), r),
        found.len() == expected@.len(),
        each.len() == expected@.len(),
        forall|i: int|
            0 <= i < found.len() ==> 0 <= (#[trigger] found[i]) < actual@.len()
                && actual@[found[i]].0@ == expected@[i].0@ && forall|j: int|
                0 <= j < found[i] ==> (#[trigger] actual@[j]).0@ != expected@[i].0@,
        forall|i: int|
            0 <= i < each.len() ==> json_subset_mismatch.ensures(
                (&expected@[i].1, &actual@[found[i]].1),
                #[trigger] each[i],
            ),
    ensures
        r is None <==> forall|i: int| 0 <= i < each.len() ==> (#[trigger] each[i]) is None,
{
    let e = Json::Object(expected);
    let a = Json::Object(actual);
    assert forall|i: int| 0 <= i < each.len() implies json::key_index(
        actual@,
        (#[trigger] expected@[i]).0@,
    ) == found[i] && each[i] is None == subset(expected@[i].1, actual@[found[i]].1) by {
        assert(0 <= found[i] < actual@.len());
        json::lemma_key_index_is(actual@, expected@[i].0@, found[i]);
        assert(each[i] is None || each[i] is Some);
    }
    if forall|i: int| 0 <= i < each.len() ==> (#[trigger] each[i]) is None {
        assert forall|i: int| 0 <= i < expected@.len() implies {
            let k = json::key_index(actual@, (#[trigger] expected@[i]).0@);
            0 <= k < actual@.len() && subset(expected@[i].1, actual@[k].1)
        } by {
            assert(each[i] is None);
            assert(0 <= found[i] < actual@.len());
        }
        assert(subset(e, a));
    }
    if r is None {
        assert forall|i: int| 0 <= i < each.len() implies (#[trigger] each[i]) is None by {
            let k = json::key_index(actual@, expected@[i].0@);
            assert(e->Object_0@[i].0@ == expected@[i].0@);
            assert(0 <= k < actual@.len() && subset(expected@[i].1, actual@[k].1));
        }
    }
}

/// A member of the golden object that is not there is a mismatch.
pub proof fn law_missing_member_is_a_mismatch(
    expected: Vec<(String, Json)>,
    actual: Vec<(String, Json)>,
    i: int,
    r: Option<Mismatch>,
)
    requires
        json_subset_mismatch.ensures((&Json::Object(expected), &Json::Object(actual)), r),
        0 <= i < expected@.len(),
        forall|j: int|
            0 <= j < actual@.len() ==> (#[trigger] actual@[j]).0@ != expected@[i].0@,
    ensures
        r is Some,
        i == 0 ==> r->0 is MissingKey && r->0->key@ == expected@[0].0@ && r->0->MissingKey_path@
            == "<root>"@ && r->0->keys@.len() == actual@.len(),
{
    reveal_strlit("");
    json::lemma_key_index_is(actual@, expected@[i].0@, actual@.len() as int);
    if r is None {
        let e = Json::Object(expected);
        assert(subset(e, Json::Object(actual)));
        let k = json::key_index(actual@, expected@[i].0@);
        assert(e->Object_0@[i].0@ == expected@[i].0@);
        assert(0 <= k < actual@.len());
    }
    if i == 0 {
        let m = r->0;
        let at = choose|at: int|
            {
                &&& 0 <= at < expected@.len()
                &&& forall|j: int|
                    0 <= j < at ==> {
                        let k = json::key_index(actual@, (#[trigger] expected@[j]).0@);
                        0 <= k < actual@.len() && subset(expected@[j].1, actual@[k].1)
                    }
                &&& {
                    let key = (#[trigger] expected@[at]).0@;
                    let k = json::key_index(actual@, key);
                    if 0 <= k < actual@.len() {
                        !subset(expected@[at].1, actual@[k].1) && departs(
                            expected@[at].1,
                            actual@[k].1,
                            member(""@, key),
                            m,
                        )
                    } else {
                        m matches Mismatch::MissingKey { path: p, key: q, keys } && p@ == shown(
                            ""@,
                        ) && q@ == key && text::texts(keys@) == keys_of(actual@)
                    }
                }
            };
        if at > 0 {
            let k = json::key_index(actual@, expected@[0].0@);
            assert(0 <= k < actual@.len());
        }
        assert(text::texts(m->keys@).len() == m->keys@.len());
        assert(keys_of(actual@).len() == actual@.len());
    }
}

/// The words of a mismatch name where it stands and what differs.
pub proof fn law_mismatch_names_its_place(m: &Mismatch, r: String)
    requires
        Mismatch::message.ensures((m,), r),
    ensures
        match *m {
            Mismatch::MissingKey { path, key, keys } => text::starts_with(
                r@,
                "JSON subset mismatch at `"@ + path@ + "`: key `"@ + key@
                    + "` missing from actual"@,
            ),
            Mismatch::ArrayLength { path, expected, actual } => r@ == "JSON subset mismatch at `"@
                + path@ + "`: array length differs (expected "@ + text::decimal(expected as nat)
                + ", actual "@ + text::decimal(actual as nat) + ")"@,
            Mismatch::Leaf { path, expected, actual } => r@ == "JSON subset mismatch at `"@ + path@
                + "`: expected "@ + json::content_text(expected@) + ", actual "@
                + json::content_text(actual@),
        },
{
    match *m {
        Mismatch::MissingKey { path, key, keys } => {
            let head = "JSON subset mismatch at `"@ + path@ + "`: key `"@ + key@
                + "` missing from actual"@;
            assert(r@.take(head.len() as int) =~= head);
        },
        Mismatch::Leaf { path, expected, actual } => {
            assert(r@ =~= "JSON subset mismatch at `"@ + path@ + "`: expected "@
                + json::content_text(expected@) + ", actual "@ + json::content_text(actual@));
        },
        _ => {},
    }
}

/// A mismatch within an object is told by the names on the way to it, with dots
/// between them, and one within an array by its place in brackets.
pub proof fn law_mismatch_is_told_by_its_path(
    outer: String,
    inner: String,
    expected: Json,
    actual: Json,
    in_object: (Vec<(String, Json)>, Vec<(String, Json)>),
    in_array: (Vec<Json>, Vec<Json>),
    object_docs: (Vec<(String, Json)>, Vec<(String, Json)>),
    array_docs: (Vec<(String, Json)>, Vec<(String, Json)>),
    r: Option<Mismatch>,
    s: Option<Mismatch>,
)
    requires
        outer@.len() > 0,
        !(expected is Object) && !(expected is Array),
        !leaves_agree(expected@, actual@),
        in_object.0@ == seq![(inner, expected)],
        in_object.1@ == seq![(inner, actual)],
        in_array.0@ == seq![expected],
        in_array.1@ == seq![actual],
        object_docs.0@ == seq![(outer, Json::Object(in_object.0))],
        object_docs.1@ == seq![(outer, Json::Object(in_object.1))],
        array_docs.0@ == seq![(outer, Json::Array(in_array.0))],
        array_docs.1@ == seq![(outer, Json::Array(in_array.1))],
        json_subset_mismatch.ensures(
            (&Json::Object(object_docs.0), &Json::Object(object_docs.1)),
            r,
        ),
        json_subset_mismatch.ensures((&Json::Object(array_docs.0), &Json::Object(array_docs.1)), s),
    ensures
        r is Some && r->0 is Leaf && r->0->Leaf_path@ == outer@ + "."@ + inner@,
        s is Some && s->0 is Leaf && s->0->Leaf_path@ == outer@ + "["@ + text::decimal(0) + "]"@,
{
    reveal_strlit("");
    reveal_strlit(".");
    reveal_strlit("[");
    reveal_with_fuel(departs, 3);
    reveal_with_fuel(subset, 3);
    json::lemma_key_index_is(object_docs.1@, outer@, 0);
    json::lemma_key_index_is(array_docs.1@, outer@, 0);
    json::lemma_key_index_is(in_object.1@, inner@, 0);
    assert(!subset(expected, actual));
    let inner_object = Json::Object(in_object.0);
    assert(inner_object->Object_0@[0].0@ == inner@);
    assert(!subset(inner_object, Json::Object(in_object.1)));
    let inner_array = Json::Array(in_array.0);
    assert(inner_array->Array_0@[0] == expected);
    assert(!subset(inner_array, Json::Array(in_array.1)));
    let object = Json::Object(object_docs.0);
    assert(object->Object_0@[0].0@ == outer@);
    assert(!subset(object, Json::Object(object_docs.1)));
    let array = Json::Object(array_docs.0);
    assert(array->Object_0@[0].0@ == outer@);
    assert(!subset(array, Json::Object(array_docs.1)));
    assert(member(""@, outer@) == outer@);
    assert(shown(outer@ + "."@ + inner@) == outer@ + "."@ + inner@);
}

/// The words for a missing member list the members that are there, quoted and
/// in order.
pub proof fn law_missing_member_lists_the_others(
    path: String,
    key: String,
    keys: Vec<String>,
    r: String,
)
    requires
        Mismatch::message.ensures((&Mismatch::MissingKey { path, key, keys },), r),
    ensures
        r@ == "JSON subset mismatch at `"@ + path@ + "`: key `"@ + key@ + "` missing from actual"@
            + (" (actual keys: ["@ + text::join(
            text::texts(keys@).map_values(|t: Seq<char>| text::debug_text(t)),
            ", "@,
        ) + "])"@),
{
}

/// Of several mismatches the first is told: in an array that of the first item
/// that does not match.
pub proof fn law_first_mismatch_is_told(
    expected: Vec<Json>,
    actual: Vec<Json>,
    i: int,
    earlier: Seq<Option<Mismatch>>,
    r: Option<Mismatch>,
)
    requires
        expected@.len() == actual@.len(),
        0 <= i < expected@.len(),
        earlier.len() == i,
        forall|j: int|
            0 <= j < i ==> json_subset_mismatch.ensures(
                (&expected@[j], &actual@[j]),
                #[trigger] earlier[j],
            ) && earlier[j] is None,
        !(expected@[i] is Object) && !(expected@[i] is Array),
        !leaves_agree(expected@[i]@, actual@[i]@),
        json_subset_mismatch.ensures((&Json::Array(expected), &Json::Array(actual)), r),
    ensures
        r is Some && r->0 is Leaf,
        r->0->Leaf_path@ == "["@ + text::decimal(i as nat) + "]"@,
        r->0->Leaf_expected@ == expected@[i]@,
        r->0->Leaf_actual@ == actual@[i]@,
{
    reveal_strlit("");
    reveal_strlit("[");
    let e = Json::Array(expected);
    let a = Json::Array(actual);
    assert(!subset(expected@[i], actual@[i]));
    assert(e->Array_0@[i] == expected@[i]);
    assert(!subset(e, a));
    let m = r->0;
    let at = choose|at: int|
        {
            &&& 0 <= at < expected@.len()
            &&& forall|j: int| 0 <= j < at ==> subset(#[trigger] expected@[j], actual@[j])
            &&& !subset(expected@[at], actual@[at])
            &&& departs(#[trigger] expected@[at], actual@[at], item(""@, at as nat), m)
        };
    if at < i {
        assert(earlier[at] is None);
    } else if i < at {
        assert(subset(expected@[i], actual@[i]));
    }
    assert(item(""@, i as nat) =~= "["@ + text::decimal(i as nat) + "]"@);
}

/// In an object the first mismatch is that of the first member, in the order of
/// the golden document, that is missing or does not match.
pub proof fn law_first_mismatching_member_is_told(
    expected: Vec<(String, Json)>,
    actual: Vec<(String, Json)>,
    i: int,
    k: int,
    r: Option<Mismatch>,
)
    requires
        0 <= i < expected@.len(),
        forall|j: int| 0 <= j < i ==> pins(expected@, actual@, j),
        expected@[i].0@.len() > 0,
        0 <= k <= actual@.len(),
        k < actual@.len() ==> actual@[k].0@ == expected@[i].0@,
        forall|j: int| 0 <= j < k ==> (#[trigger] actual@[j]).0@ != expected@[i].0@,
        !(expected@[i].1 is Object) && !(expected@[i].1 is Array),
        k < actual@.len() ==> !leaves_agree(expected@[i].1@, actual@[k].1@),
        json_subset_mismatch.ensures((&Json::Object(expected), &Json::Object(actual)), r),
    ensures
        r is Some,
        k == actual@.len() ==> r->0 is MissingKey && r->0->key@ == expected@[i].0@,
        k < actual@.len() ==> r->0 is Leaf && r->0->Leaf_path@ == expected@[i].0@
            && r->0->Leaf_expected@ == expected@[i].1@ && r->0->Leaf_actual@ == actual@[k].1@,
{
    reveal_strlit("");
    let e = Json::Object(expected);
    let a = Json::Object(actual);
    json::lemma_key_index_is(actual@, expected@[i].0@, k);
    if k < actual@.len() {
        assert(!subset(expected@[i].1, actual@[k].1));
    }
    assert(e->Object_0@[i].0@ == expected@[i].0@);
    assert(!subset(e, a));
    let m = r->0;
    let at = choose|at: int|
        {
            &&& 0 <= at < expected@.len()
            &&& forall|j: int|
                0 <= j < at ==> {
                    let n = json::key_index(actual@, (#[trigger] expected@[j]).0@);
                    0 <= n < actual@.len() && subset(expected@[j].1, actual@[n].1)
                }
            &&& {
                let key = (#[trigger] expected@[at]).0@;
                let n = json::key_index(actual@, key);
                if 0 <= n < actual@.len() {
                    !subset(expected@[at].1, actual@[n].1) && departs(
                        expected@[at].1,
                        actual@[n].1,
                        member(""@, key),
                        m,
                    )
                } else {
                    m matches Mismatch::MissingKey { path: p, key: q, keys } && p@ == shown(""@)
                        && q@ == key && text::texts(keys@) == keys_of(actual@)
                }
            }
        };
    if at < i {
        assert(pins(expected@, actual@, at));
    } else if i < at {
        let n = json::key_index(actual@, expected@[i].0@);
        assert(0 <= n < actual@.len() && subset(expected@[i].1, actual@[n].1));
    }
}

/// Whether the member at `j` of a golden object stands in another and matches.
pub open spec fn pins(
    expected: Seq<(String, Json)>,
    actual: Seq<(String, Json)>,
    j: int,
) -> bool {
    let k = json::key_index(actual, expected[j].0@);
    0 <= k < actual.len() && subset(expected[j].1, actual[k].1)
}

} // verus!

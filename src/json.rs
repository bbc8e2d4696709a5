use vstd::prelude::*;
use crate::text::same_text;

verus! {

/// A JSON document, with the members of each object in document order.
#[derive(Debug, PartialEq, Eq)]
pub enum Json {
    Null,
    Bool(bool),
    /// A number, as its decimal text.
    Number(String),
    Str(String),
    Array(Vec<Json>),
    Object(Vec<(String, Json)>),
}

/// The value of the first member of `entries` named `key`.
pub open spec fn field(entries: Seq<(String, Json)>, key: Seq<char>) -> Option<Json>
    decreases entries.len(),
{
    if entries.len() == 0 {
        None
    } else if entries[0].0@ == key {
        Some(entries[0].1)
    } else {
        field(entries.drop_first(), key)
    }
}

/// The names of the members of an object, in order.
pub open spec fn keys(entries: Seq<(String, Json)>) -> Seq<Seq<char>> {
    entries.map_values(|e: (String, Json)| e.0@)
}

/// Looking up from position `i` either stops there or goes on from `i + 1`.
pub proof fn lemma_field_step(entries: Seq<(String, Json)>, key: Seq<char>, i: int)
    requires
        0 <= i < entries.len(),
    ensures
        field(entries.subrange(i, entries.len() as int), key) == if entries[i].0@ == key {
            Some(entries[i].1)
        } else {
            field(entries.subrange(i + 1, entries.len() as int), key)
        },
{
    assert(entries.subrange(i, entries.len() as int).drop_first() =~= entries.subrange(
        i + 1,
        entries.len() as int,
    ));
}

/// No member is named `key`.
pub proof fn lemma_field_absent(entries: Seq<(String, Json)>, key: Seq<char>)
    requires
        forall|j: int| 0 <= j < entries.len() ==> entries[j].0@ != key,
    ensures
        field(entries, key) == None::<Json>,
    decreases entries.len(),
{
    if entries.len() > 0 {
        lemma_field_absent(entries.drop_first(), key);
    }
}

/// Looks up the first member of an object named `key`.
pub fn get_field<'a>(entries: &'a Vec<(String, Json)>, key: &str) -> (r: Option<&'a Json>)
    ensures
        match r {
            Some(v) => field(entries@, key@) == Some(*v),
            None => field(entries@, key@) == None::<Json>,
        },
{
    let n = entries.len();
    let mut i: usize = 0;
    proof {
        assert(entries@.subrange(0, n as int) =~= entries@);
    }
    while i < n
        invariant
            n == entries@.len(),
            i <= n,
            field(entries@, key@) == field(entries@.subrange(i as int, n as int), key@),
        decreases n - i,
    {
        proof {
            lemma_field_step(entries@, key@, i as int);
        }
        if same_text(entries[i].0.as_str(), key) {
            return Some(&entries[i].1);
        }
        i = i + 1;
    }
    None
}

/// Appending a member changes the lookup of its own name only, and only
/// where that name was absent.
pub proof fn lemma_field_push(entries: Seq<(String, Json)>, x: (String, Json), key: Seq<char>)
    ensures
        field(entries.push(x), key) == if field(entries, key) is Some {
            field(entries, key)
        } else if x.0@ == key {
            Some(x.1)
        } else {
            None
        },
    decreases entries.len(),
{
    let p = entries.push(x);
    assert(p.len() > 0);
    if entries.len() > 0 {
        assert(p[0] == entries[0]);
        assert(p.drop_first() =~= entries.drop_first().push(x));
        lemma_field_push(entries.drop_first(), x, key);
    } else {
        assert(p[0] == x);
        assert(p.drop_first() =~= Seq::<(String, Json)>::empty());
        assert(field(p.drop_first(), key) == None::<Json>);
    }
}

/// Appends the member `key: v` to an object that has no member of that name.
pub fn push_member(entries: &mut Vec<(String, Json)>, key: &str, v: Json)
    requires
        field(old(entries)@, key@) == None::<Json>,
    ensures
        keys(final(entries)@) == keys(old(entries)@).push(key@),
        field(final(entries)@, key@) == Some(v),
        forall|k: Seq<char>|
            k != key@ ==> #[trigger] field(final(entries)@, k) == field(old(entries)@, k),
{
    let ghost before = entries@;
    let k = String::from_str(key);
    proof {
        assert forall|k2: Seq<char>| true implies #[trigger] field(before.push((k, v)), k2) == (
        if field(before, k2) is Some {
            field(before, k2)
        } else if k@ == k2 {
            Some(v)
        } else {
            None
        }) by {
            lemma_field_push(before, (k, v), k2);
        }
    }
    entries.push((k, v));
    assert(keys(entries@) =~= keys(before).push(key@));
}

/// `key` alone when `present`, else nothing.
pub open spec fn opt_keys(present: bool, key: Seq<char>) -> Seq<Seq<char>> {
    if present {
        seq![key]
    } else {
        Seq::empty()
    }
}

/// Appends the member `key: v` when `v` is present, to an object that has
/// no member of that name.
pub fn push_optional(entries: &mut Vec<(String, Json)>, key: &str, v: Option<Json>)
    requires
        field(old(entries)@, key@) == None::<Json>,
    ensures
        keys(final(entries)@) == keys(old(entries)@) + opt_keys(v is Some, key@),
        field(final(entries)@, key@) == v,
        forall|k: Seq<char>|
            k != key@ ==> #[trigger] field(final(entries)@, k) == field(old(entries)@, k),
{
    match v {
        Some(v) => push_member(entries, key, v),
        None => {
            assert(keys(entries@) =~= keys(entries@) + opt_keys(false, key@));
        },
    }
}

/// What `serde_json::from_str` reads from a text: `None` where the text is
/// not one JSON document.
pub uninterp spec fn parsed_json(text: Seq<char>) -> Option<Json>;

/// Relies on `serde_json::from_str` into `serde_json::Value`: the outcome
/// depends on the text alone; a failure carries serde_json's message.
#[verifier::external_body]
pub(crate) fn parse_json_text(text: &str) -> (r: Result<Json, String>)
    ensures
        match r {
            Ok(j) => parsed_json(text@) == Some(j),
            Err(_) => parsed_json(text@) == None::<Json>,
        },
{
    serde_json::from_str::<serde_json::Value>(text).map(json_from_value).map_err(|e| e.to_string())
}

/// Relies on the variants of `serde_json::Value`: carries each over to the
/// matching variant of [`Json`].
#[verifier::external_body]
fn json_from_value(v: serde_json::Value) -> Json {
    match v {
        serde_json::Value::Null => Json::Null,
        serde_json::Value::Bool(b) => Json::Bool(b),
        serde_json::Value::Number(n) => Json::Number(n.to_string()),
        serde_json::Value::String(s) => Json::Str(s),
        serde_json::Value::Array(a) => Json::Array(a.into_iter().map(json_from_value).collect()),
        serde_json::Value::Object(o) => Json::Object(
            o.into_iter().map(|(k, v)| (k, json_from_value(v))).collect(),
        ),
    }
}

/// What `serde_json::to_string_pretty` writes for a document: two-space
/// indentation, members in order.
pub uninterp spec fn pretty_text(j: Json) -> Seq<char>;

/// Relies on `serde_json::to_string_pretty` on the matching
/// `serde_json::Value`: the text depends on the document alone.
#[verifier::external_body]
pub(crate) fn render_pretty(j: &Json) -> (r: String)
    ensures
        r@ == pretty_text(*j),
{
    serde_json::to_string_pretty(&value_from_json(j)).unwrap_or_default()
}

/// Relies on the variants of `serde_json::Value`: carries each variant of
/// [`Json`] over to the matching one; a number is read back from its text.
#[verifier::external_body]
fn value_from_json(j: &Json) -> serde_json::Value {
    match j {
        Json::Null => serde_json::Value::Null,
        Json::Bool(b) => serde_json::Value::Bool(*b),
        Json::Number(n) => serde_json::from_str(n).unwrap_or(serde_json::Value::Null),
        Json::Str(s) => serde_json::Value::String(s.clone()),
        Json::Array(a) => serde_json::Value::Array(a.iter().map(value_from_json).collect()),
        Json::Object(o) => serde_json::Value::Object(
            o.iter().map(|(k, v)| (k.clone(), value_from_json(v))).collect(),
        ),
    }
}

/// serde_json's document type, which the conversions to and from [`Json`]
/// pass through.
#[verifier::external_type_specification]
#[verifier::external_body]
pub struct ExJsonValue(serde_json::Value);

} // verus!

use vstd::prelude::*;

verus! {

/// A JSON value, as the library reads documents that `serde_json` parsed. Numbers keep their
/// text; the library reads none of them.
pub enum Json {
    Null,
    Bool(bool),
    Number(String),
    Str(String),
    Array(Vec<Json>),
    Object(Vec<(String, Json)>),
}

/// The value under `key` among an object's members; the first one where a key occurs twice.
pub open spec fn member(entries: Seq<(String, Json)>, key: Seq<char>) -> Option<Json>
    decreases entries.len(),
{
    if entries.len() == 0 {
        None
    } else if entries[0].0@ == key {
        Some(entries[0].1)
    } else {
        member(entries.drop_first(), key)
    }
}

/// `v[key]`: the member `key` of an object; `None` where `v` is no object or has no such
/// member (`serde_json` gives `null` there).
pub open spec fn field(v: Option<Json>, key: Seq<char>) -> Option<Json> {
    match v {
        Some(Json::Object(entries)) => member(entries@, key),
        _ => None,
    }
}

/// The text of a string value.
pub open spec fn as_text(v: Option<Json>) -> Option<Seq<char>> {
    match v {
        Some(Json::Str(s)) => Some(s@),
        _ => None,
    }
}

/// The value of a boolean.
pub open spec fn as_boolean(v: Option<Json>) -> Option<bool> {
    match v {
        Some(Json::Bool(b)) => Some(b),
        _ => None,
    }
}

/// The elements of an array.
pub open spec fn as_elements(v: Option<Json>) -> Option<Seq<Json>> {
    match v {
        Some(Json::Array(items)) => Some(items@),
        _ => None,
    }
}

/// The value behind an optional reference.
pub open spec fn opt_value(v: Option<&Json>) -> Option<Json> {
    match v {
        Some(j) => Some(*j),
        None => None,
    }
}

/// Looks up `v[key]`.
pub fn get_field<'a>(v: Option<&'a Json>, key: &str) -> (r: Option<&'a Json>)
    ensures
        match r {
            Some(x) => field(opt_value(v), key@) == Some(*x),
            None => field(opt_value(v), key@) is None,
        },
{
    match v {
        Some(Json::Object(entries)) => {
            let k = String::from_str(key);
            let mut i: usize = 0;
            assert(entries@.subrange(0, entries@.len() as int) =~= entries@);
            while i < entries.len()
                invariant
                    i <= entries@.len(),
                    k@ == key@,
                    field(opt_value(v), key@) == member(entries@, key@),
                    member(entries@, key@) == member(
                        entries@.subrange(i as int, entries@.len() as int),
                        key@,
                    ),
                decreases entries@.len() - i,
            {
                let ghost rest = entries@.subrange(i as int, entries@.len() as int);
                assert(rest.drop_first() =~= entries@.subrange(i + 1, entries@.len() as int));
                assert(rest[0] == entries@[i as int]);
                if entries[i].0 == k {
                    return Some(&entries[i].1);
                }
                i = i + 1;
            }
            None
        },
        _ => None,
    }
}

/// The text of a string value.
pub fn get_text<'a>(v: Option<&'a Json>) -> (r: Option<&'a String>)
    ensures
        match r {
            Some(s) => as_text(opt_value(v)) == Some(s@),
            None => as_text(opt_value(v)) is None,
        },
{
    match v {
        Some(Json::Str(s)) => Some(s),
        _ => None,
    }
}

/// The value of a boolean.
pub fn get_boolean(v: Option<&Json>) -> (r: Option<bool>)
    ensures
        r == as_boolean(opt_value(v)),
{
    match v {
        Some(Json::Bool(b)) => Some(*b),
        _ => None,
    }
}

/// The elements of an array.
pub fn get_elements<'a>(v: Option<&'a Json>) -> (r: Option<&'a Vec<Json>>)
    ensures
        match r {
            Some(items) => as_elements(opt_value(v)) == Some(items@),
            None => as_elements(opt_value(v)) is None,
        },
{
    match v {
        Some(Json::Array(items)) => Some(items),
        _ => None,
    }
}

#[verifier::external_type_specification]
#[verifier::external_body]
pub struct ExJsonValue(serde_json::Value);

/// The value that `serde_json` parses from `text`; `None` where `text` is not JSON.
pub uninterp spec fn json_text_parse(text: Seq<char>) -> Option<Json>;

/// Turns a parsed `serde_json::Value` into a `Json`, one for one: each variant into its
/// counterpart, numbers into their text, an object's members in `serde_json`'s order.
#[verifier::external_body]
fn value_to_json(v: &serde_json::Value) -> Json {
    match v {
        serde_json::Value::Null => Json::Null,
        serde_json::Value::Bool(b) => Json::Bool(*b),
        serde_json::Value::Number(n) => Json::Number(n.to_string()),
        serde_json::Value::String(s) => Json::Str(s.clone()),
        serde_json::Value::Array(a) => Json::Array(a.iter().map(value_to_json).collect()),
        serde_json::Value::Object(m) => Json::Object(
            m.iter().map(|(k, x)| (k.clone(), value_to_json(x))).collect(),
        ),
    }
}

/// Calls `serde_json::from_str` for a `serde_json::Value`, and names the value parsed, in the
/// library's terms, `json_text_parse`. Claimed: it succeeds exactly where that name has a
/// value, and gives that value. The error's message is left unsaid.
#[verifier::external_body]
pub fn parse_json(text: &str) -> (r: Result<Json, String>)
    ensures
        r is Err <==> json_text_parse(text@) is None,
        r matches Ok(v) ==> json_text_parse(text@) == Some(v),
{
    match serde_json::from_str::<serde_json::Value>(text) {
        Ok(v) => Ok(value_to_json(&v)),
        Err(e) => Err(e.to_string()),
    }
}

/// The version that a `package.json` document states: its `version` member, where that is a
/// string.
pub fn package_version(doc: &Json) -> (r: Option<String>)
    ensures
        match r {
            Some(s) => as_text(field(Some(*doc), "version"@)) == Some(s@),
            None => as_text(field(Some(*doc), "version"@)) is None,
        },
{
    match get_text(get_field(Some(doc), "version")) {
        Some(s) => Some(s.clone()),
        None => None,
    }
}

/// The message where `package.json` states no version.
pub open spec fn missing_version_message() -> Seq<char> {
    "runtime dsh package.json 缺少 version"@
}

/// The version that the text of dsh's `package.json` states: an error where the text is not
/// JSON (with `serde_json`'s message) or states no version as a string.
pub fn package_version_from_text(text: &str) -> (r: Result<String, String>)
    ensures
        json_text_parse(text@) is None ==> r is Err,
        json_text_parse(text@) matches Some(doc) ==> match as_text(field(Some(doc), "version"@)) {
            Some(v) => (r matches Ok(s) && s@ == v),
            None => (r matches Err(m) && m@ == missing_version_message()),
        },
{
    match parse_json(text) {
        Err(e) => Err(e),
        Ok(doc) => match package_version(&doc) {
            Some(v) => Ok(v),
            None => Err(String::from_str("runtime dsh package.json 缺少 version")),
        },
    }
}

} // verus!

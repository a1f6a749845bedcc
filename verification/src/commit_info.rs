//! The commit information that accompanies the creation of a table, kept in
//! the JSON object the table engine expects.

use vstd::prelude::*;

verus! {

/// `serde_json::Value`, carried through without looking inside.
#[verifier::external_type_specification]
#[verifier::external_body]
pub struct ExJsonValue(serde_json::Value);

/// `serde_json::Map`, carried through without looking inside.
#[verifier::external_type_specification]
#[verifier::external_body]
#[verifier::reject_recursive_types(K)]
#[verifier::reject_recursive_types(V)]
pub struct ExJsonMap<K, V>(serde_json::Map<K, V>);

/// A JSON object: text keys, JSON values.
pub type JsonObject = serde_json::Map<String, serde_json::Value>;

/// What a JSON object holds: under each key that is present, `Some` of the
/// text where the value is a JSON string, and `None` where it is anything else.
pub uninterp spec fn json_entries(object: JsonObject) -> Map<Seq<char>, Option<Seq<char>>>;

/// An object without entries.
pub open spec fn no_entries() -> Map<Seq<char>, Option<Seq<char>>> {
    Map::empty()
}

/// Calls `serde_json::Map::new`, which makes an object without entries.
#[verifier::external_body]
fn empty_object() -> (object: JsonObject)
    ensures
        json_entries(object) == no_entries(),
{
    serde_json::Map::new()
}

/// Calls `serde_json::Map::insert` with the string `value` wrapped in
/// `serde_json::Value::String`. Afterwards the object holds `value` under
/// `key`, in place of whatever stood there, and its other entries as before.
#[verifier::external_body]
fn insert_string(object: &mut JsonObject, key: String, value: String)
    ensures
        json_entries(*final(object)) == json_entries(*old(object)).insert(key@, Some(value@)),
{
    object.insert(key, serde_json::Value::String(value));
}

/// The entries recorded with the creation of a table: the operation and the
/// user it is attributed to.
pub open spec fn creation_entries() -> Map<Seq<char>, Option<Seq<char>>> {
    no_entries().insert("operation"@, Some("CREATE TABLE"@)).insert(
        "userName"@,
        Some("test user"@),
    )
}

/// The two keys of the creation entries differ, so both entries are present.
pub proof fn lemma_creation_entries()
    ensures
        creation_entries().dom() =~= set!["operation"@, "userName"@],
        "operation"@ != "userName"@,
        creation_entries()["operation"@] == Some("CREATE TABLE"@),
        creation_entries()["userName"@] == Some("test user"@),
{
    reveal_strlit("operation");
    reveal_strlit("userName");
    assert("operation"@[0] == 'o');
    assert("userName"@[0] == 'u');
}

/// The commit information of a table creation.
pub fn creation_commit_info() -> (object: JsonObject)
    ensures
        json_entries(object) == creation_entries(),
{
    let mut object = empty_object();
    insert_string(&mut object, "operation".to_owned(), "CREATE TABLE".to_owned());
    insert_string(&mut object, "userName".to_owned(), "test user".to_owned());
    object
}

} // verus!

//! The JSON documents that the service sends: one user, or a list of users.
//!
//! A user is written as an object with the one member `name`; a list of users
//! as an array of such objects, without white space.

use crate::model::{names_of, User};
use vstd::prelude::*;
use vstd::string::StringExecFns;

verus! {

/// The JSON string literal that stands for `text`, with its quotes and escapes.
pub uninterp spec fn json_string(text: Seq<char>) -> Seq<char>;

/// Calls `serde_json::to_string` on a string slice.
///
/// Trusted: the call succeeds, and what it returns depends on the text alone.
/// Writing a string slice into a buffer in memory meets none of the reasons for
/// which `serde_json` reports an error.
#[verifier::external_body]
fn encode_string(text: &str) -> (encoded: Option<String>)
    ensures
        encoded is Some,
        encoded->0@ == json_string(text@),
{
    serde_json::to_string(text).ok()
}

/// The object around an encoded name.
pub open spec fn object_around(encoded_name: Seq<char>) -> Seq<char> {
    "{\"name\":"@ + encoded_name + "}"@
}

/// The documents of a list, separated by commas.
pub open spec fn joined(documents: Seq<Seq<char>>) -> Seq<char>
    decreases documents.len(),
{
    if documents.len() == 0 {
        Seq::empty()
    } else if documents.len() == 1 {
        documents[0]
    } else {
        joined(documents.drop_last()) + ","@ + documents.last()
    }
}

/// The array around a list of documents.
pub open spec fn array_around(documents: Seq<Seq<char>>) -> Seq<char> {
    "["@ + joined(documents) + "]"@
}

/// The document of one user, by name.
pub open spec fn user_document(name: Seq<char>) -> Seq<char> {
    object_around(json_string(name))
}

/// The document of each of a list of names.
pub open spec fn user_documents(names: Seq<Seq<char>>) -> Seq<Seq<char>> {
    Seq::new(names.len(), |i: int| user_document(names[i]))
}

/// The document of a list of users, by their names.
pub open spec fn users_document(names: Seq<Seq<char>>) -> Seq<char> {
    array_around(user_documents(names))
}

/// The texts that a list of strings holds.
pub open spec fn texts(strings: Seq<String>) -> Seq<Seq<char>> {
    Seq::new(strings.len(), |i: int| strings[i]@)
}

/// Wraps a name that is already a JSON string literal into a user object.
pub fn name_object(encoded_name: &str) -> (document: String)
    ensures
        document@ == object_around(encoded_name@),
{
    let mut document = String::from_str("{\"name\":");
    document.append(encoded_name);
    document.append("}");
    document
}

/// Writes documents as one array, in their order.
pub fn array(documents: &Vec<String>) -> (document: String)
    ensures
        document@ == array_around(texts(documents@)),
{
    let mut document = String::from_str("[");
    let mut i: usize = 0;
    while i < documents.len()
        invariant
            i <= documents.len(),
            document@ == "["@ + joined(texts(documents@).take(i as int)),
        decreases documents.len() - i,
    {
        let ghost before = texts(documents@).take(i as int);
        let ghost after = texts(documents@).take(i + 1);
        assert(after.drop_last() == before);
        assert(after.last() == documents@[i as int]@);
        if i > 0 {
            document.append(",");
        }
        document.append(documents[i].as_str());
        i += 1;
    }
    assert(texts(documents@).take(i as int) == texts(documents@));
    document.append("]");
    document
}

/// The JSON document of one user.
pub fn user_text(user: &User) -> (document: String)
    ensures
        document@ == user_document(user@),
{
    let encoded = encode_string(user.name.as_str()).unwrap();
    name_object(encoded.as_str())
}

/// The JSON document of a list of users, in their order.
pub fn users_text(users: &Vec<User>) -> (document: String)
    ensures
        document@ == users_document(names_of(users@)),
{
    let mut documents: Vec<String> = Vec::new();
    let mut i: usize = 0;
    while i < users.len()
        invariant
            i <= users.len(),
            documents@.len() == i,
            forall|j: int| 0 <= j < i ==> (#[trigger] documents@[j])@ == user_document(users@[j]@),
        decreases users.len() - i,
    {
        documents.push(user_text(&users[i]));
        i += 1;
    }
    assert(texts(documents@) == user_documents(names_of(users@)));
    array(&documents)
}

} // verus!

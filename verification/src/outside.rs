//! The calls that leave this crate.  Each function below is believed, not
//! proved: its body is a single call into another crate, and its contract
//! says of that call only what the other crate documents.  Results that are
//! determined by the arguments but take a standard to describe (a digest, a
//! regular-expression match, a JSON text) are given a name; nothing is
//! claimed about the values the names take.

use rand::Rng;
use sha2::Digest;
use vstd::prelude::*;

verus! {

#[verifier::external_type_specification]
#[verifier::external_body]
pub struct ExRegexError(regex::Error);

#[verifier::external_type_specification]
#[verifier::external_body]
pub struct ExJsonError(serde_json::Error);

/// The SHA-256 digest of a byte string.
pub uninterp spec fn sha256_of(data: Seq<u8>) -> Seq<u8>;

/// Whether a pattern is a regular expression that `regex` accepts.
pub uninterp spec fn regex_accepts(pattern: Seq<char>) -> bool;

/// For each successive non-overlapping match of `pattern` in `text`, what
/// the capture group number `group` matched, if it took part.
pub uninterp spec fn regex_groups(pattern: Seq<char>, text: Seq<char>, group: nat) -> Seq<
    Option<Seq<char>>,
>;

/// The first match of `pattern` in `text`.
pub uninterp spec fn regex_first(pattern: Seq<char>, text: Seq<char>) -> Option<Seq<char>>;

/// The compact JSON text of an object with the given text, boolean and
/// number members.
pub uninterp spec fn json_object(
    texts: Seq<(Seq<char>, Seq<char>)>,
    flags: Seq<(Seq<char>, bool)>,
    numbers: Seq<(Seq<char>, u64)>,
) -> Seq<char>;

/// Whether a text is well-formed JSON.
pub uninterp spec fn json_accepts(text: Seq<char>) -> bool;

/// In the JSON `text`, the string found under `key` in element `index` of
/// the outermost array, if there is one.
pub uninterp spec fn json_text_at(text: Seq<char>, index: nat, key: Seq<char>) -> Option<
    Seq<char>,
>;

/// `sha2::Sha256::digest`: the SHA-256 digest of `data`.
#[verifier::external_body]
pub(crate) fn sha256(data: &[u8]) -> (digest: Vec<u8>)
    ensures
        digest@ == sha256_of(data@),
{
    sha2::Sha256::digest(data).to_vec()
}

/// `regex::Regex::captures_iter` on a pattern compiled by
/// `regex::Regex::new`: an error exactly for a pattern that is not
/// accepted, otherwise what `Captures::get(group)` holds for each match,
/// in order.
#[verifier::external_body]
pub(crate) fn captures(pattern: &str, text: &str, group: usize) -> (r: Result<
    Vec<Option<String>>,
    regex::Error,
>)
    ensures
        r is Ok == regex_accepts(pattern@),
        r matches Ok(found) ==> found.deep_view() == regex_groups(pattern@, text@, group as nat),
{
    let re = regex::Regex::new(pattern)?;
    Ok(re.captures_iter(text).map(|c| c.get(group).map(|m| m.as_str().to_string())).collect())
}

/// `regex::Regex::find` on a pattern compiled by `regex::Regex::new`: an
/// error exactly for a pattern that is not accepted, otherwise the text of
/// the first match.
#[verifier::external_body]
pub(crate) fn first_match(pattern: &str, text: &str) -> (r: Result<Option<String>, regex::Error>)
    ensures
        r is Ok == regex_accepts(pattern@),
        r matches Ok(found) ==> found.deep_view() == regex_first(pattern@, text@),
{
    let re = regex::Regex::new(pattern)?;
    Ok(re.find(text).map(|m| m.as_str().to_string()))
}

/// `serde_json::Value::to_string` of an object built with
/// `serde_json::Map::insert`: the compact JSON text of the members given.
#[verifier::external_body]
pub(crate) fn json_object_text(
    texts: &Vec<(String, String)>,
    flags: &Vec<(String, bool)>,
    numbers: &Vec<(String, u64)>,
) -> (r: String)
    ensures
        r@ == json_object(texts.deep_view(), flags.deep_view(), numbers.deep_view()),
{
    let mut members = serde_json::Map::new();
    for (k, v) in texts {
        members.insert(k.clone(), serde_json::Value::from(v.as_str()));
    }
    for (k, v) in flags {
        members.insert(k.clone(), serde_json::Value::from(*v));
    }
    for (k, v) in numbers {
        members.insert(k.clone(), serde_json::Value::from(*v));
    }
    serde_json::Value::Object(members).to_string()
}

/// `serde_json::from_str` into a `Value`, then `value[index][key].as_str()`:
/// an error exactly for a text that is not JSON, otherwise the string found
/// at that place, if any.
#[verifier::external_body]
pub(crate) fn json_member(text: &str, index: usize, key: &str) -> (r: Result<
    Option<String>,
    serde_json::Error,
>)
    ensures
        r is Ok == json_accepts(text@),
        r matches Ok(found) ==> found.deep_view() == json_text_at(text@, index as nat, key@),
{
    let value: serde_json::Value = serde_json::from_str(text)?;
    Ok(value[index][key].as_str().map(|s| s.to_string()))
}

/// `rand::Rng::gen::<u8>` on `rand::thread_rng()`: some byte.
#[verifier::external_body]
pub(crate) fn random_byte() -> u8 {
    rand::thread_rng().gen::<u8>()
}

/// `names::Generator::default().next()`: some name of the form
/// adjective, hyphen, noun; the generator never runs dry.
#[verifier::external_body]
pub(crate) fn random_name() -> (name: Option<String>)
    ensures
        name is Some,
        name matches Some(n) ==> n@.contains('-'),
{
    names::Generator::default().next()
}

/// `xid::new().to_string()`: the text of a freshly generated identifier.
#[verifier::external_body]
pub(crate) fn new_id() -> String {
    xid::new().to_string()
}

/// `num_cpus::get`: the number of processors at hand, at least one.
#[verifier::external_body]
pub(crate) fn host_cpus() -> (n: usize)
    ensures
        n >= 1,
{
    num_cpus::get()
}

} // verus!

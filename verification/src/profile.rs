//! Profile fetching: the normalized external profile snapshot and the
//! classification of a lookup response.
//!
//! The embedding process performs the HTTP round-trip and hands the library
//! either the response body or the news that transport failed; everything
//! after that point is decided here. The response body is a JSON document:
//! either `{"error": <text>}` or a profile object. Reading the document goes
//! through serde_json behind trusted wrappers; since what a JSON parse
//! returns is a function of the body text alone, each wrapper's result is
//! given a name (`lookup_error_of`, `lookup_text_of`, ...), and the
//! classification below is proved exact in terms of those names.

use vstd::prelude::*;

verus! {

/// One badge selected on the external profile.
pub struct Badge {
    pub code: String,
    pub name: String,
}

/// Read-only snapshot of the external profile. Missing optional fields
/// default instead of failing the whole fetch.
pub struct Profile {
    pub unique_id: String,
    pub figure_string: String,
    /// Free text; the channel for the challenge code.
    pub motto: String,
    pub online: bool,
    pub last_access_time: String,
    pub member_since: String,
    pub selected_badges: Vec<Badge>,
}

/// A failed profile fetch.
pub enum FetchError {
    /// Network failure before a response was obtained; nothing is known
    /// about the external account's state.
    Transport,
    /// Well-formed response reporting that the account does not exist or is
    /// private; carries the upstream error text verbatim.
    Upstream(String),
}

/// The text of the lookup document's `error` field: `Some` exactly when the
/// body parses to an object carrying that field (empty text when the field
/// is not a string), `None` otherwise. Names what `doc_error_text` returns.
pub uninterp spec fn lookup_error_of(body: Seq<char>) -> Option<Seq<char>>;

/// The text of the lookup document's string field `key`, empty when the
/// body is malformed or the field is absent or not a string. Names what
/// `doc_text` returns.
pub uninterp spec fn lookup_text_of(body: Seq<char>, key: Seq<char>) -> Seq<char>;

/// The lookup document's boolean field `key`, false when the body is
/// malformed or the field is absent or not a boolean. Names what `doc_bool`
/// returns.
pub uninterp spec fn lookup_bool_of(body: Seq<char>, key: Seq<char>) -> bool;

/// The (code, name) text pairs under the lookup document's
/// `selectedBadges` array, empty when the body is malformed or the field is
/// absent or not an array. Names what `doc_badges` returns.
pub uninterp spec fn lookup_badges_of(body: Seq<char>) -> Seq<(Seq<char>, Seq<char>)>;

/// Relies on serde_json (from_str, Value::get, Value::as_str): the text of
/// the document's `error` field, named `lookup_error_of`. The result
/// depends on the body text alone.
#[verifier::external_body]
fn doc_error_text(body: &str) -> (r: Option<String>)
    ensures
        r.deep_view() == lookup_error_of(body@),
{
    let v: serde_json::Value = serde_json::from_str(body).unwrap_or(serde_json::Value::Null);
    v.get("error").map(|e| e.as_str().unwrap_or("").to_owned())
}

/// Relies on serde_json (from_str, Value::get, Value::as_str): the text of
/// the document's string field `key`, named `lookup_text_of`. The result
/// depends on the body and key alone.
#[verifier::external_body]
fn doc_text(body: &str, key: &str) -> (r: String)
    ensures
        r@ == lookup_text_of(body@, key@),
{
    let v: serde_json::Value = serde_json::from_str(body).unwrap_or(serde_json::Value::Null);
    v.get(key).and_then(|f| f.as_str()).unwrap_or("").to_owned()
}

/// Relies on serde_json (from_str, Value::get, Value::as_bool): the
/// document's boolean field `key`, named `lookup_bool_of`. The result
/// depends on the body and key alone.
#[verifier::external_body]
fn doc_bool(body: &str, key: &str) -> (r: bool)
    ensures
        r == lookup_bool_of(body@, key@),
{
    let v: serde_json::Value = serde_json::from_str(body).unwrap_or(serde_json::Value::Null);
    v.get(key).and_then(|f| f.as_bool()).unwrap_or(false)
}

/// Relies on serde_json (from_str, Value::get, Value::as_array,
/// Value::as_str): the (code, name) pairs under `selectedBadges`, named
/// `lookup_badges_of`. The result depends on the body text alone.
#[verifier::external_body]
fn doc_badges(body: &str) -> (r: Vec<(String, String)>)
    ensures
        r.deep_view() == lookup_badges_of(body@),
{
    let v: serde_json::Value = serde_json::from_str(body).unwrap_or(serde_json::Value::Null);
    match v.get("selectedBadges").and_then(|b| b.as_array()) {
        None => Vec::new(),
        Some(arr) => arr.iter().map(
            |item| (
                item.get("code").and_then(|x| x.as_str()).unwrap_or("").to_owned(),
                item.get("name").and_then(|x| x.as_str()).unwrap_or("").to_owned(),
            ),
        ).collect(),
    }
}

/// True when `p` is the profile the body describes: every field carries its
/// named value, missing optional fields defaulted by the names themselves.
pub open spec fn is_profile_of(p: Profile, body: Seq<char>) -> bool {
    &&& p.unique_id@ == lookup_text_of(body, "uniqueId"@)
    &&& p.figure_string@ == lookup_text_of(body, "figureString"@)
    &&& p.motto@ == lookup_text_of(body, "motto"@)
    &&& p.online == lookup_bool_of(body, "online"@)
    &&& p.last_access_time@ == lookup_text_of(body, "lastAccessTime"@)
    &&& p.member_since@ == lookup_text_of(body, "memberSince"@)
    &&& p.selected_badges@.len() == lookup_badges_of(body).len()
    &&& forall|i: int|
        0 <= i < lookup_badges_of(body).len() ==> {
            &&& (#[trigger] p.selected_badges@[i]).code@ == lookup_badges_of(body)[i].0
            &&& p.selected_badges@[i].name@ == lookup_badges_of(body)[i].1
        }
}

/// Classify the body of a successful lookup response: the upstream error
/// text, verbatim, exactly when the document reports one; otherwise the
/// profile the body describes.
pub fn parse_lookup(body: &str) -> (r: Result<Profile, String>)
    ensures
        r is Err <==> lookup_error_of(body@) is Some,
        r is Err ==> r->Err_0@ == lookup_error_of(body@)->0,
        r is Ok ==> is_profile_of(r->Ok_0, body@),
{
    if let Some(text) = doc_error_text(body) {
        return Err(text);
    }
    let raw_badges = doc_badges(body);
    let mut selected_badges: Vec<Badge> = Vec::new();
    let n = raw_badges.len();
    let mut i: usize = 0;
    while i < n
        invariant
            n == raw_badges@.len(),
            i <= n,
            selected_badges@.len() == i,
            forall|k: int|
                0 <= k < i ==> {
                    &&& (#[trigger] selected_badges@[k]).code@ == raw_badges@[k].0@
                    &&& selected_badges@[k].name@ == raw_badges@[k].1@
                },
        decreases n - i,
    {
        let pair = &raw_badges[i];
        selected_badges.push(Badge { code: pair.0.clone(), name: pair.1.clone() });
        i += 1;
    }
    Ok(
        Profile {
            unique_id: doc_text(body, "uniqueId"),
            figure_string: doc_text(body, "figureString"),
            motto: doc_text(body, "motto"),
            online: doc_bool(body, "online"),
            last_access_time: doc_text(body, "lastAccessTime"),
            member_since: doc_text(body, "memberSince"),
            selected_badges,
        },
    )
}

/// Combine the transport outcome with the body classification: `body` is
/// `None` exactly when the HTTP round-trip failed before a response was
/// obtained; an obtained body classifies as `Upstream` carrying exactly the
/// document's error text, or as the profile the body describes.
pub fn classify_fetch(body: Option<&str>) -> (r: Result<Profile, FetchError>)
    ensures
        body is None <==> (r is Err && r->Err_0 is Transport),
        r is Ok <==> (body is Some && lookup_error_of(body->0@) is None),
        body is Some ==> {
            &&& ((r is Err && r->Err_0 is Upstream) ==> r->Err_0->Upstream_0@ == lookup_error_of(
                body->0@,
            )->0)
            &&& (r is Ok ==> is_profile_of(r->Ok_0, body->0@))
        },
{
    match body {
        None => Err(FetchError::Transport),
        Some(text) => match parse_lookup(text) {
            Ok(p) => Ok(p),
            Err(e) => Err(FetchError::Upstream(e)),
        },
    }
}

} // verus!

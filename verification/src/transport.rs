use vstd::prelude::*;

use crate::error::MistError;

verus! {

/// The text of the URL that `base`, parsed as an absolute URL, becomes once the
/// query parameter `name=value` is appended to it, form-urlencoded; `None` when
/// `base` is not an absolute URL. What `url::Url::parse_with_params` gives.
pub uninterp spec fn url_with_param(base: Seq<char>, name: Seq<char>, value: Seq<char>) -> Option<
    Seq<char>,
>;

/// `url::Url::parse_with_params` of the url crate, with one parameter, and the
/// URL it makes turned into its text. Claimed: it succeeds exactly when
/// `url_with_param` is some text, and then gives that text; the failure is the
/// crate's parse error. The text is a function of the three arguments alone.
#[verifier::external_body]
fn parse_with_param(base: &str, name: &str, value: &str) -> (res: Result<String, url::ParseError>)
    ensures
        res is Ok <==> url_with_param(base@, name@, value@) is Some,
        res matches Ok(text) ==> url_with_param(base@, name@, value@) == Some(text@),
{
    match url::Url::parse_with_params(base, &[(name, value)]) {
        Ok(url) => Ok(String::from(url)),
        Err(e) => Err(e),
    }
}

/// The name of the query parameter that carries a command.
pub open spec fn command_param() -> Seq<char> {
    "command"@
}

/// The URL of a request that sends the JSON text `command_json` to the Mist API
/// at `api_url`: the command goes, form-urlencoded, in the `command` query
/// parameter. An `api_url` that is not an absolute URL is refused.
pub fn build_request_url(api_url: &str, command_json: &str) -> (res: Result<String, MistError>)
    ensures
        res is Ok <==> url_with_param(api_url@, command_param(), command_json@) is Some,
        res matches Ok(url) ==> url_with_param(api_url@, command_param(), command_json@) == Some(
            url@,
        ),
        res matches Err(e) ==> e is InvalidUrl,
        res is Ok <==> url_with_param(api_url@, "command"@, command_json@) is Some,
        res matches Ok(url) ==> url_with_param(api_url@, "command"@, command_json@) == Some(url@),
{
    match parse_with_param(api_url, "command", command_json) {
        Ok(url) => Ok(url),
        Err(e) => Err(MistError::InvalidUrl(e)),
    }
}

/// What the JSON text `text` says in its `error` field, as `serde_json` reads it:
/// `None` when the text is not JSON; `Some(Some(m))` when it is an object whose
/// `error` field is the string `m`; `Some(None)` for any other JSON value. What
/// parsing with `serde_json::from_str` into a `serde_json::Value`, then taking
/// `value["error"].as_str()`, gives.
pub uninterp spec fn json_error_field(text: Seq<char>) -> Option<Option<Seq<char>>>;

/// `serde_json::from_str` of the serde_json crate into a `serde_json::Value`,
/// followed by reading the string in its `error` field (`value["error"].as_str()`).
/// Claimed: it fails exactly when `json_error_field` is `None`, with the crate's
/// parse error, and otherwise gives the field's string, or `None`, as
/// `json_error_field` says. The outcome is a function of the text alone.
#[verifier::external_body]
fn read_error_field(text: &str) -> (res: Result<Option<String>, serde_json::Error>)
    ensures
        res is Ok <==> json_error_field(text@) is Some,
        res matches Ok(field) ==> (json_error_field(text@) matches Some(f) && (field is Some
            <==> f is Some) && (field matches Some(m) ==> f == Some(m@))),
{
    match serde_json::from_str::<serde_json::Value>(text) {
        Ok(value) => Ok(value["error"].as_str().map(String::from)),
        Err(e) => Err(e),
    }
}

/// What the text of an answer of the Mist API means before it is decoded: a
/// text that is not JSON is a serialization error; a JSON object with a string
/// in its `error` field is an API error carrying that string; any other JSON
/// answer is a success.
pub fn check_api_answer(response_text: &str) -> (res: Result<(), MistError>)
    ensures
        json_error_field(response_text@) is None ==> res matches Err(MistError::Serialization(_)),
        json_error_field(response_text@) == Some(None::<Seq<char>>) <==> res is Ok,
        json_error_field(response_text@) matches Some(Some(m)) ==> (res matches Err(
            MistError::Api { message },
        ) && message@ == m),
{
    match read_error_field(response_text) {
        Ok(field) => check_api_error(field),
        Err(e) => Err(MistError::Serialization(e)),
    }
}

/// What an answer of the Mist API means once its `error` field is read: an
/// answer with an error message is an API error carrying that message; any other
/// answer is a success.
pub fn check_api_error(error_message: Option<String>) -> (res: Result<(), MistError>)
    ensures
        error_message is None <==> res is Ok,
        error_message matches Some(m) ==> (res matches Err(MistError::Api { message })
            && message == m),
{
    match error_message {
        Some(message) => Err(MistError::Api { message }),
        None => Ok(()),
    }
}

/// The key under which the server flags a stream list as cut short; it names no
/// stream.
pub open spec fn incomplete_marker() -> Seq<char> {
    "incomplete list"@
}

/// Whether an entry of a stream list names a stream, rather than being the flag
/// of a list cut short.
pub open spec fn names_stream<T>(entry: (String, T)) -> bool {
    entry.0@ != incomplete_marker()
}

/// The entries of a stream list, keyed by stream name, without the entry that
/// flags the list as cut short; the rest stay as they are, in their order.
pub fn drop_incomplete_marker<T>(entries: Vec<(String, T)>) -> (res: Vec<(String, T)>)
    ensures
        res@ == entries@.filter(|e: (String, T)| names_stream(e)),
        res@ == entries@.filter(|e: (String, T)| e.0@ != "incomplete list"@),
{
    let marker = String::from_str("incomplete list");
    let mut rest = entries;
    let ghost all = rest@;
    let mut kept: Vec<(String, T)> = Vec::new();
    let n = rest.len();
    proof {
        assert(all.take(0) =~= Seq::<(String, T)>::empty());
        reveal_with_fuel(Seq::<_>::filter, 1);
    }
    while rest.len() > 0
        invariant
            n == all.len(),
            rest@.len() <= n,
            rest@ == all.skip(n - rest@.len()),
            kept@ == all.take(n - rest@.len()).filter(|e: (String, T)| names_stream(e)),
            marker@ == incomplete_marker(),
        decreases rest.len(),
    {
        let ghost done = n - rest@.len();
        let entry = rest.remove(0);
        assert(entry == all[done]);
        assert(all.take(done + 1).drop_last() =~= all.take(done));
        assert(rest@ =~= all.skip(done + 1));
        proof {
            reveal_with_fuel(Seq::<_>::filter, 1);
        }
        if !(entry.0 == marker) {
            kept.push(entry);
        }
    }
    assert(all.take(n as int) =~= all);
    proof {
        lemma_only_marker_is_dropped(all, kept@);
    }
    kept
}

/// Reading a stream list drops exactly the entries keyed `incomplete list`:
/// every entry with another key is kept, in its order, and none keyed so is left.
pub proof fn lemma_only_marker_is_dropped<T>(entries: Seq<(String, T)>, res: Seq<(String, T)>)
    requires
        res == entries.filter(|e: (String, T)| names_stream(e)),
    ensures
        res == entries.filter(|e: (String, T)| e.0@ != "incomplete list"@),
        forall|e: (String, T)| entries.contains(e) && e.0@ != "incomplete list"@ ==> res.contains(e),
        forall|e: (String, T)| res.contains(e) ==> entries.contains(e) && e.0@ != "incomplete list"@,
{
    let p = |e: (String, T)| names_stream(e);
    let q = |e: (String, T)| e.0@ != "incomplete list"@;
    assert(p =~= q);
    assert forall|e: (String, T)| entries.contains(e) && e.0@ != "incomplete list"@ implies res.contains(
        e,
    ) by {
        let i = choose|i: int| 0 <= i < entries.len() && entries[i] == e;
        entries.lemma_filter_contains(q, i);
    }
    assert forall|e: (String, T)| res.contains(e) implies entries.contains(e) && e.0@
        != "incomplete list"@ by {
        entries.lemma_filter_contains_rev(q, e);
        let j = choose|j: int| 0 <= j < res.len() && res[j] == e;
        entries.lemma_filter_pred(q, j);
    }
}

} // verus!

use vstd::prelude::*;

use std::collections::HashMap;

use crate::error::MistError;

verus! {

/// `serde_json::Value`, any JSON value; carried as extra stream settings, never
/// looked into.
#[verifier::external_type_specification]
#[verifier::external_body]
pub struct ExJsonValue(serde_json::Value);

/// Longest stream name, in bytes, that the Mist server accepts.
pub const MAX_STREAM_NAME_LEN: usize = 100;

/// Whether `c` may stand in a stream name: an ASCII letter, an ASCII digit, `_`
/// or `-`.
pub open spec fn is_stream_name_char(c: char) -> bool {
    ||| ('a' <= c && c <= 'z')
    ||| ('A' <= c && c <= 'Z')
    ||| ('0' <= c && c <= '9')
    ||| c == '_'
    ||| c == '-'
}

/// Whether every character of `name` may stand in a stream name.
pub open spec fn has_only_stream_name_chars(name: Seq<char>) -> bool {
    forall|i: int| 0 <= i < name.len() ==> is_stream_name_char(#[trigger] name[i])
}

/// The length of `name` in bytes, as UTF-8.
pub open spec fn byte_len(name: Seq<char>) -> nat {
    vstd::utf8::encode_utf8(name).len()
}

/// Whether the Mist server accepts `name` as a stream name.
pub open spec fn valid_stream_name(name: Seq<char>) -> bool {
    byte_len(name) <= MAX_STREAM_NAME_LEN && has_only_stream_name_chars(name)
}

/// Whether `res` is what checking the stream name `name` gives: a name longer than
/// 100 bytes, or one that holds another character than those allowed, is refused
/// as a stream that failed validation, with the name and the reason; any other
/// name passes.
pub open spec fn name_check_result(name: Seq<char>, res: Result<(), MistError>) -> bool {
    if byte_len(name) > MAX_STREAM_NAME_LEN {
        res matches Err(MistError::Validation { target, name: n, error }) && target@ == "stream"@
            && n@ == name && error@ == "Stream name can not be more than 100 char"@
    } else if !has_only_stream_name_chars(name) {
        res matches Err(MistError::Validation { target, name: n, error }) && target@ == "stream"@
            && n@ == name && error@
            == "only lower case letters a-z, numbers, underscores _, dashes - and periods ."@
    } else {
        res is Ok
    }
}

/// Checks that every character of `name` may stand in a stream name.
pub fn check_stream_name_chars(name: &str) -> (res: Result<(), MistError>)
    ensures
        has_only_stream_name_chars(name@) ==> res is Ok,
        !has_only_stream_name_chars(name@) ==> (res matches Err(MistError::InvalidStreamName(s))
            && s@ == name@),
{
    for c in it: name.chars()
        invariant
            it.seq() == name@,
            forall|j: int| 0 <= j < it.index() ==> is_stream_name_char(#[trigger] name@[j]),
    {
        let allowed = ('a' <= c && c <= 'z') || ('A' <= c && c <= 'Z') || ('0' <= c && c <= '9')
            || c == '_' || c == '-';
        if !allowed {
            assert(name@[it.index() as int] == c);
            return Err(MistError::InvalidStreamName(name.to_owned()));
        }
    }
    Ok(())
}

/// A stream configuration, as sent in the `addstream` command.
#[derive(Debug, Clone)]
pub struct Stream {
    /// The source of the media: a file path, `push://`, `dtsc://`, an RTSP URL, ...
    pub source: String,
    /// The name of the stream; the key under which it is sent, not a setting.
    pub name: String,
    /// Keep the stream active even with no viewers.
    pub always_on: Option<bool>,
    /// Buffer duration in milliseconds for live streams.
    pub buffer_time: Option<i32>,
    /// Debug verbosity level.
    pub debug: Option<i32>,
    /// Stream to redirect to when this one cannot be opened.
    pub fallback_stream: Option<String>,
    /// Further settings for the source type (`username`, `password`, `cut_time`, ...).
    pub extra: Option<HashMap<String, serde_json::Value>>,
}

impl Default for Stream {
    /// An empty stream: no source, no name and no settings.
    fn default() -> (res: Stream)
        ensures
            res.source@ == Seq::<char>::empty(),
            res.name@ == Seq::<char>::empty(),
            res.always_on is None,
            res.buffer_time is None,
            res.debug is None,
            res.fallback_stream is None,
            res.extra is None,
    {
        Stream {
            source: String::new(),
            name: String::new(),
            always_on: None,
            buffer_time: None,
            debug: None,
            fallback_stream: None,
            extra: None,
        }
    }
}

/// Detailed information about a stream, as the server reports it.
#[derive(Debug, Clone)]
pub struct StreamInfo {
    /// The stream name (the same as its key in the enclosing map).
    pub name: String,
    /// The configured source.
    pub source: String,
    /// Debug level of this stream.
    pub debug: Option<i32>,
    /// Whether the stream is kept active.
    pub always_on: Option<bool>,
    /// Human-readable status, such as `"Available"`, or an error message.
    pub error: Option<String>,
    /// Online state: 0 error, 1 active, 2 inactive.
    pub online: Option<i32>,
    /// Any further fields the server sends.
    pub extra: HashMap<String, serde_json::Value>,
}

/// Fluent builder of a [`Stream`].
#[derive(Debug)]
pub struct StreamBuilder {
    source: String,
    name: String,
    always_on: Option<bool>,
    buffer_time: Option<i32>,
    debug: Option<i32>,
    fallback_stream: Option<String>,
    extra: Option<HashMap<String, serde_json::Value>>,
}

impl StreamBuilder {
    /// The stream that [`StreamBuilder::build`] makes when the name is accepted.
    pub closed spec fn stream(&self) -> Stream {
        Stream {
            source: self.source,
            name: self.name,
            always_on: self.always_on,
            buffer_time: self.buffer_time,
            debug: self.debug,
            fallback_stream: self.fallback_stream,
            extra: self.extra,
        }
    }

    /// Starts a stream with the given name and source and no further settings.
    pub fn new(name: &str, source: &str) -> (res: Self)
        ensures
            res.stream().name@ == name@,
            res.stream().source@ == source@,
            res.stream().always_on is None,
            res.stream().buffer_time is None,
            res.stream().debug is None,
            res.stream().fallback_stream is None,
            res.stream().extra is None,
    {
        StreamBuilder {
            source: source.to_owned(),
            name: name.to_owned(),
            always_on: None,
            buffer_time: None,
            debug: None,
            fallback_stream: None,
            extra: None,
        }
    }

    /// Replaces the name of the stream.
    pub fn name(self, value: &'static str) -> (res: Self)
        ensures
            res.stream().name@ == value@,
            res.stream() == (Stream { name: res.stream().name, ..self.stream() }),
    {
        StreamBuilder { name: value.to_owned(), ..self }
    }

    /// Keeps the stream active even with no viewers, or not.
    pub fn always_on(self, value: bool) -> (res: Self)
        ensures
            res.stream() == (Stream { always_on: Some(value), ..self.stream() }),
    {
        StreamBuilder { always_on: Some(value), ..self }
    }

    /// Sets the buffer duration in milliseconds.
    pub fn buffer_time(self, value: i32) -> (res: Self)
        ensures
            res.stream() == (Stream { buffer_time: Some(value), ..self.stream() }),
    {
        StreamBuilder { buffer_time: Some(value), ..self }
    }

    /// Sets the debug verbosity level.
    pub fn debug(self, value: i32) -> (res: Self)
        ensures
            res.stream() == (Stream { debug: Some(value), ..self.stream() }),
    {
        StreamBuilder { debug: Some(value), ..self }
    }

    /// Sets the stream to fall back to when this one cannot be opened.
    pub fn fallback_stream(self, value: &'static str) -> (res: Self)
        ensures
            (res.stream().fallback_stream matches Some(f) && f@ == value@),
            res.stream() == (Stream { fallback_stream: res.stream().fallback_stream, ..self.stream() }),
    {
        StreamBuilder { fallback_stream: Some(value.to_owned()), ..self }
    }

    /// Sets further settings for the source type.
    pub fn extra(self, value: HashMap<String, serde_json::Value>) -> (res: Self)
        ensures
            res.stream() == (Stream { extra: Some(value), ..self.stream() }),
    {
        StreamBuilder { extra: Some(value), ..self }
    }

    /// Checks that every character of `name` may stand in a stream name.
    pub fn validate_stream_name(&self, name: &str) -> (res: Result<(), MistError>)
        ensures
            has_only_stream_name_chars(name@) ==> res is Ok,
            !has_only_stream_name_chars(name@) ==> (res matches Err(MistError::InvalidStreamName(s))
                && s@ == name@),
    {
        check_stream_name_chars(name)
    }

    /// Checks the name of `stream`: no longer than 100 bytes, and made only of
    /// ASCII letters, ASCII digits, `_` and `-`. A name that fails is a
    /// [`MistError::Validation`] of the target `stream`, with the name and the reason.
    pub fn validate(stream: &Stream) -> (res: Result<(), MistError>)
        ensures
            name_check_result(stream.name@, res),
    {
        let len = stream.name.as_str().as_bytes().len();
        if len > MAX_STREAM_NAME_LEN {
            return Err(
                MistError::Validation {
                    target: "stream".to_owned(),
                    name: stream.name.clone(),
                    error: "Stream name can not be more than 100 char".to_owned(),
                },
            );
        }
        if check_stream_name_chars(stream.name.as_str()).is_err() {
            return Err(
                MistError::Validation {
                    target: "stream".to_owned(),
                    name: stream.name.clone(),
                    error: "only lower case letters a-z, numbers, underscores _, dashes - and periods ."
                        .to_owned(),
                },
            );
        }
        Ok(())
    }

    /// Makes the stream, once its name has passed [`StreamBuilder::validate`].
    pub fn build(self) -> (res: Result<Stream, MistError>)
        ensures
            valid_stream_name(self.stream().name@) <==> res is Ok,
            res matches Ok(s) ==> s == self.stream(),
            res matches Err(e) ==> name_check_result(self.stream().name@, Err(e)),
    {
        let stream = Stream {
            name: self.name,
            source: self.source,
            always_on: self.always_on,
            buffer_time: self.buffer_time,
            debug: self.debug,
            fallback_stream: self.fallback_stream,
            extra: self.extra,
        };
        match StreamBuilder::validate(&stream) {
            Ok(()) => Ok(stream),
            Err(e) => Err(e),
        }
    }
}

/// A stream name is accepted exactly when it is at most 100 bytes long and each
/// of its characters is an ASCII letter (`a` to `z`, `A` to `Z`), an ASCII digit
/// (`0` to `9`), `_` or `-`: a name with any other character, such as `+`, `.`,
/// `/`, a space or a letter outside ASCII, is refused, and so is a longer name.
pub proof fn lemma_stream_name_rule(name: Seq<char>, res: Result<(), MistError>)
    requires
        name_check_result(name, res),
    ensures
        res is Ok <==> (byte_len(name) <= 100 && forall|i: int|
            0 <= i < name.len() ==> {
                let c = #[trigger] name[i];
                ||| ('a' <= c && c <= 'z')
                ||| ('A' <= c && c <= 'Z')
                ||| ('0' <= c && c <= '9')
                ||| c == '_'
                ||| c == '-'
            }),
        valid_stream_name(name) <==> res is Ok,
        (exists|i: int|
            0 <= i < name.len() && (name[i] == '+' || name[i] == '.' || name[i] == '/' || name[i]
                == ' ')) ==> res is Err,
        byte_len(name) > 100 ==> res is Err,
{
}

} // verus!

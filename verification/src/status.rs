use vstd::prelude::*;

use std::collections::HashMap;

use crate::number::{decimal_value, parse_i32, parse_i32_spec};
use crate::text::{chars_of, split_at_first_space};

verus! {

/// Result of deleting the source file of a single stream.
///
/// The Mist API reports it as a text made of a numeric code, a space and a
/// message, such as `"1 Source deleted"`.
#[derive(Debug, Clone, PartialEq)]
pub enum DeleteStreamSourceStatus {
    /// No action was performed.
    NoAction,
    /// The stream's source file was removed.
    SourceDeleted,
    /// Both the source file and its generated DTSH index were removed.
    SourceAndDtshDeleted,
    /// A code that is not one of the above, with the message that came with it.
    Unknown(i32, String),
}

/// Answer of the `deletestreamsource` command: one status, a list of statuses in
/// the order of the names asked for, or statuses keyed by stream name.
#[derive(Debug, Clone)]
pub enum DeleteStreamSourceReponse {
    /// The status of the one stream asked for.
    Single(DeleteStreamSourceStatus),
    /// Statuses, in the order of the names asked for.
    Array(Vec<DeleteStreamSourceStatus>),
    /// Statuses keyed by stream name.
    Object(HashMap<String, DeleteStreamSourceStatus>),
}

/// The mathematical value of a [`DeleteStreamSourceStatus`].
pub enum StatusModel {
    NoAction,
    SourceDeleted,
    SourceAndDtshDeleted,
    Unknown(i32, Seq<char>),
}

impl View for DeleteStreamSourceStatus {
    type V = StatusModel;

    open spec fn view(&self) -> StatusModel {
        match self {
            DeleteStreamSourceStatus::NoAction => StatusModel::NoAction,
            DeleteStreamSourceStatus::SourceDeleted => StatusModel::SourceDeleted,
            DeleteStreamSourceStatus::SourceAndDtshDeleted => StatusModel::SourceAndDtshDeleted,
            DeleteStreamSourceStatus::Unknown(code, msg) => StatusModel::Unknown(*code, msg@),
        }
    }
}

/// Whether `i` is the position of the first space in `t`.
pub open spec fn is_first_space(t: Seq<char>, i: int) -> bool {
    &&& 0 <= i < t.len()
    &&& t[i] == ' '
    &&& !t.take(i).contains(' ')
}

/// The status that a code, read as a number, stands for.
pub open spec fn status_for_code(code: i32, msg: Seq<char>) -> StatusModel {
    if code == 0 {
        StatusModel::NoAction
    } else if code == 1 {
        StatusModel::SourceDeleted
    } else if code == 2 {
        StatusModel::SourceAndDtshDeleted
    } else {
        StatusModel::Unknown(code, msg)
    }
}

/// The status that the text `t` reports: the part before the first space is read
/// as an `i32` code and the part after it is the message. Codes 0, 1 and 2 are the
/// known outcomes; any other code is kept with its message. A text with no space,
/// or whose first part is not an `i32`, is an unknown status with code 0 and the
/// whole text as message.
pub open spec fn status_from_text(t: Seq<char>) -> StatusModel {
    if t.contains(' ') {
        let i = choose|i: int| is_first_space(t, i);
        match parse_i32_spec(t.take(i)) {
            Some(code) => status_for_code(code, t.skip(i + 1)),
            None => StatusModel::Unknown(0, t),
        }
    } else {
        StatusModel::Unknown(0, t)
    }
}

/// A text made of a code with no space in it, a space and a message reports the
/// status that the code stands for, with that message; a code that is not an
/// `i32` makes the whole text an unknown status with code 0.
pub proof fn lemma_status_of_code_and_message(code: Seq<char>, msg: Seq<char>)
    requires
        !code.contains(' '),
    ensures
        status_from_text(code + seq![' '] + msg) == match parse_i32_spec(code) {
            Some(n) => status_for_code(n, msg),
            None => StatusModel::Unknown(0, code + seq![' '] + msg),
        },
{
    let t = code + seq![' '] + msg;
    let i = code.len() as int;
    assert(t.take(i) =~= code);
    assert(t.skip(i + 1) =~= msg);
    assert(t[i] == ' ');
    assert(is_first_space(t, i));
    let j = choose|j: int| is_first_space(t, j);
    if j < i {
        assert(t[j] == code[j]);
        assert(code.contains(' '));
    } else if j > i {
        assert(t.take(j)[i] == ' ');
    }
}

/// The known codes 0, 1 and 2 each report their outcome, whatever the message.
pub proof fn lemma_known_codes(msg: Seq<char>)
    ensures
        status_from_text(seq!['0', ' '] + msg) == StatusModel::NoAction,
        status_from_text(seq!['1', ' '] + msg) == StatusModel::SourceDeleted,
        status_from_text(seq!['2', ' '] + msg) == StatusModel::SourceAndDtshDeleted,
{
    lemma_single_digit_code('0', msg);
    lemma_single_digit_code('1', msg);
    lemma_single_digit_code('2', msg);
    assert(seq!['0', ' '] + msg =~= seq!['0'] + seq![' '] + msg);
    assert(seq!['1', ' '] + msg =~= seq!['1'] + seq![' '] + msg);
    assert(seq!['2', ' '] + msg =~= seq!['2'] + seq![' '] + msg);
}

/// A code of one digit `d` stands for the number `d`.
proof fn lemma_single_digit_code(d: char, msg: Seq<char>)
    requires
        '0' <= d <= '9',
    ensures
        status_from_text(seq![d] + seq![' '] + msg) == status_for_code(
            (d as int - '0' as int) as i32,
            msg,
        ),
{
    let code = seq![d];
    assert(code.drop_last() =~= Seq::<char>::empty());
    assert(decimal_value(Seq::<char>::empty()) == 0);
    assert(code.last() == d);
    assert(decimal_value(code) == d as int - '0' as int);
    assert(!code.contains(' ')) by {
        if code.contains(' ') {
            let w = choose|w: int| 0 <= w < code.len() && code[w] == ' ';
            assert(w == 0);
        }
    }
    lemma_status_of_code_and_message(code, msg);
}

impl DeleteStreamSourceStatus {
    /// Reads the status that the Mist API reports as text, such as
    /// `"1 Source deleted"`.
    pub fn parse(text: &str) -> (res: DeleteStreamSourceStatus)
        ensures
            res@ == status_from_text(text@),
    {
        match split_at_first_space(text) {
            Some((head, tail)) => {
                proof {
                    lemma_status_of_code_and_message(head@, tail@);
                }
                let code_chars = chars_of(head);
                match parse_i32(&code_chars) {
                    Some(code) => {
                        if code == 0 {
                            DeleteStreamSourceStatus::NoAction
                        } else if code == 1 {
                            DeleteStreamSourceStatus::SourceDeleted
                        } else if code == 2 {
                            DeleteStreamSourceStatus::SourceAndDtshDeleted
                        } else {
                            DeleteStreamSourceStatus::Unknown(code, tail.to_owned())
                        }
                    },
                    None => DeleteStreamSourceStatus::Unknown(0, text.to_owned()),
                }
            },
            None => DeleteStreamSourceStatus::Unknown(0, text.to_owned()),
        }
    }
}

} // verus!

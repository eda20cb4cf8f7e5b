//! Classification of one input line into a message, by which members its
//! top-level object holds: `method` with `id` is a request, `method` alone a
//! notification, `result` or `error` without `method` a response.
use vstd::prelude::*;
use crate::json::{
    object_members, string_of_json, i64_of_json, pairs_view, parse_object, decode_string,
    decode_i64,
};
use crate::message::{
    RequestId, ErrorObject, Request, Response, Notification, Message, IdModel, ErrorModel,
    MessageModel,
};

verus! {

/// Why a line produced no message.
#[derive(Debug, PartialEq, Eq, Structural)]
pub enum ClassifyError {
    /// The line is no JSON object, matches no message shape, or a member
    /// that its shape requires does not decode.
    Malformed,
}

/// The value of the first member named `k`.
pub open spec fn member(m: Seq<(Seq<char>, Seq<char>)>, k: Seq<char>) -> Option<Seq<char>>
    decreases m.len(),
{
    if m.len() == 0 {
        None
    } else if m[0].0 == k {
        Some(m[0].1)
    } else {
        member(m.drop_first(), k)
    }
}

/// An optional member: absent, or present as `null`, reads as `None`.
pub open spec fn optional(t: Option<Seq<char>>) -> Option<Seq<char>> {
    match t {
        Some(x) => if x == "null"@ { None } else { Some(x) },
        None => None,
    }
}

/// A request identifier decoded from JSON text: a string first, else an `i64`.
pub open spec fn id_of(t: Seq<char>) -> Option<IdModel> {
    match string_of_json(t) {
        Some(s) => Some(IdModel::Str(s)),
        None => match i64_of_json(t) {
            Some(n) => Some(IdModel::Num(n as int)),
            None => None,
        },
    }
}

/// An error object decoded from the members of a JSON object.
pub open spec fn error_of(m: Seq<(Seq<char>, Seq<char>)>) -> Option<ErrorModel> {
    match (member(m, "code"@), member(m, "message"@)) {
        (Some(c), Some(t)) => match (i64_of_json(c), string_of_json(t)) {
            (Some(code), Some(message)) => Some(
                ErrorModel { code: code as int, message, data: optional(member(m, "data"@)) },
            ),
            _ => None,
        },
        _ => None,
    }
}

/// The `error` member of a response: `Some(None)` when absent or `null`,
/// `None` when it does not decode.
pub open spec fn error_member(t: Option<Seq<char>>) -> Option<Option<ErrorModel>> {
    match optional(t) {
        None => Some(None),
        Some(x) => match object_members(x) {
            Some(m) => match error_of(m) {
                Some(e) => Some(Some(e)),
                None => None,
            },
            None => None,
        },
    }
}

/// The message that the members of a top-level object stand for, if any.
pub open spec fn message_of(m: Seq<(Seq<char>, Seq<char>)>) -> Option<MessageModel> {
    if member(m, "method"@) is Some {
        match string_of_json(member(m, "method"@)->0) {
            None => None,
            Some(method) => if member(m, "id"@) is Some {
                match id_of(member(m, "id"@)->0) {
                    Some(id) => Some(
                        MessageModel::Request { id, method, params: optional(member(m, "params"@)) },
                    ),
                    None => None,
                }
            } else {
                Some(MessageModel::Notification { method, params: optional(member(m, "params"@)) })
            },
        }
    } else if member(m, "result"@) is Some || member(m, "error"@) is Some {
        let result = optional(member(m, "result"@));
        match (member(m, "id"@), error_member(member(m, "error"@))) {
            (Some(i), Some(error)) => match id_of(i) {
                Some(id) => if result is Some && error is Some {
                    None
                } else {
                    Some(MessageModel::Response { id, result, error })
                },
                None => None,
            },
            _ => None,
        }
    } else {
        None
    }
}

/// The message that a line of input stands for, if any.
pub open spec fn classified(line: Seq<char>) -> Option<MessageModel> {
    match object_members(line) {
        Some(m) => message_of(m),
        None => None,
    }
}

pub(crate) fn find_member(members: &Vec<(String, String)>, key: &str) -> (r: Option<String>)
    ensures
        (match r {
            Some(s) => Some(s@),
            None => None,
        }) == member(pairs_view(members@), key@),
{
    let k = String::from_str(key);
    let ghost pv = pairs_view(members@);
    let mut i: usize = 0;
    assert(pv.subrange(0, pv.len() as int) =~= pv);
    while i < members.len()
        invariant
            0 <= i <= members@.len(),
            pv == pairs_view(members@),
            k@ == key@,
            member(pv, key@) == member(pv.subrange(i as int, pv.len() as int), key@),
        decreases members@.len() - i,
    {
        let ghost rest = pv.subrange(i as int, pv.len() as int);
        assert(rest.drop_first() =~= pv.subrange(i + 1, pv.len() as int));
        assert(rest[0] == pv[i as int]);
        if members[i].0 == k {
            return Some(members[i].1.clone());
        }
        i = i + 1;
    }
    assert(pv.subrange(i as int, pv.len() as int).len() == 0);
    None
}

fn optional_member(members: &Vec<(String, String)>, key: &str) -> (r: Option<String>)
    ensures
        (match r {
            Some(s) => Some(s@),
            None => None,
        }) == optional(member(pairs_view(members@), key@)),
{
    match find_member(members, key) {
        Some(t) => {
            let null = String::from_str("null");
            if t == null {
                None
            } else {
                Some(t)
            }
        },
        None => None,
    }
}

fn decode_id(t: &str) -> (r: Option<RequestId>)
    ensures
        (match r {
            Some(id) => Some(id@),
            None => None,
        }) == id_of(t@),
{
    match decode_string(t) {
        Some(s) => Some(RequestId::Str(s)),
        None => match decode_i64(t) {
            Some(n) => Some(RequestId::Num(n)),
            None => None,
        },
    }
}

fn decode_error(t: &Option<String>) -> (r: Option<Option<ErrorObject>>)
    ensures
        (match r {
            Some(Some(e)) => Some(Some(e@)),
            Some(None) => Some(None),
            None => None,
        }) == error_member(match t {
            Some(s) => Some(s@),
            None => None,
        }),
{
    let text = match t {
        None => return Some(None),
        Some(x) => x,
    };
    let null = String::from_str("null");
    if *text == null {
        return Some(None);
    }
    let members = match parse_object(text.as_str()) {
        Some(m) => m,
        None => return None,
    };
    let code = match find_member(&members, "code") {
        Some(c) => c,
        None => return None,
    };
    let message = match find_member(&members, "message") {
        Some(s) => s,
        None => return None,
    };
    match (decode_i64(code.as_str()), decode_string(message.as_str())) {
        (Some(code), Some(message)) => {
            let data = optional_member(&members, "data");
            Some(Some(ErrorObject { code, message, data }))
        },
        _ => None,
    }
}

/// A line whose object has a `method` that is a string and an `id` that is a
/// string or an integer is the request with exactly that method and id.
pub proof fn lemma_method_and_id_is_request(
    line: Seq<char>,
    m: Seq<(Seq<char>, Seq<char>)>,
    method: Seq<char>,
    id: IdModel,
)
    requires
        object_members(line) == Some(m),
        member(m, "method"@) matches Some(t) && string_of_json(t) == Some(method),
        member(m, "id"@) matches Some(t) && id_of(t) == Some(id),
    ensures
        classified(line) == Some(
            MessageModel::Request { id, method, params: optional(member(m, "params"@)) },
        ),
{
}

/// A line whose object has a `method` that is a string and no `id` is a
/// notification with that method.
pub proof fn lemma_method_without_id_is_notification(
    line: Seq<char>,
    m: Seq<(Seq<char>, Seq<char>)>,
    method: Seq<char>,
)
    requires
        object_members(line) == Some(m),
        member(m, "method"@) matches Some(t) && string_of_json(t) == Some(method),
        member(m, "id"@) is None,
    ensures
        classified(line) == Some(
            MessageModel::Notification { method, params: optional(member(m, "params"@)) },
        ),
{
}

/// A line whose object has `result` or `error` but no `method` is a response
/// whenever it is a message at all, and is one when its `id` and `error`
/// decode and it does not carry both a result and an error.
pub proof fn lemma_result_or_error_is_response(line: Seq<char>, m: Seq<(Seq<char>, Seq<char>)>)
    requires
        object_members(line) == Some(m),
        member(m, "method"@) is None,
        member(m, "result"@) is Some || member(m, "error"@) is Some,
    ensures
        classified(line) matches Some(msg) ==> msg is Response,
        (member(m, "id"@) matches Some(t) && id_of(t) is Some) && (error_member(
            member(m, "error"@),
        ) matches Some(e) && !(optional(member(m, "result"@)) is Some && e is Some))
            ==> classified(line) is Some,
{
}

/// No line stands for a response with both a result and an error.
pub proof fn lemma_classified_is_well_formed(line: Seq<char>)
    ensures
        classified(line) matches Some(msg) ==> msg.well_formed(),
{
}

/// A line that is a JSON object with no members stands for no message.
pub proof fn lemma_empty_object_is_no_message(line: Seq<char>)
    requires
        object_members(line) == Some(Seq::<(Seq<char>, Seq<char>)>::empty()),
    ensures
        classified(line) is None,
{
    let m = Seq::<(Seq<char>, Seq<char>)>::empty();
    assert(member(m, "method"@) is None);
    assert(member(m, "result"@) is None);
    assert(member(m, "error"@) is None);
}

/// The message that the members of a top-level object stand for.
pub fn classify_members(members: &Vec<(String, String)>) -> (r: Result<Message, ClassifyError>)
    ensures
        match r {
            Ok(msg) => message_of(pairs_view(members@)) == Some(msg@),
            Err(_) => message_of(pairs_view(members@)) is None,
        },
{
    if let Some(m) = find_member(members, "method") {
        let method = match decode_string(m.as_str()) {
            Some(s) => s,
            None => return Err(ClassifyError::Malformed),
        };
        match find_member(members, "id") {
            Some(i) => match decode_id(i.as_str()) {
                Some(id) => {
                    let params = optional_member(members, "params");
                    Ok(Message::Request(Request { id, method, params }))
                },
                None => Err(ClassifyError::Malformed),
            },
            None => {
                let params = optional_member(members, "params");
                Ok(Message::Notification(Notification { method, params }))
            },
        }
    } else {
        let raw_result = find_member(members, "result");
        let raw_error = find_member(members, "error");
        if raw_result.is_none() && raw_error.is_none() {
            return Err(ClassifyError::Malformed);
        }
        let result = optional_member(members, "result");
        let error = match decode_error(&raw_error) {
            Some(e) => e,
            None => return Err(ClassifyError::Malformed),
        };
        let id = match find_member(members, "id") {
            Some(i) => match decode_id(i.as_str()) {
                Some(id) => id,
                None => return Err(ClassifyError::Malformed),
            },
            None => return Err(ClassifyError::Malformed),
        };
        if result.is_some() && error.is_some() {
            return Err(ClassifyError::Malformed);
        }
        Ok(Message::Response(Response { id, result, error }))
    }
}

/// Classifies one line of input; a line that is no JSON object, or whose
/// object matches no message shape, is `Malformed`.
pub fn classify(line: &str) -> (r: Result<Message, ClassifyError>)
    ensures
        match r {
            Ok(msg) => classified(line@) == Some(msg@),
            Err(_) => classified(line@) is None,
        },
{
    match parse_object(line) {
        Some(members) => classify_members(&members),
        None => Err(ClassifyError::Malformed),
    }
}

} // verus!

//! The wire encoding of outgoing messages: one compact JSON object per line,
//! fields in a fixed order, absent optional fields left out.
use vstd::prelude::*;
use crate::json::{quoted, decimal, quote, int_text};
use crate::message::{RequestId, ErrorObject, Message, IdModel, ErrorModel, MessageModel};

verus! {

/// `prefix` followed by the text, or nothing when the field is absent.
pub open spec fn opt_field(prefix: Seq<char>, o: Option<Seq<char>>) -> Seq<char> {
    match o {
        Some(t) => prefix + t,
        None => Seq::empty(),
    }
}

pub open spec fn id_text(id: IdModel) -> Seq<char> {
    match id {
        IdModel::Str(s) => quoted(s),
        IdModel::Num(n) => decimal(n),
    }
}

pub open spec fn error_text(e: ErrorModel) -> Seq<char> {
    "{\"code\":"@ + decimal(e.code) + ",\"message\":"@ + quoted(e.message) + opt_field(
        ",\"data\":"@,
        e.data,
    ) + "}"@
}

pub open spec fn opt_error_text(e: Option<ErrorModel>) -> Seq<char> {
    match e {
        Some(e) => ",\"error\":"@ + error_text(e),
        None => Seq::empty(),
    }
}

/// The line that encodes a message, without its newline.
pub open spec fn encoding(m: MessageModel) -> Seq<char> {
    match m {
        MessageModel::Request { id, method, params } => "{\"jsonrpc\":\"2.0\",\"method\":"@
            + quoted(method) + opt_field(",\"params\":"@, params) + ",\"id\":"@ + id_text(id)
            + "}"@,
        MessageModel::Response { id, result, error } => "{\"jsonrpc\":\"2.0\",\"id\":"@ + id_text(
            id,
        ) + opt_field(",\"result\":"@, result) + opt_error_text(error) + "}"@,
        MessageModel::Notification { method, params } => "{\"jsonrpc\":\"2.0\",\"method\":"@
            + quoted(method) + opt_field(",\"params\":"@, params) + "}"@,
    }
}

fn push_optional(out: &mut String, prefix: &str, o: &Option<String>)
    ensures
        final(out)@ == old(out)@ + opt_field(
            prefix@,
            match o {
                Some(s) => Some(s@),
                None => None,
            },
        ),
{
    match o {
        Some(t) => {
            out.append(prefix);
            out.append(t.as_str());
        },
        None => {
            assert(old(out)@ + Seq::<char>::empty() =~= old(out)@);
        },
    }
}

fn id_encoding(id: &RequestId) -> (r: String)
    ensures
        r@ == id_text(id@),
{
    match id {
        RequestId::Str(s) => quote(s.as_str()),
        RequestId::Num(n) => int_text(*n),
    }
}

fn error_encoding(e: &ErrorObject) -> (r: String)
    ensures
        r@ == error_text(e@),
{
    let mut out = String::from_str("{\"code\":");
    out.append(int_text(e.code).as_str());
    out.append(",\"message\":");
    out.append(quote(e.message.as_str()).as_str());
    push_optional(&mut out, ",\"data\":", &e.data);
    out.append("}");
    out
}

/// Encodes a message as one line of compact JSON, without the newline.
pub fn encode(msg: &Message) -> (r: String)
    ensures
        r@ == encoding(msg@),
{
    match msg {
        Message::Request(q) => {
            let mut out = String::from_str("{\"jsonrpc\":\"2.0\",\"method\":");
            out.append(quote(q.method.as_str()).as_str());
            push_optional(&mut out, ",\"params\":", &q.params);
            out.append(",\"id\":");
            out.append(id_encoding(&q.id).as_str());
            out.append("}");
            out
        },
        Message::Response(p) => {
            let mut out = String::from_str("{\"jsonrpc\":\"2.0\",\"id\":");
            out.append(id_encoding(&p.id).as_str());
            push_optional(&mut out, ",\"result\":", &p.result);
            match &p.error {
                Some(e) => {
                    out.append(",\"error\":");
                    out.append(error_encoding(e).as_str());
                },
                None => {
                    assert(out@ + Seq::<char>::empty() =~= out@);
                },
            }
            out.append("}");
            out
        },
        Message::Notification(n) => {
            let mut out = String::from_str("{\"jsonrpc\":\"2.0\",\"method\":");
            out.append(quote(n.method.as_str()).as_str());
            push_optional(&mut out, ",\"params\":", &n.params);
            out.append("}");
            out
        },
    }
}

} // verus!

//! Reading the order service's replies.
use vstd::prelude::*;

verus! {

/// Whether a text is a JSON document that the json crate accepts.
pub uninterp spec fn json_accepts(text: Seq<char>) -> bool;

/// The boolean at member `key` of a JSON document, where it is one.
pub uninterp spec fn bool_member_of(text: Seq<char>, key: Seq<char>) -> Option<bool>;

/// The number at member `inner` of member `outer` of a JSON document, as the
/// json crate holds it: whether it is positive, its mantissa and its decimal
/// exponent.
pub uninterp spec fn number_parts_of(text: Seq<char>, outer: Seq<char>, inner: Seq<char>) -> Option<(bool, u64, i16)>;

/// The string at member `key` of a JSON document, where it is one.
pub uninterp spec fn str_member_of(text: Seq<char>, key: Seq<char>) -> Option<Seq<char>>;

/// The value at member `key` of a JSON document, written as JSON (null where
/// the member is missing).
pub uninterp spec fn json_member_of(text: Seq<char>, key: Seq<char>) -> Seq<char>;

/// The members of a JSON reply that the pipeline reads, as the json crate
/// gives them; a missing member reads as null.
pub struct ReplyMembers {
    pub success: Option<bool>,
    pub order_id_parts: Option<(bool, u64, i16)>,
    pub message_str: Option<String>,
    pub message_json: String,
    pub content_str: Option<String>,
    pub content_json: String,
}

/// The text of an optional string.
pub open spec fn opt_view(o: Option<String>) -> Option<Seq<char>> {
    match o {
        Some(s) => Some(s@),
        None => None,
    }
}

/// Relies on json::parse and, on the document, on indexing by key (null where
/// the member is missing), JsonValue::as_bool, JsonValue::as_number with
/// Number::as_parts, JsonValue::as_str and JsonValue::dump.
#[verifier::external_body]
fn parse_reply_members(text: &str, success_key: &str, content_key: &str, order_id_key: &str, message_key: &str)
    -> (r: Option<ReplyMembers>)
    ensures
        r is Some <==> json_accepts(text@),
        r matches Some(m) ==> m.success == bool_member_of(text@, success_key@)
            && m.order_id_parts == number_parts_of(text@, content_key@, order_id_key@)
            && opt_view(m.message_str) == str_member_of(text@, message_key@)
            && m.message_json@ == json_member_of(text@, message_key@)
            && opt_view(m.content_str) == str_member_of(text@, content_key@)
            && m.content_json@ == json_member_of(text@, content_key@),
{
    let doc = json::parse(text).ok()?;
    let (content, message) = (&doc[content_key], &doc[message_key]);
    Some(ReplyMembers {
        success: doc[success_key].as_bool(),
        order_id_parts: content[order_id_key].as_number().map(|n| n.as_parts()),
        message_str: message.as_str().map(|s| s.to_string()),
        message_json: message.dump(),
        content_str: content.as_str().map(|s| s.to_string()),
        content_json: content.dump(),
    })
}

/// The 64-bit integer that a JSON number is, where it is one: no decimal
/// exponent, and in range.
pub open spec fn i64_of_parts(parts: Option<(bool, u64, i16)>) -> Option<i64> {
    match parts {
        Some((positive, mantissa, exponent)) => {
            if exponent != 0 {
                None
            } else if positive && mantissa <= i64::MAX {
                Some(mantissa as i64)
            } else if !positive && mantissa as int <= -(i64::MIN as int) {
                Some((-(mantissa as int)) as i64)
            } else {
                None
            }
        },
        None => None,
    }
}

/// The text of a member: a string as it is, anything else as JSON.
pub open spec fn member_text(str_value: Option<Seq<char>>, json_text: Seq<char>) -> Seq<char> {
    match str_value {
        Some(s) => s,
        None => json_text,
    }
}

/// "Success" of a JSON reply is the boolean true.
pub open spec fn reply_success(text: Seq<char>) -> bool {
    bool_member_of(text, "Success"@) == Some(true)
}

/// "Content"."orderId" of a JSON reply, where it is a 64-bit integer.
pub open spec fn reply_order_id(text: Seq<char>) -> Option<i64> {
    i64_of_parts(number_parts_of(text, "Content"@, "orderId"@))
}

/// The text of "Message" of a JSON reply.
pub open spec fn reply_message(text: Seq<char>) -> Seq<char> {
    member_text(str_member_of(text, "Message"@), json_member_of(text, "Message"@))
}

/// The text of "Content" of a JSON reply.
pub open spec fn reply_content(text: Seq<char>) -> Seq<char> {
    member_text(str_member_of(text, "Content"@), json_member_of(text, "Content"@))
}

/// What the pipeline reads from a reply of the order service.
pub struct Reply {
    /// "Success" is the JSON boolean true.
    pub success: bool,
    /// "Content"."orderId", where it is a 64-bit integer.
    pub order_id: Option<i64>,
    /// The text of "Message".
    pub message: String,
    /// The text of "Content".
    pub content: String,
}

/// Why a request did not give the expected result.
#[derive(Debug)]
pub enum ParseError {
    /// The request never got a reply.
    Transport(String),
    /// The reply is not JSON.
    Malformed,
    /// The reply reports success but carries no order id.
    MissingField,
    /// The service refused the request, with its explanation.
    Rejected(String),
}

/// Outcome of an order submission, given the reply.
pub open spec fn submit_outcome_spec(r: Reply) -> Result<i64, ParseError> {
    if r.success {
        match r.order_id {
            Some(id) => Ok(id),
            None => Err(ParseError::MissingField),
        }
    } else {
        Err(ParseError::Rejected(r.message))
    }
}

/// Outcome of a payment callback, given the reply.
pub open spec fn callback_outcome_spec(r: Reply) -> Result<(), ParseError> {
    if r.success {
        Ok(())
    } else {
        Err(ParseError::Rejected(r.content))
    }
}

/// The 64-bit integer that a JSON number is, where it is one.
pub fn i64_from_parts(parts: Option<(bool, u64, i16)>) -> (r: Option<i64>)
    ensures
        r == i64_of_parts(parts),
{
    match parts {
        Some((positive, mantissa, exponent)) => {
            if exponent != 0 {
                None
            } else if positive && mantissa <= 9223372036854775807u64 {
                Some(mantissa as i64)
            } else if !positive && mantissa <= 9223372036854775808u64 {
                if mantissa == 9223372036854775808u64 {
                    Some(i64::MIN)
                } else {
                    Some(-(mantissa as i64))
                }
            } else {
                None
            }
        },
        None => None,
    }
}

fn member_string(str_value: Option<String>, json_text: String) -> (r: String)
    ensures
        r@ == member_text(opt_view(str_value), json_text@),
{
    match str_value {
        Some(s) => s,
        None => json_text,
    }
}

/// The fields of a reply, where the text is JSON.
pub fn read_reply(text: &str) -> (r: Option<Reply>)
    ensures
        r is Some <==> json_accepts(text@),
        r matches Some(rep) ==> rep.success == reply_success(text@)
            && rep.order_id == reply_order_id(text@)
            && rep.message@ == reply_message(text@)
            && rep.content@ == reply_content(text@),
{
    match parse_reply_members(text, "Success", "Content", "orderId", "Message") {
        None => None,
        Some(m) => {
            let success = match m.success {
                Some(b) => b,
                None => false,
            };
            Some(Reply {
                success,
                order_id: i64_from_parts(m.order_id_parts),
                message: member_string(m.message_str, m.message_json),
                content: member_string(m.content_str, m.content_json),
            })
        },
    }
}

/// The order id of an accepted submission, or why there is none.
pub fn submit_outcome(reply: &Reply) -> (r: Result<i64, ParseError>)
    ensures
        r == submit_outcome_spec(*reply),
{
    if reply.success {
        match reply.order_id {
            Some(id) => Ok(id),
            None => Err(ParseError::MissingField),
        }
    } else {
        Err(ParseError::Rejected(reply.message.clone()))
    }
}

/// Whether a payment callback was acknowledged, or why not.
pub fn callback_outcome(reply: &Reply) -> (r: Result<(), ParseError>)
    ensures
        r == callback_outcome_spec(*reply),
{
    if reply.success {
        Ok(())
    } else {
        Err(ParseError::Rejected(reply.content.clone()))
    }
}

/// `r` is the outcome of a submission whose transport returned `res`: its
/// error, `Malformed` for a reply that is not JSON, else the order id of a
/// successful reply, `MissingField` where it has none, or the reply's message
/// where it reports no success.
pub open spec fn submit_result_matches(res: Result<String, String>, r: Result<i64, ParseError>) -> bool {
    match res {
        Err(e) => r == Err::<i64, ParseError>(ParseError::Transport(e)),
        Ok(t) => if !json_accepts(t@) {
            r == Err::<i64, ParseError>(ParseError::Malformed)
        } else if reply_success(t@) {
            match reply_order_id(t@) {
                Some(id) => r == Ok::<i64, ParseError>(id),
                None => r == Err::<i64, ParseError>(ParseError::MissingField),
            }
        } else {
            r matches Err(ParseError::Rejected(m)) && m@ == reply_message(t@)
        },
    }
}

/// `r` is the outcome of a payment callback whose transport returned `res`:
/// its error, `Malformed` for a reply that is not JSON, else success, or the
/// reply's content where it reports no success.
pub open spec fn callback_result_matches(res: Result<String, String>, r: Result<(), ParseError>) -> bool {
    match res {
        Err(e) => r == Err::<(), ParseError>(ParseError::Transport(e)),
        Ok(t) => if !json_accepts(t@) {
            r == Err::<(), ParseError>(ParseError::Malformed)
        } else if reply_success(t@) {
            r == Ok::<(), ParseError>(())
        } else {
            r matches Err(ParseError::Rejected(m)) && m@ == reply_content(t@)
        },
    }
}

/// Outcome of a submission from what the transport returned: its error, a
/// reply that is not JSON, or the outcome that the reply's fields give.
pub fn parse_submit_content(res: &Result<String, String>) -> (r: Result<i64, ParseError>)
    ensures
        res matches Err(e) ==> r == Err::<i64, ParseError>(ParseError::Transport(*e)),
        res matches Ok(t) ==> (r == Err::<i64, ParseError>(ParseError::Malformed) <==> !json_accepts(t@)),
        submit_result_matches(*res, r),
{
    match res {
        Err(e) => Err(ParseError::Transport(e.clone())),
        Ok(t) => match read_reply(t.as_str()) {
            None => Err(ParseError::Malformed),
            Some(reply) => submit_outcome(&reply),
        },
    }
}

/// Outcome of a payment callback from what the transport returned: its
/// error, a reply that is not JSON, or the outcome that the reply's fields
/// give.
pub fn parse_callback_content(res: &Result<String, String>) -> (r: Result<(), ParseError>)
    ensures
        res matches Err(e) ==> r == Err::<(), ParseError>(ParseError::Transport(*e)),
        res matches Ok(t) ==> (r == Err::<(), ParseError>(ParseError::Malformed) <==> !json_accepts(t@)),
        callback_result_matches(*res, r),
{
    match res {
        Err(e) => Err(ParseError::Transport(e.clone())),
        Ok(t) => match read_reply(t.as_str()) {
            None => Err(ParseError::Malformed),
            Some(reply) => callback_outcome(&reply),
        },
    }
}

} // verus!

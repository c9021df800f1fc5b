//! `GET /topic` and `GET /topic/{topic_id}`: a topic with the arguments on each side.

use vstd::prelude::*;

use crate::arguments_helper::{arguments_json, push_argument_array, TopArgument};
use crate::database::topic::Topic;
use crate::json::{json_array, json_key, push_key};
use crate::response::{is_response, respond_owned, join, Response, Status};
use crate::text::{
    int_error_message, int_error_text, json_string, parse_i64, parse_i64_spec, push_char,
    push_json_string, push_signed_decimal, signed_decimal,
};

verus! {

/// The topic id of the path, or `400 Invalid topic id: <reason>` where it is
/// no decimal `i64`.
pub fn get_id(path: &str) -> (r: Result<i64, Response>)
    ensures
        parse_i64_spec(path@) matches Ok(id) ==> r == Ok::<i64, Response>(id),
        parse_i64_spec(path@) matches Err(k) ==> (r matches Err(e) && is_response(
            e,
            Status::BadRequest,
            "Invalid topic id: "@ + int_error_text(k),
        )),
{
    match parse_i64(path) {
        Ok(id) => Ok(id),
        Err(k) => Err(respond_owned(Status::BadRequest, join("Invalid topic id: ", int_error_message(k)))),
    }
}

/// One side of a topic: `{"arguments":[...],"opposingID":...,"title":"..."}`.
pub open spec fn side_json(arguments: Seq<TopArgument>, opposing_id: i64, title: Seq<char>) -> Seq<char> {
    seq!['{'] + json_key("arguments"@) + json_array(arguments_json(arguments)) + seq![','] + json_key(
        "opposingID"@,
    ) + signed_decimal(opposing_id as int) + seq![','] + json_key("title"@) + json_string(title)
        + seq!['}']
}

/// The body of a topic: `{"against":{...},"for":{...},"name":"..."}`. The side
/// for lists the arguments that respond to the argument against, and the other
/// way round; each side names the other side's argument as its opposing one.
pub open spec fn topic_json(
    topic: Topic,
    arguments_against: Seq<TopArgument>,
    arguments_for: Seq<TopArgument>,
) -> Seq<char> {
    seq!['{'] + json_key("against"@) + side_json(
        arguments_against,
        topic.for_argument.id,
        topic.against_argument.body@,
    ) + seq![','] + json_key("for"@) + side_json(
        arguments_for,
        topic.against_argument.id,
        topic.for_argument.body@,
    ) + seq![','] + json_key("name"@) + json_string(topic.name@) + seq!['}']
}

fn push_side(out: &mut String, arguments: &Vec<TopArgument>, opposing_id: i64, title: &str)
    ensures
        final(out)@ == old(out)@ + side_json(arguments@, opposing_id, title@),
{
    push_char(out, '{');
    push_key(out, "arguments");
    push_argument_array(out, arguments);
    push_char(out, ',');
    push_key(out, "opposingID");
    push_signed_decimal(out, opposing_id);
    push_char(out, ',');
    push_key(out, "title");
    push_json_string(out, title);
    push_char(out, '}');
    assert(final(out)@ =~= old(out)@ + side_json(arguments@, opposing_id, title@));
}

/// The body of a topic, with the arguments against (those that respond to the
/// argument for) and the arguments for (those that respond to the argument against).
pub fn get_topic_json(
    topic: &Topic,
    arguments_against: &Vec<TopArgument>,
    arguments_for: &Vec<TopArgument>,
) -> (r: String)
    ensures
        r@ == topic_json(*topic, arguments_against@, arguments_for@),
{
    let mut out = String::new();
    push_char(&mut out, '{');
    push_key(&mut out, "against");
    push_side(&mut out, arguments_against, topic.for_argument.id, topic.against_argument.body.as_str());
    push_char(&mut out, ',');
    push_key(&mut out, "for");
    push_side(&mut out, arguments_for, topic.against_argument.id, topic.for_argument.body.as_str());
    push_char(&mut out, ',');
    push_key(&mut out, "name");
    push_json_string(&mut out, topic.name.as_str());
    push_char(&mut out, '}');
    assert(out@ =~= topic_json(*topic, arguments_against@, arguments_for@));
    out
}

/// The two reads of response arguments that a topic's body needs: those that
/// respond to the argument for (the arguments against), and those that respond
/// to the argument against (the arguments for).
pub struct ResponseReads {
    /// The parent whose responses are the arguments against.
    pub against_parent: i64,
    /// The parent whose responses are the arguments for.
    pub for_parent: i64,
}

/// What follows the read of a topic: where it failed, its answer is passed on
/// unchanged and no argument is read; else the topic, and the two reads of
/// response arguments to make.
pub fn responses_to_read(topic: Result<Topic, Response>) -> (r: Result<(Topic, ResponseReads), Response>)
    ensures
        topic matches Err(e) ==> r == Err::<(Topic, ResponseReads), Response>(e),
        topic matches Ok(t) ==> (r matches Ok(p) && p.0 == t && p.1.against_parent == t.for_argument.id
            && p.1.for_parent == t.against_argument.id),
{
    match topic {
        Err(e) => Err(e),
        Ok(t) => {
            let reads = ResponseReads { against_parent: t.for_argument.id, for_parent: t.against_argument.id };
            Ok((t, reads))
        },
    }
}

/// The answer of a topic once its response arguments were read: the body of
/// the topic where both reads succeeded; else the failed read's answer,
/// unchanged (that of the arguments against where both failed).
pub fn get_body(
    topic: &Topic,
    arguments_against: Result<Vec<TopArgument>, Response>,
    arguments_for: Result<Vec<TopArgument>, Response>,
) -> (r: Result<String, Response>)
    ensures
        arguments_against matches Err(e) ==> r == Err::<String, Response>(e),
        arguments_against is Ok ==> (arguments_for matches Err(e) ==> r == Err::<String, Response>(e)),
        arguments_against matches Ok(a) ==> (arguments_for matches Ok(f) ==> (r matches Ok(s) && s@ == topic_json(
            *topic,
            a@,
            f@,
        ))),
{
    let against = match arguments_against {
        Err(e) => return Err(e),
        Ok(a) => a,
    };
    let for_ = match arguments_for {
        Err(e) => return Err(e),
        Ok(f) => f,
    };
    Ok(get_topic_json(topic, &against, &for_))
}

} // verus!

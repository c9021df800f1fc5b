//! `GET /arguments/{parent_id}`: the arguments that respond to an argument.

use vstd::prelude::*;

use crate::arguments_helper::{arguments_json, push_argument_array, TopArgument};
use crate::json::{json_array, json_key, push_key};
use crate::response::{is_response, join, ok, respond_owned, Response, Status};
use crate::text::{int_error_message, int_error_text, parse_i64, parse_i64_spec, push_char};

verus! {

/// The parent id of the path, or `400 Parent ID is not an integer: <reason>`.
pub fn parent_id(path: &str) -> (r: Result<i64, Response>)
    ensures
        parse_i64_spec(path@) matches Ok(id) ==> r == Ok::<i64, Response>(id),
        parse_i64_spec(path@) matches Err(k) ==> (r matches Err(e) && is_response(
            e,
            Status::BadRequest,
            "Parent ID is not an integer: "@ + int_error_text(k),
        )),
{
    match parse_i64(path) {
        Ok(id) => Ok(id),
        Err(k) => Err(respond_owned(Status::BadRequest, join("Parent ID is not an integer: ", int_error_message(k)))),
    }
}

/// The body `{"args":[...]}`.
pub open spec fn args_body(args: Seq<TopArgument>) -> Seq<char> {
    seq!['{'] + json_key("args"@) + json_array(arguments_json(args)) + seq!['}']
}

/// `200 OK` with the arguments as `{"args":[...]}`.
pub fn arguments_response(args: &Vec<TopArgument>) -> (r: Response)
    ensures
        is_response(r, Status::Success, args_body(args@)),
{
    let mut out = String::new();
    push_char(&mut out, '{');
    push_key(&mut out, "args");
    push_argument_array(&mut out, args);
    push_char(&mut out, '}');
    assert(out@ =~= args_body(args@));
    ok(out)
}

} // verus!

//! The arguments that respond to an argument, and their JSON form.

use vstd::prelude::*;

use crate::db::{DbError, DbErrorKind};
use crate::json::{join_commas, json_array, json_key, lemma_join_commas_step, push_key};
use crate::response::{bad_request, internal_server_error, is_response, Response, Status};
use crate::text::{json_string, push_char, push_json_string, push_signed_decimal, signed_decimal};

verus! {

/// An argument: its id and the body of its latest revision.
pub struct TopArgument {
    pub id: i64,
    pub body: String,
}

/// The JSON object of an argument, keys in serde_json's order: `{"body":...,"id":...}`.
pub open spec fn argument_json(a: TopArgument) -> Seq<char> {
    seq!['{'] + json_key("body"@) + json_string(a.body@) + seq![','] + json_key("id"@)
        + signed_decimal(a.id as int) + seq!['}']
}

/// The JSON objects of a list of arguments.
pub open spec fn arguments_json(args: Seq<TopArgument>) -> Seq<Seq<char>> {
    args.map_values(|a: TopArgument| argument_json(a))
}

/// Appends the JSON object of `a` to `out`.
pub fn push_argument(out: &mut String, a: &TopArgument)
    ensures
        final(out)@ == old(out)@ + argument_json(*a),
{
    push_char(out, '{');
    push_key(out, "body");
    push_json_string(out, a.body.as_str());
    push_char(out, ',');
    push_key(out, "id");
    push_signed_decimal(out, a.id);
    push_char(out, '}');
    assert(final(out)@ =~= old(out)@ + argument_json(*a));
}

/// Appends the JSON array of the arguments to `out`.
pub fn push_argument_array(out: &mut String, args: &Vec<TopArgument>)
    ensures
        final(out)@ == old(out)@ + json_array(arguments_json(args@)),
{
    let ghost texts = arguments_json(args@);
    push_char(out, '[');
    let ghost start = out@;
    let mut i: usize = 0;
    while i < args.len()
        invariant
            i <= args@.len(),
            texts == arguments_json(args@),
            out@ == start + join_commas(texts.take(i as int)),
        decreases args@.len() - i,
    {
        proof {
            lemma_join_commas_step(texts, i as int);
        }
        if i > 0 {
            push_char(out, ',');
        }
        push_argument(out, &args[i]);
        i = i + 1;
        proof {
            assert(out@ =~= start + join_commas(texts.take(i as int)));
        }
    }
    proof {
        assert(texts.take(args@.len() as int) =~= texts);
    }
    push_char(out, ']');
    assert(final(out)@ =~= old(out)@ + json_array(texts));
}

/// The arguments that respond to an argument, as the query returned them, or
/// `400 Argument not found` / `500 Error retrieving argument` on failure.
pub fn get_response_arguments(rows: Result<Vec<TopArgument>, DbError>) -> (r: Result<Vec<TopArgument>, Response>)
    ensures
        rows matches Ok(v) ==> (r matches Ok(w) && w@ == v@),
        rows matches Err(e) ==> (e.kind is RowNotFound ==> (r matches Err(resp) && is_response(
            resp,
            Status::BadRequest,
            "Argument not found"@,
        ))),
        rows matches Err(e) ==> (!(e.kind is RowNotFound) ==> (r matches Err(resp) && is_response(
            resp,
            Status::InternalServerError,
            "Error retrieving argument"@,
        ))),
{
    match rows {
        Ok(args) => Ok(args),
        Err(e) => match e.kind {
            DbErrorKind::RowNotFound => Err(bad_request("Argument not found")),
            _ => Err(internal_server_error("Error retrieving argument")),
        },
    }
}

} // verus!

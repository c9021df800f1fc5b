//! `GET /topics`: every topic's name and id.

use vstd::prelude::*;

use crate::db::{DbError, DbErrorKind};
use crate::json::{join_commas, json_array, json_key, lemma_join_commas_step, push_key};
use crate::response::{internal_server_error, is_response, not_found, ok, Response, Status};
use crate::text::{json_string, push_char, push_json_string, push_signed_decimal, signed_decimal};

verus! {

/// A topic as the list shows it.
pub struct TopicSummary {
    pub name: String,
    pub id: i64,
}

/// The JSON object of a topic, keys in serde_json's order: `{"id":...,"name":...}`.
pub open spec fn topic_summary_json(t: TopicSummary) -> Seq<char> {
    seq!['{'] + json_key("id"@) + signed_decimal(t.id as int) + seq![','] + json_key("name"@)
        + json_string(t.name@) + seq!['}']
}

/// The JSON objects of a list of topics.
pub open spec fn topics_json(topics: Seq<TopicSummary>) -> Seq<Seq<char>> {
    topics.map_values(|t: TopicSummary| topic_summary_json(t))
}

/// The body `{"topics":[...]}`.
pub open spec fn topics_body(topics: Seq<TopicSummary>) -> Seq<char> {
    seq!['{'] + json_key("topics"@) + json_array(topics_json(topics)) + seq!['}']
}

fn push_topic(out: &mut String, t: &TopicSummary)
    ensures
        final(out)@ == old(out)@ + topic_summary_json(*t),
{
    push_char(out, '{');
    push_key(out, "id");
    push_signed_decimal(out, t.id);
    push_char(out, ',');
    push_key(out, "name");
    push_json_string(out, t.name.as_str());
    push_char(out, '}');
    assert(final(out)@ =~= old(out)@ + topic_summary_json(*t));
}

/// `200 OK` with the topics as `{"topics":[...]}`.
pub fn topics_response(topics: &Vec<TopicSummary>) -> (r: Response)
    ensures
        is_response(r, Status::Success, topics_body(topics@)),
{
    let ghost texts = topics_json(topics@);
    let mut out = String::new();
    push_char(&mut out, '{');
    push_key(&mut out, "topics");
    push_char(&mut out, '[');
    let ghost start = out@;
    let mut i: usize = 0;
    while i < topics.len()
        invariant
            i <= topics@.len(),
            texts == topics_json(topics@),
            out@ == start + join_commas(texts.take(i as int)),
        decreases topics@.len() - i,
    {
        proof {
            lemma_join_commas_step(texts, i as int);
        }
        if i > 0 {
            push_char(&mut out, ',');
        }
        push_topic(&mut out, &topics[i]);
        i = i + 1;
        proof {
            assert(out@ =~= start + join_commas(texts.take(i as int)));
        }
    }
    proof {
        assert(texts.take(topics@.len() as int) =~= texts);
    }
    push_char(&mut out, ']');
    push_char(&mut out, '}');
    assert(out@ =~= topics_body(topics@));
    ok(out)
}

/// Every topic, or `404 No topics avaliable` / `500 Error retrieving topic` on failure.
pub fn get_topics(rows: Result<Vec<TopicSummary>, DbError>) -> (r: Result<Vec<TopicSummary>, Response>)
    ensures
        rows matches Ok(v) ==> (r matches Ok(w) && w@ == v@),
        rows matches Err(e) ==> (e.kind is RowNotFound ==> (r matches Err(resp) && is_response(
            resp,
            Status::NotFound,
            "No topics avaliable"@,
        ))),
        rows matches Err(e) ==> (!(e.kind is RowNotFound) ==> (r matches Err(resp) && is_response(
            resp,
            Status::InternalServerError,
            "Error retrieving topic"@,
        ))),
{
    match rows {
        Ok(topics) => Ok(topics),
        Err(e) => match e.kind {
            DbErrorKind::RowNotFound => Err(not_found("No topics avaliable")),
            _ => Err(internal_server_error("Error retrieving topic")),
        },
    }
}

} // verus!

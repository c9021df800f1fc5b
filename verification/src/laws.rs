//! Properties that span several functions of the library.

use vstd::prelude::*;

use crate::arguments_helper::{argument_json, arguments_json, TopArgument};
use crate::database::topic::Topic;
use crate::endpoints::arguments_get::args_body;
use crate::endpoints::login::login_body_spec;
use crate::endpoints::signup::verification_email_body_spec;
use crate::endpoints::topic_get::{side_json, topic_json};
use crate::endpoints::topics::{topic_summary_json, topics_body, topics_json, TopicSummary};
use crate::hashing_helper::{check_outcome, password_matches, session_hash_spec};
use crate::json::{
    has_int_field, has_part, has_string_field, json_array, json_key, json_strings, keyed_array,
    lemma_int_field_in, lemma_keyed_array_in, lemma_part_in, lemma_string_field_in,
};
use crate::text::{json_string, signed_decimal};
use crate::session_helper::{cookie_token_hash, spec_url_safe_decode};

verus! {

/// A session cookie stands for its token: where the cookie's value decodes to
/// the token bytes, the hash that the session check looks the session up by,
/// and the one that logout deletes, is the peppered hash of those bytes; so the
/// cookie that login hands out (the encoding of the token whose hash it stores)
/// finds that very session.
pub proof fn law_cookie_finds_its_session(cookie: Seq<char>, token: Seq<u8>, pepper: Seq<char>)
    requires
        spec_url_safe_decode(cookie) == Ok::<Seq<u8>, Seq<char>>(token),
    ensures
        cookie_token_hash(cookie, pepper) == session_hash_spec(token, pepper),
{
}

/// One token under one pepper has one session hash: two cookies that decode
/// to the same token find the same session.
pub proof fn law_same_token_same_session(cookie1: Seq<char>, cookie2: Seq<char>, pepper: Seq<char>)
    requires
        spec_url_safe_decode(cookie1) is Ok,
        spec_url_safe_decode(cookie1) == spec_url_safe_decode(cookie2),
    ensures
        cookie_token_hash(cookie1, pepper) == cookie_token_hash(cookie2, pepper),
{
}

/// What hashing stores is accepted when checked again: a PHC string that
/// verifies `password` under `secret` (as every password hash verifies its
/// password under the pepper, and every session hash its token with no secret
/// key) is answered `true` by the check under that same secret.
pub proof fn law_stored_hash_checks_back(password: Seq<u8>, stored: Seq<char>, secret: Seq<u8>)
    requires
        password_matches(password, stored, secret),
    ensures
        check_outcome(password, stored, secret) == Some(true),
{
}

/// An argument's JSON object carries its whole body, which reads back to
/// exactly that body, and its id, which reads back to exactly that id.
pub proof fn law_argument_object_fields(a: TopArgument)
    ensures
        has_string_field(argument_json(a), "body"@, a.body@, seq![',']),
        has_int_field(argument_json(a), "id"@, a.id, seq!['}']),
{
    let body_pre = seq!['{'];
    let rest = json_key("id"@) + signed_decimal(a.id as int) + seq!['}'];
    lemma_string_field_in(body_pre, "body"@, a.body@, seq![','], rest);
    assert(argument_json(a) =~= body_pre + json_key("body"@) + json_string(a.body@) + seq![','] + rest);
    let id_pre = seq!['{'] + json_key("body"@) + json_string(a.body@) + seq![','];
    lemma_int_field_in(id_pre, "id"@, a.id, seq!['}'], Seq::empty());
    assert(argument_json(a) =~= id_pre + json_key("id"@) + signed_decimal(a.id as int) + seq!['}'] + Seq::empty());
}

/// The list of responses to an argument holds every argument read, once each
/// and in the order read: `"args":` with a JSON array of exactly one object per
/// argument, the `i`-th being the object of the `i`-th argument.
pub proof fn law_args_body_lists_every_argument(args: Seq<TopArgument>)
    ensures
        keyed_array(args_body(args), "args"@, args.map_values(|a: TopArgument| argument_json(a))),
{
    let items = args.map_values(|a: TopArgument| argument_json(a));
    assert(arguments_json(args) =~= items);
    lemma_keyed_array_in(seq!['{'], "args"@, items, seq!['}']);
    assert(args_body(args) =~= seq!['{'] + json_key("args"@) + json_array(items) + seq!['}']);
}

/// One side of a topic lists exactly the given arguments in order, names the
/// opposing argument's id, and carries the whole title, which reads back to
/// exactly that title whatever its length.
pub proof fn law_topic_side_fields(arguments: Seq<TopArgument>, opposing_id: i64, title: Seq<char>)
    ensures
        keyed_array(
            side_json(arguments, opposing_id, title),
            "arguments"@,
            arguments.map_values(|a: TopArgument| argument_json(a)),
        ),
        has_int_field(side_json(arguments, opposing_id, title), "opposingID"@, opposing_id, seq![',']),
        has_string_field(side_json(arguments, opposing_id, title), "title"@, title, seq!['}']),
{
    let items = arguments.map_values(|a: TopArgument| argument_json(a));
    assert(arguments_json(arguments) =~= items);
    let text = side_json(arguments, opposing_id, title);
    let id_text = signed_decimal(opposing_id as int);
    let tail = seq![','] + json_key("opposingID"@) + id_text + seq![','] + json_key("title"@) + json_string(title)
        + seq!['}'];
    lemma_keyed_array_in(seq!['{'], "arguments"@, items, tail);
    assert(text =~= seq!['{'] + json_key("arguments"@) + json_array(items) + tail);
    let pre_id = seq!['{'] + json_key("arguments"@) + json_array(items) + seq![','];
    let after_id = json_key("title"@) + json_string(title) + seq!['}'];
    lemma_int_field_in(pre_id, "opposingID"@, opposing_id, seq![','], after_id);
    assert(text =~= pre_id + json_key("opposingID"@) + id_text + seq![','] + after_id);
    let pre_title = pre_id + json_key("opposingID"@) + id_text + seq![','];
    lemma_string_field_in(pre_title, "title"@, title, seq!['}'], Seq::empty());
    assert(text =~= pre_title + json_key("title"@) + json_string(title) + seq!['}'] + Seq::empty());
}

/// A topic's body gives each side its own arguments, the other side's argument
/// as opposing, and its own argument's whole body as title: the side against
/// (`"title"` followed by the side for) carries the body of the argument against,
/// the side for (followed by the name) the body of the argument for, each reading
/// back to exactly that body whatever its length; and the name reads back to the
/// topic's name.
pub proof fn law_topic_body_fields(
    topic: Topic,
    arguments_against: Seq<TopArgument>,
    arguments_for: Seq<TopArgument>,
)
    ensures
        has_part(
            topic_json(topic, arguments_against, arguments_for),
            json_key("against"@) + side_json(arguments_against, topic.for_argument.id, topic.against_argument.body@)
                + seq![','] + json_key("for"@),
        ),
        has_part(
            topic_json(topic, arguments_against, arguments_for),
            json_key("for"@) + side_json(arguments_for, topic.against_argument.id, topic.for_argument.body@)
                + seq![','] + json_key("name"@),
        ),
        has_string_field(
            topic_json(topic, arguments_against, arguments_for),
            "title"@,
            topic.against_argument.body@,
            seq!['}', ','] + json_key("for"@),
        ),
        has_string_field(
            topic_json(topic, arguments_against, arguments_for),
            "title"@,
            topic.for_argument.body@,
            seq!['}', ','] + json_key("name"@),
        ),
        has_string_field(topic_json(topic, arguments_against, arguments_for), "name"@, topic.name@, seq!['}']),
{
    lemma_topic_sides(topic, arguments_against, arguments_for);
    lemma_topic_against_title(topic, arguments_against, arguments_for);
    lemma_topic_for_title(topic, arguments_against, arguments_for);
    lemma_topic_name(topic, arguments_against, arguments_for);
}

/// The text of a side, split before its title.
proof fn lemma_side_split(arguments: Seq<TopArgument>, opposing_id: i64, title: Seq<char>)
    ensures
        side_json(arguments, opposing_id, title) == side_head(arguments, opposing_id) + json_key("title"@)
            + json_string(title) + seq!['}'],
{
    assert(side_json(arguments, opposing_id, title) =~= side_head(arguments, opposing_id) + json_key("title"@)
        + json_string(title) + seq!['}']);
}

/// What a side holds before its title.
spec fn side_head(arguments: Seq<TopArgument>, opposing_id: i64) -> Seq<char> {
    seq!['{'] + json_key("arguments"@) + json_array(arguments_json(arguments)) + seq![','] + json_key(
        "opposingID"@,
    ) + signed_decimal(opposing_id as int) + seq![',']
}

/// The text of a topic, split into its keys and sides.
proof fn lemma_topic_split(topic: Topic, arguments_against: Seq<TopArgument>, arguments_for: Seq<TopArgument>)
    ensures
        topic_json(topic, arguments_against, arguments_for) == seq!['{'] + json_key("against"@) + side_json(
            arguments_against,
            topic.for_argument.id,
            topic.against_argument.body@,
        ) + seq![','] + json_key("for"@) + side_json(
            arguments_for,
            topic.against_argument.id,
            topic.for_argument.body@,
        ) + seq![','] + json_key("name"@) + json_string(topic.name@) + seq!['}'],
{
}

proof fn lemma_topic_sides(topic: Topic, arguments_against: Seq<TopArgument>, arguments_for: Seq<TopArgument>)
    ensures
        has_part(
            topic_json(topic, arguments_against, arguments_for),
            json_key("against"@) + side_json(arguments_against, topic.for_argument.id, topic.against_argument.body@)
                + seq![','] + json_key("for"@),
        ),
        has_part(
            topic_json(topic, arguments_against, arguments_for),
            json_key("for"@) + side_json(arguments_for, topic.against_argument.id, topic.for_argument.body@)
                + seq![','] + json_key("name"@),
        ),
{
    let ka = json_key("against"@);
    let kf = json_key("for"@);
    let kn = json_key("name"@);
    let side_a = side_json(arguments_against, topic.for_argument.id, topic.against_argument.body@);
    let side_f = side_json(arguments_for, topic.against_argument.id, topic.for_argument.body@);
    lemma_parts_of_ten(seq!['{'], ka, side_a, seq![','], kf, side_f, seq![','], kn, json_string(topic.name@), seq!['}']);
}

/// The middle pieces of a ten-piece text are parts of it.
proof fn lemma_parts_of_ten(
    a: Seq<char>,
    b: Seq<char>,
    c: Seq<char>,
    d: Seq<char>,
    e: Seq<char>,
    f: Seq<char>,
    g: Seq<char>,
    h: Seq<char>,
    i: Seq<char>,
    j: Seq<char>,
)
    ensures
        has_part(a + b + c + d + e + f + g + h + i + j, b + c + d + e),
        has_part(a + b + c + d + e + f + g + h + i + j, e + f + g + h),
{
    lemma_regroup(a, b, c, d, e, f, g, h, i + j);
    assert(a + b + c + d + e + f + g + h + i + j =~= a + b + c + d + e + f + g + h + (i + j));
    lemma_part_in(a, b + c + d + e, f + g + h + (i + j));
    lemma_part_in(a + b + c + d, e + f + g + h, i + j);
}

/// Two groupings of nine pieces of text.
proof fn lemma_regroup(
    a: Seq<char>,
    b: Seq<char>,
    c: Seq<char>,
    d: Seq<char>,
    e: Seq<char>,
    f: Seq<char>,
    g: Seq<char>,
    h: Seq<char>,
    i: Seq<char>,
)
    ensures
        a + b + c + d + e + f + g + h + i == a + (b + c + d + e) + (f + g + h + i),
        a + b + c + d + e + f + g + h + i == (a + b + c + d) + (e + f + g + h) + i,
{
    assert(a + b + c + d + e + f + g + h + i =~= a + (b + c + d + e) + (f + g + h + i));
    assert(a + b + c + d + e + f + g + h + i =~= (a + b + c + d) + (e + f + g + h) + i);
}

proof fn lemma_topic_against_title(topic: Topic, arguments_against: Seq<TopArgument>, arguments_for: Seq<TopArgument>)
    ensures
        has_string_field(
            topic_json(topic, arguments_against, arguments_for),
            "title"@,
            topic.against_argument.body@,
            seq!['}', ','] + json_key("for"@),
        ),
{
    lemma_topic_split(topic, arguments_against, arguments_for);
    let title = topic.against_argument.body@;
    lemma_side_split(arguments_against, topic.for_argument.id, title);
    let head = side_head(arguments_against, topic.for_argument.id);
    let side_f = side_json(arguments_for, topic.against_argument.id, topic.for_argument.body@);
    let rest = side_f + seq![','] + json_key("name"@) + json_string(topic.name@) + seq!['}'];
    let pre = seq!['{'] + json_key("against"@) + head;
    let after = seq!['}', ','] + json_key("for"@);
    lemma_string_field_in(pre, "title"@, title, after, rest);
    assert(topic_json(topic, arguments_against, arguments_for) =~= pre + json_key("title"@) + json_string(title)
        + after + rest);
}

proof fn lemma_topic_for_title(topic: Topic, arguments_against: Seq<TopArgument>, arguments_for: Seq<TopArgument>)
    ensures
        has_string_field(
            topic_json(topic, arguments_against, arguments_for),
            "title"@,
            topic.for_argument.body@,
            seq!['}', ','] + json_key("name"@),
        ),
{
    lemma_topic_split(topic, arguments_against, arguments_for);
    let title = topic.for_argument.body@;
    lemma_side_split(arguments_for, topic.against_argument.id, title);
    let head = side_head(arguments_for, topic.against_argument.id);
    let side_a = side_json(arguments_against, topic.for_argument.id, topic.against_argument.body@);
    let pre = seq!['{'] + json_key("against"@) + side_a + seq![','] + json_key("for"@) + head;
    let after = seq!['}', ','] + json_key("name"@);
    let rest = json_string(topic.name@) + seq!['}'];
    lemma_string_field_in(pre, "title"@, title, after, rest);
    assert(topic_json(topic, arguments_against, arguments_for) =~= pre + json_key("title"@) + json_string(title)
        + after + rest);
}

proof fn lemma_topic_name(topic: Topic, arguments_against: Seq<TopArgument>, arguments_for: Seq<TopArgument>)
    ensures
        has_string_field(topic_json(topic, arguments_against, arguments_for), "name"@, topic.name@, seq!['}']),
{
    lemma_topic_split(topic, arguments_against, arguments_for);
    let side_a = side_json(arguments_against, topic.for_argument.id, topic.against_argument.body@);
    let side_f = side_json(arguments_for, topic.against_argument.id, topic.for_argument.body@);
    let pre = seq!['{'] + json_key("against"@) + side_a + seq![','] + json_key("for"@) + side_f + seq![','];
    lemma_string_field_in(pre, "name"@, topic.name@, seq!['}'], Seq::empty());
    assert(topic_json(topic, arguments_against, arguments_for) =~= pre + json_key("name"@) + json_string(topic.name@)
        + seq!['}'] + Seq::empty());
}

/// A topic's summary carries its id and its whole name, each reading back to
/// exactly the stored value whatever the name's length.
pub proof fn law_topic_summary_fields(t: TopicSummary)
    ensures
        has_int_field(topic_summary_json(t), "id"@, t.id, seq![',']),
        has_string_field(topic_summary_json(t), "name"@, t.name@, seq!['}']),
{
    let id_text = signed_decimal(t.id as int);
    let name_part = json_key("name"@) + json_string(t.name@) + seq!['}'];
    lemma_int_field_in(seq!['{'], "id"@, t.id, seq![','], name_part);
    assert(topic_summary_json(t) =~= seq!['{'] + json_key("id"@) + id_text + seq![','] + name_part);
    let pre = seq!['{'] + json_key("id"@) + id_text + seq![','];
    lemma_string_field_in(pre, "name"@, t.name@, seq!['}'], Seq::empty());
    assert(topic_summary_json(t) =~= pre + json_key("name"@) + json_string(t.name@) + seq!['}'] + Seq::empty());
}

/// The list of topics holds every topic, once each and in order: `"topics":`
/// with a JSON array of exactly one summary per topic.
pub proof fn law_topics_body_lists_every_topic(topics: Seq<TopicSummary>)
    ensures
        keyed_array(topics_body(topics), "topics"@, topics.map_values(|t: TopicSummary| topic_summary_json(t))),
{
    let items = topics.map_values(|t: TopicSummary| topic_summary_json(t));
    assert(topics_json(topics) =~= items);
    lemma_keyed_array_in(seq!['{'], "topics"@, items, seq!['}']);
    assert(topics_body(topics) =~= seq!['{'] + json_key("topics"@) + json_array(items) + seq!['}']);
}

/// The body of a successful login names exactly the account's username,
/// whatever its length, and lists exactly its roles, each as its JSON string, in order.
pub proof fn law_login_body_fields(username: Seq<char>, roles: Seq<String>)
    ensures
        has_string_field(login_body_spec(username, roles), "username"@, username, seq!['}']),
        keyed_array(login_body_spec(username, roles), "roles"@, roles.map_values(|r: String| json_string(r@))),
{
    let items = roles.map_values(|r: String| json_string(r@));
    assert(json_strings(roles) =~= items);
    let tail = seq![','] + json_key("username"@) + json_string(username) + seq!['}'];
    lemma_keyed_array_in(seq!['{'], "roles"@, items, tail);
    assert(login_body_spec(username, roles) =~= seq!['{'] + json_key("roles"@) + json_array(items) + tail);
    let pre = seq!['{'] + json_key("roles"@) + json_array(items) + seq![','];
    lemma_string_field_in(pre, "username"@, username, seq!['}'], Seq::empty());
    assert(login_body_spec(username, roles) =~= pre + json_key("username"@) + json_string(username) + seq!['}']
        + Seq::empty());
}

/// The verification email links to the configured frontend, whole, with the
/// token: it holds `<frontend_url>/verifyemail?token=<token>` as one piece, right
/// after the request to click it, and names the whole frontend in its closing line.
pub proof fn law_verification_email_links_frontend(token: Seq<char>, frontend_url: Seq<char>)
    ensures
        has_part(
            verification_email_body_spec(token, frontend_url),
            "\nPlease click this link to verify your email: "@ + frontend_url + "/verifyemail?token="@ + token,
        ),
        has_part(
            verification_email_body_spec(token, frontend_url),
            "\n\nIf you did not sign up for "@ + frontend_url
                + " please ignore this email and do not click the link above.\n\nThank you!\n\t\t\t"@,
        ),
{
    let text = verification_email_body_spec(token, frontend_url);
    let head = "\nYour verification token is: "@ + token;
    let link = "\nPlease click this link to verify your email: "@ + frontend_url + "/verifyemail?token="@ + token;
    let closing = "\n\nIf you did not sign up for "@ + frontend_url
        + " please ignore this email and do not click the link above.\n\nThank you!\n\t\t\t"@;
    lemma_part_in(head, link, closing);
    assert(text =~= head + link + closing);
    lemma_part_in(head + link, closing, Seq::empty());
    assert(text =~= head + link + closing + Seq::empty());
}

} // verus!

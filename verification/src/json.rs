//! The JSON text the server answers with, written as serde_json writes it:
//! compact, object keys in the order serde_json emits them.

use vstd::prelude::*;

use crate::text::{
    json_escape, json_string, json_unescape, law_json_escape_reads_back, law_parse_reads_back_decimal,
    parse_i64_spec, push_char, push_json_string, signed_decimal, IntErrorKind,
};

verus! {

/// The items joined by commas.
pub open spec fn join_commas(items: Seq<Seq<char>>) -> Seq<char>
    decreases items.len(),
{
    if items.len() == 0 {
        Seq::empty()
    } else if items.len() == 1 {
        items[0]
    } else {
        join_commas(items.drop_last()) + seq![','] + items.last()
    }
}

/// A JSON array of the given (already written) values.
pub open spec fn json_array(items: Seq<Seq<char>>) -> Seq<char> {
    seq!['['] + join_commas(items) + seq![']']
}

/// Joining one more item onto a prefix of a list.
pub proof fn lemma_join_commas_step(items: Seq<Seq<char>>, i: int)
    requires
        0 <= i < items.len(),
    ensures
        join_commas(items.take(i + 1)) == if i == 0 {
            items[0]
        } else {
            join_commas(items.take(i)) + seq![','] + items[i]
        },
{
    assert(items.take(i + 1).drop_last() =~= items.take(i));
    if i == 0 {
        assert(items.take(1) =~= seq![items[0]]);
    }
}

/// The JSON texts of strings.
pub open spec fn json_strings(items: Seq<String>) -> Seq<Seq<char>> {
    items.map_values(|s: String| json_string(s@))
}

/// Appends the JSON array of the given strings to `out`.
pub fn push_string_array(out: &mut String, items: &Vec<String>)
    ensures
        final(out)@ == old(out)@ + json_array(json_strings(items@)),
{
    let ghost texts = json_strings(items@);
    push_char(out, '[');
    let ghost start = out@;
    let mut i: usize = 0;
    while i < items.len()
        invariant
            i <= items@.len(),
            texts == json_strings(items@),
            out@ == start + join_commas(texts.take(i as int)),
        decreases items@.len() - i,
    {
        proof {
            lemma_join_commas_step(texts, i as int);
        }
        if i > 0 {
            push_char(out, ',');
        }
        push_json_string(out, items[i].as_str());
        i = i + 1;
        proof {
            assert(out@ =~= start + join_commas(texts.take(i as int)));
        }
    }
    proof {
        assert(texts.take(items@.len() as int) =~= texts);
    }
    push_char(out, ']');
    assert(final(out)@ =~= old(out)@ + json_array(texts));
}

/// The text of `"key":`.
pub open spec fn json_key(key: Seq<char>) -> Seq<char> {
    json_string(key) + seq![':']
}

/// Appends `"key":` to `out`.
pub fn push_key(out: &mut String, key: &str)
    ensures
        final(out)@ == old(out)@ + json_key(key@),
{
    push_json_string(out, key);
    push_char(out, ':');
    assert(final(out)@ =~= old(out)@ + json_key(key@));
}

/// Where the `i`-th of `items` starts in their comma-joined text.
pub open spec fn item_offset(items: Seq<Seq<char>>, i: int) -> int
    decreases i,
{
    if i <= 0 {
        0
    } else {
        item_offset(items, i - 1) + items[i - 1].len() + 1
    }
}

/// The length of the comma-joined text of `items`.
pub open spec fn joined_len(items: Seq<Seq<char>>) -> int {
    if items.len() == 0 {
        0
    } else {
        item_offset(items, items.len() - 1) + items.last().len()
    }
}

/// `text` holds, from `start`, a JSON array of exactly `items`: `[`, each item
/// in order with a comma between two neighbours, then `]`.
pub open spec fn array_at(text: Seq<char>, start: int, items: Seq<Seq<char>>) -> bool {
    &&& 0 <= start
    &&& start + joined_len(items) + 2 <= text.len()
    &&& text[start] == '['
    &&& forall|i: int|
        #![trigger items[i]]
        0 <= i < items.len() ==> text.subrange(
            start + 1 + item_offset(items, i),
            start + 1 + item_offset(items, i) + items[i].len(),
        ) == items[i]
    &&& forall|i: int|
        #![trigger items[i]]
        0 <= i < items.len() - 1 ==> text[start + 1 + item_offset(items, i) + items[i].len()] == ','
    &&& text[start + 1 + joined_len(items)] == ']'
}

/// `text` holds `"key":` followed by a JSON array of exactly `items`.
pub open spec fn keyed_array(text: Seq<char>, key: Seq<char>, items: Seq<Seq<char>>) -> bool {
    exists|start: int|
        #[trigger] array_at(text, start, items) && start >= json_key(key).len() && text.subrange(
            start - json_key(key).len(),
            start,
        ) == json_key(key)
}

/// `text` holds `part` from position `k` on.
pub open spec fn part_at(text: Seq<char>, k: int, part: Seq<char>) -> bool {
    0 <= k && k + part.len() <= text.len() && text.subrange(k, k + part.len()) == part
}

/// `text` holds `part` somewhere, as one contiguous piece.
pub open spec fn has_part(text: Seq<char>, part: Seq<char>) -> bool {
    exists|k: int| #[trigger] part_at(text, k, part)
}

/// `text` holds `"key":` then a JSON string literal with the escaped contents
/// `e`, then `after`, from position `k` on.
pub open spec fn string_field_at(text: Seq<char>, k: int, key: Seq<char>, e: Seq<char>, after: Seq<char>) -> bool {
    part_at(text, k, json_key(key) + seq!['"'] + e + seq!['"'] + after)
}

/// `text` has a field `key` whose JSON string reads back to exactly `value`,
/// with `after` following the string.
pub open spec fn has_string_field(text: Seq<char>, key: Seq<char>, value: Seq<char>, after: Seq<char>) -> bool {
    exists|k: int, e: Seq<char>|
        #[trigger] string_field_at(text, k, key, e, after) && json_unescape(e) == Some(value)
}

/// `text` holds `"key":` then the digits `d`, then `after`, from position `k` on.
pub open spec fn int_field_at(text: Seq<char>, k: int, key: Seq<char>, d: Seq<char>, after: Seq<char>) -> bool {
    part_at(text, k, json_key(key) + d + after)
}

/// `text` has a field `key` whose number reads back to exactly `n`, with
/// `after` following the number.
pub open spec fn has_int_field(text: Seq<char>, key: Seq<char>, n: i64, after: Seq<char>) -> bool {
    exists|k: int, d: Seq<char>|
        #[trigger] int_field_at(text, k, key, d, after) && parse_i64_spec(d) == Ok::<i64, IntErrorKind>(n)
}

proof fn lemma_item_offset_prefix(a: Seq<Seq<char>>, b: Seq<Seq<char>>, i: int)
    requires
        0 <= i <= a.len(),
        i <= b.len(),
        forall|j: int| 0 <= j < i ==> a[j] == b[j],
    ensures
        item_offset(a, i) == item_offset(b, i),
    decreases i,
{
    if i > 0 {
        lemma_item_offset_prefix(a, b, i - 1);
    }
}

proof fn lemma_offset_mono(items: Seq<Seq<char>>, i: int, k: int)
    requires
        0 <= i <= k <= items.len(),
    ensures
        0 <= item_offset(items, i),
        i < k ==> item_offset(items, i) + items[i].len() < item_offset(items, k),
    decreases k,
{
    if k > 0 {
        if i < k {
            lemma_offset_mono(items, i, k - 1);
        } else {
            lemma_offset_mono(items, k - 1, k - 1);
        }
    }
}

/// Every item lies inside the comma-joined text.
proof fn lemma_item_in_bounds(items: Seq<Seq<char>>, i: int)
    requires
        0 <= i < items.len(),
    ensures
        0 <= item_offset(items, i),
        item_offset(items, i) + items[i].len() <= joined_len(items),
        i < items.len() - 1 ==> item_offset(items, i) + items[i].len() < item_offset(items, items.len() - 1),
{
    lemma_offset_mono(items, i, items.len() - 1);
}

/// The comma-joined text of a list is as long as `joined_len` says.
pub proof fn lemma_join_len(items: Seq<Seq<char>>)
    ensures
        join_commas(items).len() == joined_len(items),
    decreases items.len(),
{
    if items.len() >= 2 {
        let n = items.len() as int;
        let d = items.drop_last();
        lemma_join_len(d);
        lemma_item_offset_prefix(items, d, n - 2);
    }
}

/// The `i`-th item stands at `item_offset` in the comma-joined text.
pub proof fn lemma_join_item(items: Seq<Seq<char>>, i: int)
    requires
        0 <= i < items.len(),
    ensures
        join_commas(items).subrange(item_offset(items, i), item_offset(items, i) + items[i].len()) == items[i],
    decreases items.len(),
{
    let n = items.len() as int;
    let j = join_commas(items);
    if n == 1 {
        assert(j.subrange(0, items[0].len() as int) =~= items[0]);
    } else {
        let d = items.drop_last();
        let jd = join_commas(d);
        assert(j == jd + seq![','] + items.last());
        if i == n - 1 {
            lemma_join_len(d);
            lemma_item_offset_prefix(items, d, n - 2);
            assert(item_offset(items, i) == jd.len() + 1);
            assert(j.subrange(item_offset(items, i), item_offset(items, i) + items[i].len()) =~= items.last());
        } else {
            lemma_join_item(d, i);
            lemma_item_offset_prefix(items, d, i);
            lemma_item_in_bounds(d, i);
            lemma_join_len(d);
            assert(d[i] == items[i]);
            assert(j.subrange(item_offset(items, i), item_offset(items, i) + items[i].len()) =~= jd.subrange(
                item_offset(d, i),
                item_offset(d, i) + d[i].len(),
            ));
        }
    }
}

/// A comma follows every item but the last in the comma-joined text.
pub proof fn lemma_join_comma(items: Seq<Seq<char>>, i: int)
    requires
        0 <= i < items.len() - 1,
    ensures
        join_commas(items)[item_offset(items, i) + items[i].len()] == ',',
    decreases items.len(),
{
    let n = items.len() as int;
    let j = join_commas(items);
    let d = items.drop_last();
    let jd = join_commas(d);
    assert(j == jd + seq![','] + items.last());
    lemma_item_offset_prefix(items, d, i);
    assert(d[i] == items[i]);
    lemma_item_in_bounds(d, i);
    if i == n - 2 {
        lemma_join_len(d);
    } else {
        lemma_join_comma(d, i);
        lemma_join_len(d);
    }
}

/// A JSON array written between `p` and `s` stands, item by item, right after `p`.
pub proof fn lemma_array_in(p: Seq<char>, items: Seq<Seq<char>>, s: Seq<char>)
    ensures
        array_at(p + json_array(items) + s, p.len() as int, items),
{
    lemma_join_len(items);
    let t = p + json_array(items) + s;
    let j = join_commas(items);
    let base: int = p.len() as int + 1;
    assert(t =~= p + seq!['['] + j + seq![']'] + s);
    assert forall|i: int|
        #![trigger items[i]]
        0 <= i < items.len() implies t.subrange(
            base + item_offset(items, i),
            base + item_offset(items, i) + items[i].len(),
        ) == items[i] by {
        lemma_join_item(items, i);
        lemma_item_in_bounds(items, i);
        assert(t.subrange(base + item_offset(items, i), base + item_offset(items, i) + items[i].len())
            =~= j.subrange(item_offset(items, i), item_offset(items, i) + items[i].len()));
    }
    assert forall|i: int|
        #![trigger items[i]]
        0 <= i < items.len() - 1 implies t[base + item_offset(items, i) + items[i].len()] == ',' by {
        lemma_join_comma(items, i);
        lemma_item_in_bounds(items, i);
    }
    assert(t[base + j.len()] == ']');
}

/// `"key":` and a JSON array written between `p` and `s` make a keyed array.
pub proof fn lemma_keyed_array_in(p: Seq<char>, key: Seq<char>, items: Seq<Seq<char>>, s: Seq<char>)
    ensures
        keyed_array(p + json_key(key) + json_array(items) + s, key, items),
{
    let q = p + json_key(key);
    let t = q + json_array(items) + s;
    lemma_array_in(q, items, s);
    assert(t.subrange(q.len() - json_key(key).len(), q.len() as int) =~= json_key(key));
    assert(array_at(t, q.len() as int, items));
}

/// A piece written between `p` and `s` is held by the whole.
pub proof fn lemma_part_in(p: Seq<char>, part: Seq<char>, s: Seq<char>)
    ensures
        has_part(p + part + s, part),
{
    let t = p + part + s;
    assert(t.subrange(p.len() as int, (p.len() + part.len()) as int) =~= part);
    assert(part_at(t, p.len() as int, part));
}

/// `"key":` and the JSON string of `value`, followed by `after`, make a field
/// that reads back to `value`.
pub proof fn lemma_string_field_in(p: Seq<char>, key: Seq<char>, value: Seq<char>, after: Seq<char>, s: Seq<char>)
    ensures
        has_string_field(p + json_key(key) + json_string(value) + after + s, key, value, after),
{
    let t = p + json_key(key) + json_string(value) + after + s;
    let e = json_escape(value);
    let f = json_key(key) + seq!['"'] + e + seq!['"'] + after;
    assert(t =~= p + f + s);
    assert(t.subrange(p.len() as int, (p.len() + f.len()) as int) =~= f);
    law_json_escape_reads_back(value);
    assert(string_field_at(t, p.len() as int, key, e, after));
}

/// `"key":` and the decimal text of `n`, followed by `after`, make a field
/// that reads back to `n`.
pub proof fn lemma_int_field_in(p: Seq<char>, key: Seq<char>, n: i64, after: Seq<char>, s: Seq<char>)
    ensures
        has_int_field(p + json_key(key) + signed_decimal(n as int) + after + s, key, n, after),
{
    let d = signed_decimal(n as int);
    let t = p + json_key(key) + d + after + s;
    let f = json_key(key) + d + after;
    assert(t =~= p + f + s);
    assert(t.subrange(p.len() as int, (p.len() + f.len()) as int) =~= f);
    law_parse_reads_back_decimal(n);
    assert(int_field_at(t, p.len() as int, key, d, after));
}

} // verus!

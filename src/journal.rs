//! The journal file's text: a JSON array of `{"text": .., "created_at": ..}` records.

use crate::task::Task;
use crate::text::{signed_decimal, signed_decimal_string};
use vstd::prelude::*;
use vstd::string::*;

verus! {

/// The JSON string literal that serde_json writes for `s`: quoted, with escapes.
pub uninterp spec fn json_quoted(s: Seq<char>) -> Seq<char>;

/// Relies on serde_json::to_string on a string slice: the JSON string literal for `s`.
/// Serialising a `str` into memory does not fail in serde_json; an error would give an
/// empty string.
#[verifier::external_body]
fn quote_json(s: &str) -> (r: String)
    ensures
        r@ == json_quoted(s@),
{
    serde_json::to_string(s).unwrap_or_default()
}

/// `{"text":`
pub open spec fn text_key() -> Seq<char> {
    seq!['{', '"', 't', 'e', 'x', 't', '"', ':']
}

/// `,"created_at":`
pub open spec fn created_at_key() -> Seq<char> {
    seq![',', '"', 'c', 'r', 'e', 'a', 't', 'e', 'd', '_', 'a', 't', '"', ':']
}

/// The JSON object of one task.
pub open spec fn record_json(text: Seq<char>, created_at: int) -> Seq<char> {
    text_key() + json_quoted(text) + created_at_key() + signed_decimal(created_at) + seq!['}']
}

/// The records of `tasks`, separated by commas.
pub open spec fn records_json(tasks: Seq<Task>) -> Seq<char>
    decreases tasks.len(),
{
    if tasks.len() == 0 {
        Seq::empty()
    } else if tasks.len() == 1 {
        record_json(tasks[0].text@, tasks[0].created_at as int)
    } else {
        records_json(tasks.drop_last()) + seq![','] + record_json(
            tasks.last().text@,
            tasks.last().created_at as int,
        )
    }
}

/// The whole journal text of `tasks`: a JSON array of their records, in order.
pub open spec fn journal_json(tasks: Seq<Task>) -> Seq<char> {
    seq!['['] + records_json(tasks) + seq![']']
}

/// The JSON object of one task.
pub fn encode_task(task: &Task) -> (r: String)
    ensures
        r@ == record_json(task.text@, task.created_at as int),
{
    proof {
        reveal_strlit("{\"text\":");
        reveal_strlit(",\"created_at\":");
        reveal_strlit("}");
    }
    let open = String::from_str("{\"text\":");
    assert(open@ =~= text_key());
    let q = quote_json(task.text.as_str());
    let n = signed_decimal_string(task.created_at);
    let key = ",\"created_at\":";
    assert(key@ =~= created_at_key());
    let r = open.concat(q.as_str()).concat(key).concat(n.as_str()).concat("}");
    assert(r@ =~= record_json(task.text@, task.created_at as int));
    r
}

/// The journal text of `tasks`, as written back to the journal file.
pub fn encode_tasks(tasks: &Vec<Task>) -> (r: String)
    ensures
        r@ == journal_json(tasks@),
{
    proof {
        reveal_strlit("[");
        reveal_strlit(",");
        reveal_strlit("]");
    }
    let mut body = String::new();
    let mut i: usize = 0;
    assert(tasks@.subrange(0, 0) =~= Seq::<Task>::empty());
    while i < tasks.len()
        invariant
            i <= tasks@.len(),
            body@ == records_json(tasks@.subrange(0, i as int)),
        decreases tasks.len() - i,
    {
        let rec = encode_task(&tasks[i]);
        let ghost prefix = tasks@.subrange(0, i as int);
        let ghost next = tasks@.subrange(0, i + 1);
        assert(next.drop_last() =~= prefix);
        assert(next.last() == tasks@[i as int]);
        if i == 0 {
            body = rec;
            assert(body@ == records_json(next));
        } else {
            assert(next.len() > 1);
            proof {
                reveal_strlit(",");
            }
            assert(","@ =~= seq![',']);
            body = body.concat(",").concat(rec.as_str());
            assert(body@ =~= records_json(next));
        }
        i = i + 1;
    }
    assert(tasks@.subrange(0, tasks@.len() as int) =~= tasks@);
    let r = String::from_str("[").concat(body.as_str()).concat("]");
    assert(r@ =~= journal_json(tasks@));
    r
}

} // verus!

//! How things are printed for people to read.

use crate::json::rendered;
use crate::json::Json;
use crate::json::JsonView;
use crate::text::find_nth;
use crate::text::nth_index;
use vstd::prelude::*;
use vstd::string::*;

verus! {

/// The text in which `humantime` prints a span of time, given in
/// nanoseconds.
pub uninterp spec fn span_text(nanos: u64) -> Seq<char>;

/// The object whose members are the pairs of a name and a text given.
pub open spec fn object_of(members: Seq<(Seq<char>, Seq<char>)>) -> JsonView {
    JsonView::Object(Seq::new(members.len(), |i: int| (members[i].0, JsonView::Text(members[i].1))))
}

/// The JSON text of the object whose members are the pairs of a name and a
/// text given.
pub open spec fn object_text(members: Seq<(Seq<char>, Seq<char>)>) -> Seq<char> {
    rendered(object_of(members))
}

/// Writes the pairs as a JSON object of texts.
pub fn serialize(members: &Vec<(String, String)>) -> (r: String)
    ensures
        r@ == object_text(members.deep_view()),
{
    let mut held: Vec<(String, Json)> = Vec::new();
    let mut i: usize = 0;
    while i < members.len()
        invariant
            i <= members.len(),
            held@.len() == i,
            forall|k: int|
                0 <= k < i ==> held@[k].0@ == members@[k].0@ && held@[k].1@ == JsonView::Text(
                    members@[k].1@,
                ),
        decreases members.len() - i,
    {
        held.push((members[i].0.clone(), Json::Text(members[i].1.clone())));
        i = i + 1;
    }
    let object = Json::object(held);
    assert(object@->Object_0 =~= object_of(members.deep_view())->Object_0);
    object.render()
}

/// Prints a span of time with `humantime::format_duration`.
#[verifier::external_body]
fn format_span(nanos: u64) -> (r: String)
    ensures
        r@ == span_text(nanos),
{
    humantime::format_duration(std::time::Duration::from_nanos(nanos)).to_string()
}

/// A text up to and with its second space; up to and with its only space
/// where it has one; the whole of it where it has none.
pub open spec fn truncated(s: Seq<char>) -> Seq<char> {
    match nth_index(s, ' ', 2) {
        Some(second) => s.subrange(0, second + 1),
        None => match nth_index(s, ' ', 1) {
            Some(first) => s.subrange(0, first + 1),
            None => s,
        },
    }
}

/// Cuts a printed span of time down to its two largest units.
pub fn truncate_after_second_space(s: &str) -> (r: &str)
    ensures
        r@ == truncated(s@),
{
    match find_nth(s, ' ', 2) {
        Some(second) => s.substring_char(0, second + 1),
        None => match find_nth(s, ' ', 1) {
            Some(first) => s.substring_char(0, first + 1),
            None => s,
        },
    }
}

/// What is printed for the time that has passed between `timestamp` and
/// `now`, both in nanoseconds since the start of 1970.
pub open spec fn elapsed_text(timestamp: u64, now: u64) -> Seq<char> {
    if timestamp <= now {
        truncated(span_text((now - timestamp) as u64))
    } else {
        "error displaying duration: second time provided was later than self"@
    }
}

/// Prints the time that has passed between `timestamp` and `now`.
pub fn elapsed_at(timestamp: u64, now: u64) -> (r: String)
    ensures
        r@ == elapsed_text(timestamp, now),
{
    if timestamp <= now {
        let span = format_span(now - timestamp);
        truncate_after_second_space(span.as_str()).to_owned()
    } else {
        String::from_str("error displaying duration: second time provided was later than self")
    }
}

/// Prints the time that has passed since `timestamp`.
pub fn elapsed(timestamp: u64) -> (r: String)
    ensures
        exists|now: u64| r@ == elapsed_text(timestamp, now),
{
    elapsed_at(timestamp, crate::clock::now())
}

} // verus!

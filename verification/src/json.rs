//! The JSON text of the configuration file: the encodings of its leaves, which
//! `serde_json` computes, and the frames that hold them together.

use vstd::prelude::*;

verus! {

/// The JSON string literal, quotes and escapes included, that `serde_json`
/// writes for a text.
pub uninterp spec fn json_string_text(text: Seq<char>) -> Seq<char>;

/// The character that writes a digit.
pub open spec fn digit_char(digit: int) -> char
    recommends
        0 <= digit < 10,
{
    seq!['0', '1', '2', '3', '4', '5', '6', '7', '8', '9'][digit]
}

/// A natural number in base ten, without leading zeros.
pub open spec fn natural_text(n: nat) -> Seq<char>
    decreases n,
{
    if n < 10 {
        seq![digit_char(n as int)]
    } else {
        natural_text(n / 10).push(digit_char((n % 10) as int))
    }
}

/// An integer in base ten: a minus sign for a negative one, then its
/// magnitude without leading zeros.
pub open spec fn decimal_text(n: int) -> Seq<char> {
    if n < 0 {
        seq!['-'] + natural_text((-n) as nat)
    } else {
        natural_text(n as nat)
    }
}

/// Calls `serde_json::to_string` on a string slice.
///
/// The result is the JSON string literal of `text`, which the contract only
/// names. Writing a string slice into memory has no way to fail, so the error
/// arm is never taken.
#[verifier::external_body]
pub(crate) fn json_string(text: &str) -> (json: String)
    ensures
        json@ == json_string_text(text@),
{
    match serde_json::to_string(text) {
        Ok(json) => json,
        Err(_) => String::new(),
    }
}

/// Calls `serde_json::to_string` on an `i32`.
///
/// The result is the integer in base ten, with a leading minus sign when it
/// is negative and no other decoration. Writing an integer into memory has no
/// way to fail, so the error arm is never taken.
#[verifier::external_body]
pub(crate) fn json_i32(value: i32) -> (json: String)
    ensures
        json@ == decimal_text(value as int),
{
    match serde_json::to_string(&value) {
        Ok(json) => json,
        Err(_) => String::new(),
    }
}

/// The JSON object of one record, given the JSON texts of its three values.
pub open spec fn record_frame(threshold: Seq<char>, count: Seq<char>, filename: Seq<char>) -> Seq<char> {
    "{\"threshold\":"@ + threshold + ",\"count\":"@ + count + ",\"filename\":"@ + filename + "}"@
}

/// The items in order, with a comma between each two neighbours.
pub open spec fn comma_separated(items: Seq<Seq<char>>) -> Seq<char>
    decreases items.len(),
{
    if items.len() == 0 {
        Seq::empty()
    } else if items.len() == 1 {
        items[0]
    } else {
        comma_separated(items.drop_last()) + ","@ + items.last()
    }
}

/// The JSON object of the whole file, given the JSON text of the board name
/// and the JSON objects of the records: the name first, then the records as
/// an array in the order given.
pub open spec fn document_frame(name: Seq<char>, records: Seq<Seq<char>>) -> Seq<char> {
    "{\"name\":"@ + name + ",\"components\":["@ + comma_separated(records) + "]}"@
}

/// The texts that a list of strings holds, in order.
pub open spec fn texts_view(texts: Seq<String>) -> Seq<Seq<char>> {
    Seq::new(texts.len(), |i: int| texts[i]@)
}

/// Puts the JSON texts of a record's three values into the record's object.
pub fn frame_record(threshold: &str, count: &str, filename: &str) -> (text: String)
    ensures
        text@ == record_frame(threshold@, count@, filename@),
{
    let mut text = String::from_str("{\"threshold\":");
    text.append(threshold);
    text.append(",\"count\":");
    text.append(count);
    text.append(",\"filename\":");
    text.append(filename);
    text.append("}");
    text
}

/// Puts the JSON text of the board name and the JSON objects of the records
/// into the object of the whole file.
pub fn frame_document(name: &str, records: &Vec<String>) -> (text: String)
    ensures
        text@ == document_frame(name@, texts_view(records@)),
{
    let ghost items = texts_view(records@);
    let mut list = String::new();
    let mut i: usize = 0;
    while i < records.len()
        invariant
            i <= records.len(),
            items == texts_view(records@),
            list@ == comma_separated(items.take(i as int)),
        decreases records.len() - i,
    {
        if i > 0 {
            list.append(",");
        }
        list.append(records[i].as_str());
        proof {
            assert(items.take(i + 1).drop_last() =~= items.take(i as int));
            assert(items.take(i + 1).last() == records[i as int]@);
            if i == 0 {
                assert(list@ =~= items[0]);
            }
        }
        i += 1;
    }
    assert(items.take(records.len() as int) =~= items);
    let mut text = String::from_str("{\"name\":");
    text.append(name);
    text.append(",\"components\":[");
    text.append(list.as_str());
    text.append("]}");
    text
}

} // verus!

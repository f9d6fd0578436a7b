use crate::config::Config;
use crate::decimal::{decimal, decimal_string, lemma_decimal_reads_back, parse_i32, parsed_i32};
use crate::pattern::{is_match, pattern_found, pattern_pieces, split};
use std::sync::Arc;
use vstd::prelude::*;
use vstd::string::*;

verus! {

/// The regular expression that parts a payload's index from what follows it: two colons
/// with one white-space character on either side.
pub open spec fn separator() -> Seq<char> {
    seq!['\\', 's', ':', ':', '\\', 's']
}

/// What stands between the index and the time stamp of a payload: ` :: `.
pub open spec fn joint() -> Seq<char> {
    seq![' ', ':', ':', ' ']
}

/// The payload of the message with number `index` in a burst, stamped with `stamp`.
pub open spec fn payload_text(index: int, stamp: Seq<char>) -> Seq<char> {
    decimal(index) + joint() + stamp
}

/// What the pieces of a payload say of the burst's end: whether the index that the first
/// piece writes is the last one of a burst of `message_quantity` messages. `None` where no
/// index can be read.
pub open spec fn verdict_of_pieces(pieces: Seq<Seq<char>>, message_quantity: int) -> Option<
    bool,
> {
    if pieces.len() == 0 {
        None
    } else {
        match parsed_i32(pieces[0]) {
            Some(index) => Some(index == message_quantity - 1),
            None => None,
        }
    }
}

/// Whether `payload` marks the end of a burst of `message_quantity` messages. A payload
/// without the separator marks nothing. `None` where the separator is there and no index
/// can be read in front of it.
pub open spec fn final_marker(payload: Seq<char>, message_quantity: int) -> Option<bool> {
    match pattern_found(separator(), payload) {
        Some(true) => match pattern_pieces(separator(), payload) {
            Some(pieces) => verdict_of_pieces(pieces, message_quantity),
            None => None,
        },
        Some(false) => Some(false),
        None => None,
    }
}

/// The text of the separator pattern.
pub fn separator_pattern() -> (r: &'static str)
    ensures
        r@ == separator(),
{
    proof {
        reveal_strlit("\\s::\\s");
    }
    let r = "\\s::\\s";
    assert(r@ =~= separator());
    r
}

/// Writes the payload of the message with number `index` in a burst: the index, the joint,
/// and the time stamp that the caller took.
pub fn payload(index: i32, stamp: &str) -> (r: String)
    ensures
        r@ == payload_text(index as int, stamp@),
{
    proof {
        reveal_strlit(" :: ");
    }
    let mut out = decimal_string(index);
    out.append(" :: ");
    out.append(stamp);
    assert(out@ =~= payload_text(index as int, stamp@));
    out
}

/// Reads the index in front of the first separator and compares it with the last index of
/// a burst of `message_quantity` messages.
pub fn final_index_in(pieces: &Vec<String>, message_quantity: i32) -> (r: Option<bool>)
    ensures
        r == verdict_of_pieces(pieces.deep_view(), message_quantity as int),
{
    if pieces.len() == 0 {
        return None;
    }
    assert(pieces.deep_view()[0] == pieces@[0]@);
    match parse_i32(pieces[0].as_str()) {
        Some(index) => Some(index as i64 == message_quantity as i64 - 1),
        None => None,
    }
}

/// Decides for any payload whether it marks the end of a burst of `message_quantity`
/// messages. `None` says that the payload holds the separator and no readable index in
/// front of it.
pub fn final_marker_for(payload: &str, message_quantity: i32) -> (r: Option<bool>)
    ensures
        r == final_marker(payload@, message_quantity as int),
{
    match is_match(separator_pattern(), payload) {
        Some(true) => match split(separator_pattern(), payload) {
            Some(pieces) => final_index_in(&pieces, message_quantity),
            None => None,
        },
        Some(false) => Some(false),
        None => None,
    }
}

/// Verifies whether `msg` is the final message of a burst: whether the index it leads with
/// is `message_quantity - 1`, with the quantity taken from `config`. It is meant for payloads
/// whose index can be read; `read_final_marker` takes any payload.
pub fn is_final_message(msg: &str, config: Arc<Config>) -> (r: bool)
    requires
        final_marker(msg@, config.publisher_connection.message_quantity as int) is Some,
    ensures
        Some(r) == final_marker(msg@, config.publisher_connection.message_quantity as int),
{
    match final_marker_for(msg, config.publisher_connection.message_quantity) {
        Some(verdict) => verdict,
        None => false,
    }
}

/// Decides whether the end of a burst can be told from `payload`: it can unless the payload
/// holds the separator and no readable index in front of it. The size of the burst plays no
/// part in this.
pub fn is_readable(payload: &str) -> (r: bool)
    ensures
        forall|message_quantity: int|
            r == (#[trigger] final_marker(payload@, message_quantity) is Some),
{
    final_marker_for(payload, 0).is_some()
}

/// Decides for any payload whether it marks the end of a burst, with the size of a burst
/// taken from `config`. `None` says that the payload holds the separator and no readable
/// index in front of it.
pub fn read_final_marker(msg: &str, config: Arc<Config>) -> (r: Option<bool>)
    ensures
        r == final_marker(msg@, config.publisher_connection.message_quantity as int),
{
    if is_readable(msg) {
        Some(is_final_message(msg, config))
    } else {
        None
    }
}

/// The index that a payload was written with is the index that is read from it: wherever
/// the first piece of a payload is the decimal text of `index`, the payload marks the end of
/// a burst exactly if `index` is the last index of the burst.
pub proof fn lemma_index_is_read_back(index: i32, pieces: Seq<Seq<char>>, message_quantity: int)
    requires
        pieces.len() > 0,
        pieces[0] == decimal(index as int),
    ensures
        verdict_of_pieces(pieces, message_quantity) == Some(index == message_quantity - 1),
{
    lemma_decimal_reads_back(index);
}

} // verus!

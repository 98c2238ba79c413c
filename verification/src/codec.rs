//! The persisted shape of a collection record: each id list is stored as
//! a JSON array of 64-bit integers in a nullable text column, an absent
//! column reading back as the empty list.
//!
//! Encoding and parsing of the JSON text itself are entrusted to
//! serde_json; assembling columns into records, the empty default, and
//! the round trip are verified here.

use vstd::prelude::*;
use crate::collection::RecordView;
use crate::collection::UserEventDataRow;
use crate::errors::AppError;

verus! {

/// The JSON text an id list serializes to.  Its exact shape is left to
/// the serializer; it is a function of the list alone.
pub uninterp spec fn ids_json(ids: Seq<i64>) -> Seq<char>;

/// What JSON text parses to as a list of 64-bit integers, or nothing for
/// text that is not such an array.
pub uninterp spec fn json_ids(text: Seq<char>) -> Option<Seq<i64>>;

/// Relies on serde_json::to_string: a vector of integers serializes to
/// the JSON array of its numbers — a function of the list alone, and
/// serialization of this type cannot fail — and on
/// serde_json::from_str: that very text parses back to an equal list.
#[verifier::external_body]
fn encode_ids(ids: &Vec<i64>) -> (r: String)
    ensures
        r@ == ids_json(ids@),
        json_ids(r@) == Some(ids@),
{
    serde_json::to_string(ids).unwrap_or_default()
}

/// Relies on serde_json::from_str: what a text parses to depends on the
/// text alone, and text that is no JSON array of integers is rejected.
#[verifier::external_body]
fn decode_ids(text: &String) -> (r: Option<Vec<i64>>)
    ensures
        (match r {
            Some(v) => json_ids(text@) == Some(v@),
            None => json_ids(text@) is None,
        }),
{
    serde_json::from_str::<Vec<i64>>(text).ok()
}

/// A collection record as its persistence row: six nullable JSON-text
/// columns beside the two ids.
#[derive(Debug)]
pub struct RawCollectionRow {
    pub id: i64,
    pub user_id: String,
    pub favorite_events: Option<String>,
    pub favorite_microevents: Option<String>,
    pub saved_events: Option<String>,
    pub saved_microevents: Option<String>,
    pub created_events: Option<String>,
    pub created_microevents: Option<String>,
}

/// What one column holds: an absent column is the empty list, text must
/// parse as a JSON array of integers.
pub open spec fn decoded_column(col: Option<String>) -> Option<Seq<i64>> {
    match col {
        Option::None => Some(Seq::<i64>::empty()),
        Option::Some(text) => json_ids(text@),
    }
}

/// The record a raw row decodes to, or nothing if any column's text does
/// not parse.
pub open spec fn decoded_row(raw: RawCollectionRow) -> Option<RecordView> {
    if decoded_column(raw.favorite_events) is Some && decoded_column(raw.favorite_microevents)
        is Some && decoded_column(raw.saved_events) is Some && decoded_column(
        raw.saved_microevents,
    ) is Some && decoded_column(raw.created_events) is Some && decoded_column(
        raw.created_microevents,
    ) is Some {
        Some(
            (RecordView {
                id: raw.id as int,
                user_id: raw.user_id@,
                favorite_events: decoded_column(raw.favorite_events)->0,
                favorite_microevents: decoded_column(raw.favorite_microevents)->0,
                saved_events: decoded_column(raw.saved_events)->0,
                saved_microevents: decoded_column(raw.saved_microevents)->0,
                created_events: decoded_column(raw.created_events)->0,
                created_microevents: decoded_column(raw.created_microevents)->0,
            }),
        )
    } else {
        None
    }
}

/// Decodes one column of `raw`.
fn decode_column(col: &Option<String>) -> (r: Option<Vec<i64>>)
    ensures
        (match r {
            Some(v) => decoded_column(*col) == Some(v@),
            None => decoded_column(*col) is None,
        }),
{
    match col {
        Option::None => Some(Vec::new()),
        Option::Some(text) => decode_ids(text),
    }
}

/// Reads a persistence row back as a record; a column whose text does
/// not parse surfaces as a serialization error.
pub fn decode_row(raw: &RawCollectionRow) -> (r: Result<UserEventDataRow, AppError>)
    ensures
        (match r {
            Ok(rec) => decoded_row(*raw) == Some(rec@),
            Err(e) => decoded_row(*raw) is None && e is SerializationError,
        }),
{
    let favorite_events = match decode_column(&raw.favorite_events) {
        Some(v) => v,
        None => {
            return Err(AppError::SerializationError("stored id list does not parse".to_owned()));
        }
    };
    let favorite_microevents = match decode_column(&raw.favorite_microevents) {
        Some(v) => v,
        None => {
            return Err(AppError::SerializationError("stored id list does not parse".to_owned()));
        }
    };
    let saved_events = match decode_column(&raw.saved_events) {
        Some(v) => v,
        None => {
            return Err(AppError::SerializationError("stored id list does not parse".to_owned()));
        }
    };
    let saved_microevents = match decode_column(&raw.saved_microevents) {
        Some(v) => v,
        None => {
            return Err(AppError::SerializationError("stored id list does not parse".to_owned()));
        }
    };
    let created_events = match decode_column(&raw.created_events) {
        Some(v) => v,
        None => {
            return Err(AppError::SerializationError("stored id list does not parse".to_owned()));
        }
    };
    let created_microevents = match decode_column(&raw.created_microevents) {
        Some(v) => v,
        None => {
            return Err(AppError::SerializationError("stored id list does not parse".to_owned()));
        }
    };
    Ok(
        UserEventDataRow {
            id: raw.id,
            user_id: raw.user_id.clone(),
            favorite_events,
            favorite_microevents,
            saved_events,
            saved_microevents,
            created_events,
            created_microevents,
        },
    )
}

/// Writes a record as its persistence row, every column present.
pub fn encode_row(rec: &UserEventDataRow) -> (r: RawCollectionRow)
    ensures
        r.id == rec.id,
        r.user_id@ == rec@.user_id,
        r.favorite_events is Some && r.favorite_events->0@ == ids_json(rec@.favorite_events),
        r.favorite_microevents is Some && r.favorite_microevents->0@ == ids_json(
            rec@.favorite_microevents,
        ),
        r.saved_events is Some && r.saved_events->0@ == ids_json(rec@.saved_events),
        r.saved_microevents is Some && r.saved_microevents->0@ == ids_json(
            rec@.saved_microevents,
        ),
        r.created_events is Some && r.created_events->0@ == ids_json(rec@.created_events),
        r.created_microevents is Some && r.created_microevents->0@ == ids_json(
            rec@.created_microevents,
        ),
        decoded_row(r) == Some(rec@),
{
    let raw = RawCollectionRow {
        id: rec.id,
        user_id: rec.user_id.clone(),
        favorite_events: Some(encode_ids(&rec.favorite_events)),
        favorite_microevents: Some(encode_ids(&rec.favorite_microevents)),
        saved_events: Some(encode_ids(&rec.saved_events)),
        saved_microevents: Some(encode_ids(&rec.saved_microevents)),
        created_events: Some(encode_ids(&rec.created_events)),
        created_microevents: Some(encode_ids(&rec.created_microevents)),
    };
    proof {
        assert(decoded_row(raw) == Some(rec@));
    }
    raw
}

/// Law: a record written by `encode_row` is read back unchanged by
/// `decode_row` — the persisted shape loses nothing.
pub fn encode_decode_round_trip(rec: &UserEventDataRow) -> (r: UserEventDataRow)
    ensures
        r@ == rec@,
{
    let raw = encode_row(rec);
    match decode_row(&raw) {
        Ok(out) => out,
        Err(_) => {
            proof {
                assert(false);
            }
            rec.clone()
        }
    }
}

} // verus!

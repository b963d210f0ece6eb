//! The waypoint table: thirty slots of twenty bytes, each a used flag, a
//! name of seven bytes and three coordinates.

use crate::error::{DecodeError, DecodeField};
use crate::msg::{MAX_WAYPOINTS, WAYPOINTS_SIZE, WAYPOINT_MAX_NAME_LEN, WAYPOINT_SIZE};
use crate::wire::{float_at, read_float, Binary32};
use vstd::prelude::*;
use vstd::string::StringSliceAdditionalSpecFns;
use vstd::utf8::{decode_utf8, valid_utf8};

verus! {

/// A named point in space.
#[derive(Clone, Debug, PartialEq, Eq)]
pub struct Location {
    pub name: String,
    pub x: Binary32,
    pub y: Binary32,
    pub z: Binary32,
}

/// A location with its name as a sequence of characters.
pub struct LocationView {
    pub name: Seq<char>,
    pub x: Binary32,
    pub y: Binary32,
    pub z: Binary32,
}

impl View for Location {
    type V = LocationView;

    open spec fn view(&self) -> LocationView {
        LocationView { name: self.name@, x: self.x, y: self.y, z: self.z }
    }
}

impl Default for Location {
    /// The origin, without a name.
    fn default() -> (location: Self)
        ensures
            location@ == (LocationView {
                name: Seq::<char>::empty(),
                x: Binary32 { bits: 0 },
                y: Binary32 { bits: 0 },
                z: Binary32 { bits: 0 },
            }),
    {
        let zero = Binary32 { bits: 0 };
        Location { name: String::new(), x: zero, y: zero, z: zero }
    }
}

/// Offset of the name in a slot; the used flag lies before it.
pub const WAYPOINT_NAME: usize = 1;

/// Offset of the three coordinates in a slot.
pub const WAYPOINT_COORDS: usize = 1 + WAYPOINT_MAX_NAME_LEN;

/// The bytes of slot number `i` of a table.
pub open spec fn slot_of(table: Seq<u8>, i: int) -> Seq<u8> {
    table.subrange(i * 20, i * 20 + 20)
}

/// The name field of a slot.
pub open spec fn name_of(slot: Seq<u8>) -> Seq<u8> {
    slot.subrange(1, 8)
}

/// A slot can be decoded unless it is in use and its name is no UTF-8 text.
pub open spec fn slot_ok(slot: Seq<u8>) -> bool {
    slot[0] != 0 ==> valid_utf8(name_of(slot))
}

/// What a slot holds: nothing where its flag is zero, else the point with
/// the seven name bytes as text and the coordinates x, y, z.
pub open spec fn decode_slot(slot: Seq<u8>) -> Option<LocationView>
    recommends
        slot.len() == WAYPOINT_SIZE,
        slot_ok(slot),
{
    if slot[0] == 0 {
        None
    } else {
        Some(
            LocationView {
                name: decode_utf8(name_of(slot)),
                x: float_at(slot, 8),
                y: float_at(slot, 12),
                z: float_at(slot, 16),
            },
        )
    }
}

/// What a table holds, slot by slot.
pub open spec fn decode_table(table: Seq<u8>) -> Seq<Option<LocationView>>
    recommends
        table.len() == WAYPOINTS_SIZE,
{
    Seq::new(MAX_WAYPOINTS as nat, |i: int| decode_slot(slot_of(table, i)))
}

/// The error that slot number `i` gives where its name is no text.
pub open spec fn name_error(table: Seq<u8>, i: int) -> DecodeError {
    DecodeError {
        field: DecodeField::WaypointName,
        offset: (i * 20 + 1) as usize,
        value: table[i * 20 + 1],
    }
}

/// Slot number `i` is the first of a table that cannot be decoded.
pub open spec fn first_bad_slot(table: Seq<u8>, i: int) -> bool {
    &&& 0 <= i < MAX_WAYPOINTS
    &&& !slot_ok(slot_of(table, i))
    &&& forall|j: int| 0 <= j < i ==> slot_ok(#[trigger] slot_of(table, j))
}

/// What a table decodes to: its thirty slots in order, or the error of the
/// first slot that cannot be decoded.
pub open spec fn decode_waypoints(table: Seq<u8>) -> Result<Seq<Option<LocationView>>, DecodeError>
    recommends
        table.len() == WAYPOINTS_SIZE,
{
    if exists|i: int| first_bad_slot(table, i) {
        Err(name_error(table, choose|i: int| first_bad_slot(table, i)))
    } else {
        Ok(decode_table(table))
    }
}

/// A decoded table, each location by its view.
pub open spec fn table_view(slots: Seq<Option<Location>>) -> Seq<Option<LocationView>> {
    Seq::new(
        slots.len(),
        |i: int|
            match slots[i] {
                Some(location) => Some(location@),
                None => None,
            },
    )
}

/// `core::str::from_utf8`: bytes that are well-formed UTF-8 come back as
/// the text that has exactly those bytes, and any other bytes are refused.
#[verifier::external_body]
fn text_of(bytes: &[u8]) -> (text: Option<&str>)
    ensures
        text is Some <==> valid_utf8(bytes@),
        text matches Some(s) ==> s.spec_bytes() == bytes@,
{
    match std::str::from_utf8(bytes) {
        Ok(s) => Some(s),
        Err(_) => None,
    }
}

/// Decodes one slot. The error carries the name's offset in the slot.
pub fn waypoint_from_slot(slot: &[u8]) -> (r: Result<Option<Location>, DecodeError>)
    requires
        slot@.len() == WAYPOINT_SIZE,
    ensures
        match r {
            Ok(Some(location)) => slot_ok(slot@) && decode_slot(slot@) == Some(location@),
            Ok(None) => slot_ok(slot@) && decode_slot(slot@) is None,
            Err(e) => !slot_ok(slot@) && e == (DecodeError {
                field: DecodeField::WaypointName,
                offset: 1,
                value: slot@[1],
            }),
        },
{
    if slot[0] == 0 {
        return Ok(None);
    }
    let name_bytes = vstd::slice::slice_subrange(
        slot,
        WAYPOINT_NAME,
        WAYPOINT_NAME + WAYPOINT_MAX_NAME_LEN,
    );
    let name = match text_of(name_bytes) {
        Some(text) => {
            proof {
                vstd::utf8::encode_utf8_decode_utf8(text@);
            }
            text.to_owned()
        },
        None => {
            return Err(
                DecodeError {
                    field: DecodeField::WaypointName,
                    offset: WAYPOINT_NAME,
                    value: slot[WAYPOINT_NAME],
                },
            );
        },
    };
    let x = read_float(slot, WAYPOINT_COORDS);
    let y = read_float(slot, WAYPOINT_COORDS + 4);
    let z = read_float(slot, WAYPOINT_COORDS + 8);
    Ok(Some(Location { name, x, y, z }))
}

/// Decodes the waypoint table, slot by slot in order. The first slot in
/// use whose name is no text fails the whole table; the error carries the
/// name's offset in the table.
pub fn waypoints_from_buf(w: [u8; WAYPOINTS_SIZE]) -> (r: Result<
    Vec<Option<Location>>,
    DecodeError,
>)
    ensures
        match r {
            Ok(slots) => decode_waypoints(w@) == Ok::<Seq<Option<LocationView>>, DecodeError>(
                table_view(slots@),
            ),
            Err(e) => decode_waypoints(w@) == Err::<Seq<Option<LocationView>>, DecodeError>(e),
        },
{
    let bytes = w.as_slice();
    let mut slots: Vec<Option<Location>> = Vec::with_capacity(MAX_WAYPOINTS);
    let mut i: usize = 0;
    while i < MAX_WAYPOINTS
        invariant
            i <= MAX_WAYPOINTS,
            bytes@ == w@,
            slots@.len() == i,
            forall|j: int| 0 <= j < i ==> slot_ok(#[trigger] slot_of(w@, j)),
            forall|j: int|
                0 <= j < i ==> #[trigger] table_view(slots@)[j] == decode_slot(slot_of(w@, j)),
        decreases MAX_WAYPOINTS - i,
    {
        let wp_start_i = i * WAYPOINT_SIZE;
        let slot = vstd::slice::slice_subrange(bytes, wp_start_i, wp_start_i + WAYPOINT_SIZE);
        assert(slot@ == slot_of(w@, i as int));
        match waypoint_from_slot(slot) {
            Ok(decoded) => {
                let ghost before = slots@;
                slots.push(decoded);
                assert forall|j: int| 0 <= j < i + 1 implies #[trigger] table_view(slots@)[j]
                    == decode_slot(slot_of(w@, j)) by {
                    if j < i {
                        assert(table_view(before)[j] == decode_slot(slot_of(w@, j)));
                    }
                }
            },
            Err(e) => {
                proof {
                    lemma_first_bad_slot_unique(w@, i as int);
                }
                return Err(
                    DecodeError {
                        field: e.field,
                        offset: wp_start_i + WAYPOINT_NAME,
                        value: e.value,
                    },
                );
            },
        }
        i += 1;
    }
    assert(table_view(slots@) =~= decode_table(w@));
    assert(!exists|k: int| first_bad_slot(w@, k));
    Ok(slots)
}

/// A table has at most one first slot that cannot be decoded.
pub proof fn lemma_first_bad_slot_unique(table: Seq<u8>, i: int)
    requires
        first_bad_slot(table, i),
    ensures
        forall|k: int| first_bad_slot(table, k) ==> k == i,
        decode_waypoints(table) == Err::<Seq<Option<LocationView>>, DecodeError>(
            name_error(table, i),
        ),
{
    assert forall|k: int| first_bad_slot(table, k) implies k == i by {
        if k < i {
            assert(slot_ok(slot_of(table, k)));
        } else if i < k {
            assert(slot_ok(slot_of(table, i)));
        }
    }
}

} // verus!

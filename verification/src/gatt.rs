//! The GATT-level data the core reads: characteristic identifiers and
//! advertised property flags, and the shared first-match lookup.

use vstd::prelude::*;

verus! {

/// A standard 128-bit UUID, held as its integer value.
#[derive(Clone, Copy, Debug, PartialEq, Eq, Structural)]
pub struct Uuid {
    pub value: u128,
}

/// Characteristic property flags, one bit each, as a peripheral advertises
/// them.
pub const PROP_BROADCAST: u8 = 0x01;

pub const PROP_READ: u8 = 0x02;

pub const PROP_WRITE_WITHOUT_RESPONSE: u8 = 0x04;

pub const PROP_WRITE: u8 = 0x08;

pub const PROP_NOTIFY: u8 = 0x10;

pub const PROP_INDICATE: u8 = 0x20;

pub const PROP_AUTHENTICATED_SIGNED_WRITES: u8 = 0x40;

pub const PROP_EXTENDED_PROPERTIES: u8 = 0x80;

/// A characteristic as the core sees it: its UUID and the set of property
/// flags it advertises, read-only from this core's perspective.
#[derive(Clone, Copy, Debug, PartialEq, Eq, Structural)]
pub struct Characteristic {
    pub uuid: Uuid,
    pub properties: u8,
}

/// The flag set `properties` includes every bit of `flag`.
pub open spec fn spec_has_flag(properties: u8, flag: u8) -> bool {
    properties & flag == flag
}

/// Tests whether a characteristic's flag set includes `flag`.
pub fn has_flag(properties: u8, flag: u8) -> (r: bool)
    ensures
        r == spec_has_flag(properties, flag),
{
    properties & flag == flag
}

/// `i` is the position of the first characteristic in `chars` whose UUID is
/// `uuid`.
pub open spec fn first_match_at(chars: Seq<Characteristic>, uuid: Uuid, i: int) -> bool {
    &&& 0 <= i < chars.len()
    &&& chars[i].uuid == uuid
    &&& forall|j: int| 0 <= j < i ==> chars[j].uuid != uuid
}

/// No characteristic in `chars` has UUID `uuid`.
pub open spec fn no_match(chars: Seq<Characteristic>, uuid: Uuid) -> bool {
    forall|i: int| 0 <= i < chars.len() ==> chars[i].uuid != uuid
}

/// The shared lookup of the characteristic operations: the position of the
/// first characteristic with the requested UUID, or `None` if the resolved
/// service tree has no such characteristic.
pub fn find_characteristic(chars: &Vec<Characteristic>, uuid: Uuid) -> (r: Option<usize>)
    ensures
        match r {
            Some(i) => first_match_at(chars@, uuid, i as int),
            None => no_match(chars@, uuid),
        },
{
    let mut i: usize = 0;
    while i < chars.len()
        invariant
            i <= chars@.len(),
            forall|j: int| 0 <= j < i ==> chars@[j].uuid != uuid,
        decreases chars@.len() - i,
    {
        if chars[i].uuid == uuid {
            return Some(i);
        }
        i = i + 1;
    }
    None
}

} // verus!

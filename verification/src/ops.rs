//! The characteristic operations: capability-checked read, write and
//! subscribe, and the per-caller demultiplexing of the notification stream.

use vstd::prelude::*;

use crate::errors::Error;
use crate::gatt::{
    Characteristic, Uuid, find_characteristic, first_match_at, has_flag, no_match, spec_has_flag,
    PROP_NOTIFY, PROP_READ, PROP_WRITE,
};

verus! {

/// Authorizes a read: locates the characteristic with the requested UUID in
/// the connected peripheral's resolved characteristic list and verifies it
/// advertises the READ flag. Returns the position of the characteristic the
/// single read is to be performed against; on any error, no platform call is
/// to be made.
pub fn check_read(chars: &Vec<Characteristic>, uuid: Uuid) -> (r: Result<usize, Error>)
    ensures
        match r {
            Ok(i) => {
                &&& first_match_at(chars@, uuid, i as int)
                &&& spec_has_flag(chars@[i as int].properties, PROP_READ)
            },
            Err(e) => {
                ||| (e == Error::CharacteristicNotFound && no_match(chars@, uuid))
                ||| (e == Error::CharacteristicDoesNotSupportRead && exists|i: int|
                    first_match_at(chars@, uuid, i) && !spec_has_flag(
                        chars@[i].properties,
                        PROP_READ,
                    ))
            },
        },
{
    match find_characteristic(chars, uuid) {
        None => Err(Error::CharacteristicNotFound),
        Some(i) => {
            if has_flag(chars[i].properties, PROP_READ) {
                Ok(i)
            } else {
                proof {
                    assert(first_match_at(chars@, uuid, i as int) && !spec_has_flag(
                        chars@[i as int].properties,
                        PROP_READ,
                    ));
                }
                Err(Error::CharacteristicDoesNotSupportRead)
            }
        },
    }
}

/// Authorizes a subscription: locates the characteristic and verifies it
/// advertises the NOTIFY flag. Returns the position of the characteristic
/// the subscribe request is to be issued against; on any error, no platform
/// call is to be made.
pub fn check_subscribe(chars: &Vec<Characteristic>, uuid: Uuid) -> (r: Result<usize, Error>)
    ensures
        match r {
            Ok(i) => {
                &&& first_match_at(chars@, uuid, i as int)
                &&& spec_has_flag(chars@[i as int].properties, PROP_NOTIFY)
            },
            Err(e) => {
                ||| (e == Error::CharacteristicNotFound && no_match(chars@, uuid))
                ||| (e == Error::CharacteristicDoesNotSupportNotify && exists|i: int|
                    first_match_at(chars@, uuid, i) && !spec_has_flag(
                        chars@[i].properties,
                        PROP_NOTIFY,
                    ))
            },
        },
{
    match find_characteristic(chars, uuid) {
        None => Err(Error::CharacteristicNotFound),
        Some(i) => {
            if has_flag(chars[i].properties, PROP_NOTIFY) {
                Ok(i)
            } else {
                proof {
                    assert(first_match_at(chars@, uuid, i as int) && !spec_has_flag(
                        chars@[i as int].properties,
                        PROP_NOTIFY,
                    ));
                }
                Err(Error::CharacteristicDoesNotSupportNotify)
            }
        },
    }
}

/// The acknowledgement mode of a write.
#[derive(Clone, Copy, Debug, PartialEq, Eq, Structural)]
pub enum WriteKind {
    /// The peripheral is expected to confirm the write.
    WithResponse,
    /// A command: no acknowledgement is awaited beyond the local transport
    /// accepting the write.
    WithoutResponse,
}

/// Everything the transport needs to perform an authorized write: which
/// characteristic of the resolved list, the exact bytes, and the mode.
#[derive(Clone, Debug, PartialEq, Eq)]
pub struct WriteCommand {
    pub characteristic_index: usize,
    pub payload: Vec<u8>,
    pub write_type: WriteKind,
}

/// Authorizes a write: locates the characteristic with the requested UUID
/// and verifies it advertises the WRITE flag. On success the returned
/// command carries the payload to the transport byte for byte, unmodified,
/// always in the without-response mode; on any error, no platform call is to
/// be made.
pub fn prepare_write(chars: &Vec<Characteristic>, uuid: Uuid, data: &[u8]) -> (r: Result<
    WriteCommand,
    Error,
>)
    ensures
        match r {
            Ok(cmd) => {
                &&& first_match_at(chars@, uuid, cmd.characteristic_index as int)
                &&& spec_has_flag(chars@[cmd.characteristic_index as int].properties, PROP_WRITE)
                &&& cmd.payload@ == data@
                &&& cmd.write_type == WriteKind::WithoutResponse
            },
            Err(e) => {
                ||| (e == Error::CharacteristicNotFound && no_match(chars@, uuid))
                ||| (e == Error::CharacteristicDoesNotSupportWrite && exists|i: int|
                    first_match_at(chars@, uuid, i) && !spec_has_flag(
                        chars@[i].properties,
                        PROP_WRITE,
                    ))
            },
        },
{
    match find_characteristic(chars, uuid) {
        None => Err(Error::CharacteristicNotFound),
        Some(i) => {
            if has_flag(chars[i].properties, PROP_WRITE) {
                Ok(
                    WriteCommand {
                        characteristic_index: i,
                        payload: vstd::slice::slice_to_vec(data),
                        write_type: WriteKind::WithoutResponse,
                    },
                )
            } else {
                proof {
                    assert(first_match_at(chars@, uuid, i as int) && !spec_has_flag(
                        chars@[i as int].properties,
                        PROP_WRITE,
                    ));
                }
                Err(Error::CharacteristicDoesNotSupportWrite)
            }
        },
    }
}

/// A characteristic-value push received after a successful subscription: the
/// UUID of the characteristic it came from and the raw byte payload.
#[derive(Clone, Debug, PartialEq, Eq)]
pub struct ValueNotification {
    pub uuid: Uuid,
    pub value: Vec<u8>,
}

/// The notification belongs to the subscribed characteristic.
pub open spec fn spec_notification_matches(n: ValueNotification, uuid: Uuid) -> bool {
    n.uuid == uuid
}

/// The demultiplexing predicate of a subscription: the peripheral-wide
/// notification stream multiplexes every subscribed characteristic, and a
/// caller's stream keeps exactly the notifications carrying the subscribed
/// UUID.
pub fn notification_matches(n: &ValueNotification, uuid: Uuid) -> (r: bool)
    ensures
        r == spec_notification_matches(*n, uuid),
{
    n.uuid.value == uuid.value
}

/// The notifications of `items` that belong to the subscribed UUID, in their
/// original relative order.
pub open spec fn matching_notifications(items: Seq<ValueNotification>, uuid: Uuid) -> Seq<
    ValueNotification,
>
    decreases items.len(),
{
    if items.len() == 0 {
        Seq::empty()
    } else {
        let prefix = matching_notifications(items.drop_last(), uuid);
        if spec_notification_matches(items.last(), uuid) {
            prefix.push(items.last())
        } else {
            prefix
        }
    }
}

/// A subscriber's stream over a finite, simulated stretch of the
/// peripheral-wide notification stream: yields exactly the notifications of
/// the subscribed characteristic, in the order the platform delivered them.
pub fn filter_notifications(items: Vec<ValueNotification>, uuid: Uuid) -> (r: Vec<
    ValueNotification,
>)
    ensures
        r@ == matching_notifications(items@, uuid),
{
    let ghost all = items@;
    let mut rest = items;
    let mut out: Vec<ValueNotification> = Vec::new();
    let ghost mut done: Seq<ValueNotification> = Seq::empty();
    while rest.len() > 0
        invariant
            all == done + rest@,
            out@ == matching_notifications(done, uuid),
        decreases rest@.len(),
    {
        let next = rest.remove(0);
        let ghost taken = next;
        if notification_matches(&next, uuid) {
            out.push(next);
        }
        proof {
            assert(done.push(taken).drop_last() =~= done);
            done = done.push(taken);
            assert(done + rest@ =~= all);
        }
    }
    proof {
        assert(done =~= all);
    }
    out
}

/// Every notification a subscriber's stream yields carries the subscribed
/// UUID: notifications interleaved from any other characteristic are left
/// out.
pub proof fn lemma_matching_only_target(items: Seq<ValueNotification>, uuid: Uuid)
    ensures
        forall|k: int|
            0 <= k < matching_notifications(items, uuid).len() ==> matching_notifications(
                items,
                uuid,
            )[k].uuid == uuid,
    decreases items.len(),
{
    if items.len() > 0 {
        lemma_matching_only_target(items.drop_last(), uuid);
        let m = matching_notifications(items, uuid);
        let p = matching_notifications(items.drop_last(), uuid);
        assert forall|k: int| 0 <= k < m.len() implies m[k].uuid == uuid by {
            if k < p.len() {
                assert(p[k].uuid == uuid);
                assert(m[k] == p[k]);
            } else {
                assert(spec_notification_matches(items.last(), uuid));
                assert(m[k] == items.last());
            }
        }
    }
}

/// The demultiplexer yields in order and item by item: what an interleaved
/// stretch followed by another yields is what the first yields followed by
/// what the second yields.
pub proof fn lemma_matching_append(a: Seq<ValueNotification>, b: Seq<ValueNotification>, uuid: Uuid)
    ensures
        matching_notifications(a + b, uuid) == matching_notifications(a, uuid)
            + matching_notifications(b, uuid),
    decreases b.len(),
{
    if b.len() == 0 {
        assert(a + b =~= a);
        assert(matching_notifications(a, uuid) + matching_notifications(b, uuid)
            =~= matching_notifications(a, uuid));
    } else {
        lemma_matching_append(a, b.drop_last(), uuid);
        assert((a + b).drop_last() =~= a + b.drop_last());
        if spec_notification_matches(b.last(), uuid) {
            assert(matching_notifications(a, uuid) + matching_notifications(
                b.drop_last(),
                uuid,
            ).push(b.last()) =~= (matching_notifications(a, uuid) + matching_notifications(
                b.drop_last(),
                uuid,
            )).push(b.last()));
        }
    }
}

} // verus!

//! The Bluetooth LE characteristics through which the device is reached.
//!
//! A characteristic is known by its UUID, as a number of 128 bits.

use vstd::arithmetic::power;
use vstd::prelude::*;

verus! {

/// The UUID of the characteristic that takes commands.
pub const WRITE_CHARACTERISTIC_UUID: u128 = 0x0000150A_0000_1000_8000_00805f9b34fb;

/// The UUID of the characteristic that gives notifications.
pub const NOTIFY_CHARACTERISTIC_UUID: u128 = 0x0000150B_0000_1000_8000_00805f9b34fb;

/// The UUID of the characteristic that holds the battery charge.
pub const BATTERY_CHARACTERISTIC_UUID: u128 = 0x00001500_0000_1000_8000_00805f9b34fb;

/// The digits of hexadecimal numbers.
pub open spec fn hex_digits() -> Seq<char> {
    seq!['0', '1', '2', '3', '4', '5', '6', '7', '8', '9', 'a', 'b', 'c', 'd', 'e', 'f']
}

/// The hexadecimal digits of a UUID from place `from` up to place `to`, of 32 places in all.
pub open spec fn hex_places(uuid: u128, from: nat, to: nat) -> Seq<char> {
    Seq::new(
        (to - from) as nat,
        |i: int| hex_digits()[(uuid as int / power::pow(16, (31 - from - i) as nat)) % 16],
    )
}

/// A UUID in its usual textual form: five groups of lower case hexadecimal digits, joined by
/// hyphens.
pub open spec fn uuid_text(uuid: u128) -> Seq<char> {
    hex_places(uuid, 0, 8)
        + seq!['-'] + hex_places(uuid, 8, 12)
        + seq!['-'] + hex_places(uuid, 12, 16)
        + seq!['-'] + hex_places(uuid, 16, 20)
        + seq!['-'] + hex_places(uuid, 20, 32)
}

/// The `Display` text of `uuid::Uuid`, of the UUID made by `Uuid::from_u128`: the usual textual
/// form.
#[verifier::external_body]
pub(crate) fn format_uuid(uuid: u128) -> (r: String)
    ensures
        r@ == uuid_text(uuid),
{
    format!("{}", uuid::Uuid::from_u128(uuid))
}

/// The device notifies of changes of this characteristic.
pub open spec fn gives_notifications(uuid: u128) -> bool {
    uuid == BATTERY_CHARACTERISTIC_UUID || uuid == NOTIFY_CHARACTERISTIC_UUID
}

/// `r` is the first place at or after `from` whose characteristic gives notifications, if any.
pub open spec fn is_next_notifying(uuids: Seq<u128>, from: int, r: Option<usize>) -> bool {
    match r {
        Some(i) => {
            &&& from <= i < uuids.len()
            &&& gives_notifications(uuids[i as int])
            &&& forall|j: int| from <= j < i ==> !gives_notifications(#[trigger] uuids[j])
        },
        None => forall|j: int|
            from <= j < uuids.len() ==> !gives_notifications(#[trigger] uuids[j]),
    }
}

/// `r` is the last place of `uuid` among `uuids`, if any.
pub open spec fn is_last_place(uuids: Seq<u128>, uuid: u128, r: Option<usize>) -> bool {
    match r {
        Some(i) => {
            &&& i < uuids.len()
            &&& uuids[i as int] == uuid
            &&& forall|j: int| i < j < uuids.len() ==> #[trigger] uuids[j] != uuid
        },
        None => forall|j: int| 0 <= j < uuids.len() ==> #[trigger] uuids[j] != uuid,
    }
}

/// The first place at or after `from` whose characteristic gives notifications.
pub open spec fn next_notifying(uuids: Seq<u128>, from: int) -> Option<usize> {
    choose|r: Option<usize>| is_next_notifying(uuids, from, r)
}

/// The last place of `uuid` among `uuids`.
pub open spec fn last_place(uuids: Seq<u128>, uuid: u128) -> Option<usize> {
    choose|r: Option<usize>| is_last_place(uuids, uuid, r)
}

/// There is one first place at most.
pub proof fn lemma_next_notifying_is_unique(uuids: Seq<u128>, from: int, r: Option<usize>)
    requires
        is_next_notifying(uuids, from, r),
    ensures
        next_notifying(uuids, from) == r,
{
    let s = next_notifying(uuids, from);
    assert(is_next_notifying(uuids, from, s));
    if let (Some(i), Some(j)) = (r, s) {
        if i < j {
            assert(!gives_notifications(uuids[i as int]));
        } else if j < i {
            assert(!gives_notifications(uuids[j as int]));
        }
    } else if let Some(i) = r {
        assert(!gives_notifications(uuids[i as int]));
    } else if let Some(j) = s {
        assert(!gives_notifications(uuids[j as int]));
    }
}

/// There is one last place at most.
pub proof fn lemma_last_place_is_unique(uuids: Seq<u128>, uuid: u128, r: Option<usize>)
    requires
        is_last_place(uuids, uuid, r),
    ensures
        last_place(uuids, uuid) == r,
{
    let s = last_place(uuids, uuid);
    assert(is_last_place(uuids, uuid, s));
    if let (Some(i), Some(j)) = (r, s) {
        if i < j {
            assert(uuids[j as int] != uuid);
        } else if j < i {
            assert(uuids[i as int] != uuid);
        }
    } else if let Some(i) = r {
        assert(uuids[i as int] != uuid);
    } else if let Some(j) = s {
        assert(uuids[j as int] != uuid);
    }
}

/// Finds the first place at or after `from` whose characteristic gives notifications.
pub fn find_next_notifying(uuids: &Vec<u128>, from: usize) -> (r: Option<usize>)
    ensures
        is_next_notifying(uuids@, from as int, r),
        r == next_notifying(uuids@, from as int),
        r matches Some(i) ==> from <= i < uuids@.len() && (uuids@[i as int]
            == BATTERY_CHARACTERISTIC_UUID || uuids@[i as int] == NOTIFY_CHARACTERISTIC_UUID),
        forall|j: int|
            from <= j < uuids@.len() && (r matches Some(i) ==> j < i) ==> (#[trigger] uuids@[j])
                != BATTERY_CHARACTERISTIC_UUID && uuids@[j] != NOTIFY_CHARACTERISTIC_UUID,
{
    let mut i: usize = from;
    while i < uuids.len()
        invariant
            from <= i,
            forall|j: int|
                from <= j < i && j < uuids@.len() ==> !gives_notifications(#[trigger] uuids@[j]),
        decreases uuids@.len() - i,
    {
        if uuids[i] == BATTERY_CHARACTERISTIC_UUID || uuids[i] == NOTIFY_CHARACTERISTIC_UUID {
            proof {
                lemma_next_notifying_is_unique(uuids@, from as int, Some(i));
            }
            return Some(i);
        }
        i = i + 1;
    }
    proof {
        lemma_next_notifying_is_unique(uuids@, from as int, None);
    }
    None
}

/// Finds the last place of `uuid` among `uuids`.
pub fn find_last_place(uuids: &Vec<u128>, uuid: u128) -> (r: Option<usize>)
    ensures
        is_last_place(uuids@, uuid, r),
        r == last_place(uuids@, uuid),
        r matches Some(i) ==> i < uuids@.len() && uuids@[i as int] == uuid,
        forall|j: int|
            0 <= j < uuids@.len() && (r matches Some(i) ==> i < j) ==> #[trigger] uuids@[j] != uuid,
{
    let mut i: usize = uuids.len();
    while i > 0
        invariant
            i <= uuids@.len(),
            forall|j: int| i <= j < uuids@.len() ==> #[trigger] uuids@[j] != uuid,
        decreases i,
    {
        i = i - 1;
        if uuids[i] == uuid {
            proof {
                lemma_last_place_is_unique(uuids@, uuid, Some(i));
            }
            return Some(i);
        }
    }
    proof {
        lemma_last_place_is_unique(uuids@, uuid, None);
    }
    None
}

/// The characteristics that give notifications are the battery one (1500) and the notify one
/// (150B), and no other.
pub proof fn law_two_characteristics_notify(uuid: u128)
    ensures
        gives_notifications(uuid) <==> uuid == 0x00001500_0000_1000_8000_00805f9b34fbu128 || uuid
            == 0x0000150B_0000_1000_8000_00805f9b34fbu128,
{
}

/// The next notifying place is a place of the battery (1500) or the notify (150B) characteristic
/// that no other place of them comes before.
pub proof fn law_next_notifying_place(uuids: Seq<u128>, from: int, r: Option<usize>)
    ensures
        is_next_notifying(uuids, from, r) <==> {
            &&& r matches Some(i) ==> from <= i < uuids.len() && (uuids[i as int]
                == 0x00001500_0000_1000_8000_00805f9b34fbu128 || uuids[i as int]
                == 0x0000150B_0000_1000_8000_00805f9b34fbu128)
            &&& forall|j: int|
                from <= j < uuids.len() && (r matches Some(i) ==> j < i) ==> (#[trigger] uuids[j])
                    != 0x00001500_0000_1000_8000_00805f9b34fbu128 && uuids[j]
                    != 0x0000150B_0000_1000_8000_00805f9b34fbu128
        },
{
    if is_next_notifying(uuids, from, r) {
        assert forall|j: int|
            from <= j < uuids.len() && (r matches Some(i) ==> j < i) implies (#[trigger] uuids[j])
            != 0x00001500_0000_1000_8000_00805f9b34fbu128 && uuids[j]
            != 0x0000150B_0000_1000_8000_00805f9b34fbu128 by {
            assert(!gives_notifications(uuids[j]));
        }
    }
}

/// The last place of a UUID is a place of it that no other place of it comes after.
pub proof fn law_last_place(uuids: Seq<u128>, uuid: u128, r: Option<usize>)
    ensures
        is_last_place(uuids, uuid, r) <==> {
            &&& r matches Some(i) ==> i < uuids.len() && uuids[i as int] == uuid
            &&& forall|j: int|
                0 <= j < uuids.len() && (r matches Some(i) ==> i < j) ==> #[trigger] uuids[j] != uuid
        },
{
}

/// The text of a UUID has 36 characters: four hyphens, and as its `k`-th other character the
/// lower case digit of the `k`-th of the 32 hexadecimal places.
pub proof fn law_uuid_text_by_place(uuid: u128, k: int)
    requires
        0 <= k < 32,
    ensures
        ({
            let text = uuid_text(uuid);
            let hyphens = if k < 8 {
                0int
            } else if k < 12 {
                1
            } else if k < 16 {
                2
            } else if k < 20 {
                3
            } else {
                4
            };
            let digit = (uuid as int / power::pow(16, (31 - k) as nat)) % 16;
            &&& text.len() == 36
            &&& text[8] == '-' && text[13] == '-' && text[18] == '-' && text[23] == '-'
            &&& text[k + hyphens] as int == (if digit < 10 {
                '0' as int + digit
            } else {
                'a' as int + (digit - 10)
            })
        }),
{
    let d = (uuid as int / power::pow(16, (31 - k) as nat)) % 16;
    assert(0 <= d < 16);
    assert(hex_digits()[d] as int == (if d < 10 {
        '0' as int + d
    } else {
        'a' as int + (d - 10)
    }));
}

} // verus!

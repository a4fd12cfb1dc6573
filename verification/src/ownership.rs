//! The records of a market of collectibles whose buyers pay with assets from the exchange: a
//! check that its two indexes of ownership agree.

use vstd::prelude::*;

verus! {

/// The name of a collectible.
pub type KittyId = [u8; 16];

/// An account of the market.
pub type OwnerId = u64;

/// One entry of the index by account: an account and the collectibles it owns.
pub struct Owned {
    pub owner: OwnerId,
    pub kitties: Vec<KittyId>,
}

/// Whether `kitties` holds `kitty_id`.
pub open spec fn holds(kitties: Seq<KittyId>, kitty_id: KittyId) -> bool {
    exists|i: int| 0 <= i < kitties.len() && kitties[i] == kitty_id
}

/// Whether the records say in every place that `owner` owns `kitty_id`: the collectible is
/// recorded with that owner, the owner's entries list it, and nobody else's entry does.
pub open spec fn ownership_is_set(
    kitty_owner: Option<OwnerId>,
    kitties_owned: Seq<Owned>,
    owner: OwnerId,
    kitty_id: KittyId,
) -> bool {
    &&& kitty_owner == Some(owner)
    &&& forall|i: int|
        0 <= i < kitties_owned.len() ==> (holds(
            (#[trigger] kitties_owned[i]).kitties@,
            kitty_id,
        ) <==> kitties_owned[i].owner == owner)
}

/// Compares two names byte by byte.
pub fn same_kitty(a: &KittyId, b: &KittyId) -> (same: bool)
    ensures
        same == (*a == *b),
{
    let mut i: usize = 0;
    while i < 16
        invariant
            i <= 16,
            forall|j: int| 0 <= j < i ==> a[j] == b[j],
        decreases 16 - i,
    {
        if a[i] != b[i] {
            return false;
        }
        i = i + 1;
    }
    assert(*a =~= *b);
    true
}

/// Looks for `kitty_id` among `kitties`.
pub fn owns(kitties: &Vec<KittyId>, kitty_id: &KittyId) -> (found: bool)
    ensures
        found == holds(kitties@, *kitty_id),
{
    let mut i: usize = 0;
    while i < kitties.len()
        invariant
            i <= kitties.len(),
            forall|j: int| 0 <= j < i ==> kitties@[j] != *kitty_id,
        decreases kitties.len() - i,
    {
        if same_kitty(&kitties[i], kitty_id) {
            return true;
        }
        i = i + 1;
    }
    false
}

/// Checks that kitty ownership is set correctly in the records: `kitty_owner` is the owner
/// recorded for `kitty_id`, if it is recorded at all, and `kitties_owned` is the index by
/// account.
pub fn assert_ownership(
    kitty_owner: Option<OwnerId>,
    kitties_owned: &Vec<Owned>,
    owner: OwnerId,
    kitty_id: KittyId,
) -> (set: bool)
    ensures
        set == ownership_is_set(kitty_owner, kitties_owned@, owner, kitty_id),
{
    // For a kitty to be owned it should exist, with its owner set correctly.
    match kitty_owner {
        Some(recorded) => {
            if recorded != owner {
                return false;
            }
        },
        None => {
            return false;
        },
    }
    let mut i: usize = 0;
    while i < kitties_owned.len()
        invariant
            i <= kitties_owned.len(),
            forall|j: int|
                0 <= j < i ==> (holds(
                    (#[trigger] kitties_owned@[j]).kitties@,
                    kitty_id,
                ) <==> kitties_owned@[j].owner == owner),
        decreases kitties_owned.len() - i,
    {
        // The owner should have this kitty. Everyone else should not.
        let listed = owns(&kitties_owned[i].kitties, &kitty_id);
        if listed != (kitties_owned[i].owner == owner) {
            return false;
        }
        i = i + 1;
    }
    true
}

} // verus!

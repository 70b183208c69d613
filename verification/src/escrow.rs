use vstd::prelude::*;
use crate::identity::Identity;
use crate::slot::BandwidthSlot;

verus! {

/// The custodial balance of one auction, in lamports. It is funded by a
/// deposit and drained by a withdrawal, and by nothing else.
#[derive(Clone, Copy, Debug, PartialEq, Eq)]
pub struct Escrow {
    pub lamports: u64,
}

impl Escrow {
    /// The escrow of a slot that has just been listed: it holds nothing.
    pub fn empty() -> (escrow: Escrow)
        ensures
            escrow.lamports == 0,
    {
        Escrow { lamports: 0 }
    }

    /// Adds `lamports` to the balance. Returns `false`, and changes
    /// nothing, where the sum does not fit in 64 bits.
    pub fn deposit(&mut self, lamports: u64) -> (done: bool)
        ensures
            done == (old(self).lamports + lamports <= u64::MAX),
            done ==> final(self).lamports == old(self).lamports + lamports,
            !done ==> *final(self) == *old(self),
    {
        match self.lamports.checked_add(lamports) {
            Some(sum) => {
                self.lamports = sum;
                true
            },
            None => false,
        }
    }

    /// Takes `lamports` out of the balance. Returns `false`, and changes
    /// nothing, where the balance is smaller than that.
    pub fn withdraw(&mut self, lamports: u64) -> (done: bool)
        ensures
            done == (lamports <= old(self).lamports),
            done ==> final(self).lamports == old(self).lamports - lamports,
            !done ==> *final(self) == *old(self),
    {
        if lamports <= self.lamports {
            self.lamports = self.lamports - lamports;
            true
        } else {
            false
        }
    }
}

/// The slot record is well formed and the escrow holds exactly what is
/// owed for it.
pub open spec fn in_custody(slot: BandwidthSlot, escrow: Escrow) -> bool {
    slot.wf() && escrow.lamports == slot.owed()
}

/// Tests whether the slot record is well formed and the escrow holds
/// exactly what is owed for it.
pub fn custody_intact(slot: &BandwidthSlot, escrow: &Escrow) -> (r: bool)
    ensures
        r == in_custody(*slot, *escrow),
{
    let owed: u64 = if slot.claimed {
        0
    } else {
        match slot.winning_bid {
            Some(amount) => amount,
            None => 0,
        }
    };
    slot.is_well_formed() && escrow.lamports == owed
}

/// The namespace under which every escrow address is derived: the ASCII
/// bytes of the word "escrow".
pub open spec fn escrow_namespace() -> Seq<u8> {
    seq![101u8, 115u8, 99u8, 114u8, 111u8, 119u8]
}

/// The seeds of a slot's escrow address: the namespace, the slot's own
/// key, and the bump that moves the address off the curve.
pub open spec fn escrow_seed_bytes(slot_key: Identity, bump: u8) -> Seq<Seq<u8>> {
    seq![escrow_namespace(), slot_key@, seq![bump]]
}

/// Builds the seeds that address, and sign for, the escrow of the slot
/// stored under `slot_key`. The address depends on the slot alone, so no
/// caller can point a transfer at another account.
pub fn escrow_seeds(slot_key: &Identity, bump: u8) -> (seeds: Vec<Vec<u8>>)
    ensures
        seeds.deep_view() == escrow_seed_bytes(*slot_key, bump),
        seeds@.len() == 3,
        seeds@[0]@ == escrow_namespace(),
        seeds@[1]@ == slot_key@,
        seeds@[2]@ == seq![bump],
{
    let namespace: Vec<u8> = vec![101u8, 115u8, 99u8, 114u8, 111u8, 119u8];
    let mut key: Vec<u8> = Vec::new();
    let mut i: usize = 0;
    while i < 32
        invariant
            i <= 32,
            key@ == slot_key.bytes@.take(i as int),
        decreases 32 - i,
    {
        key.push(slot_key.bytes[i]);
        proof {
            assert(slot_key.bytes@.take(i + 1) =~= slot_key.bytes@.take(i as int).push(
                slot_key.bytes@[i as int],
            ));
        }
        i += 1;
    }
    proof {
        assert(slot_key.bytes@.take(32) =~= slot_key.bytes@);
    }
    let bump_seed: Vec<u8> = vec![bump];
    let mut seeds: Vec<Vec<u8>> = Vec::new();
    seeds.push(namespace);
    seeds.push(key);
    seeds.push(bump_seed);
    proof {
        assert(seeds.deep_view() =~~= escrow_seed_bytes(*slot_key, bump));
    }
    seeds
}

} // verus!

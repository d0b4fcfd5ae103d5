//! Globally unique identifiers of participants and endpoints, and the numbers
//! under which they are kept in the caches.

use vstd::prelude::*;

use crate::cache::CacheKey;

verus! {

/// The part of a [`GUID`] that all endpoints of one participant share.
#[derive(Clone, Copy, PartialEq, Eq, PartialOrd, Ord, Hash, Debug)]
pub struct GuidPrefix {
    pub bytes: [u8; 12],
}

/// The part of a [`GUID`] that tells the endpoints of one participant apart.
#[derive(Clone, Copy, PartialEq, Eq, PartialOrd, Ord, Hash, Debug)]
pub struct EntityId {
    pub entity_key: [u8; 3],
    pub entity_kind: u8,
}

/// A globally unique identifier of a participant or an endpoint.
#[derive(Clone, Copy, PartialEq, Eq, PartialOrd, Ord, Hash, Debug)]
pub struct GUID {
    pub prefix: GuidPrefix,
    pub entity_id: EntityId,
}

/// The number that the octets spell in base 256, most significant octet first.
pub open spec fn big_endian(octets: Seq<u8>) -> nat
    decreases octets.len(),
{
    if octets.len() == 0 {
        0
    } else {
        256 * big_endian(octets.drop_last()) + octets.last() as nat
    }
}

/// 256 to the power of `n`.
pub open spec fn pow256(n: nat) -> nat
    decreases n,
{
    if n == 0 {
        1
    } else {
        256 * pow256((n - 1) as nat)
    }
}

proof fn lemma_big_endian_bound(octets: Seq<u8>)
    ensures
        big_endian(octets) < pow256(octets.len()),
    decreases octets.len(),
{
    if octets.len() > 0 {
        lemma_big_endian_bound(octets.drop_last());
    }
}

proof fn lemma_big_endian_injective(a: Seq<u8>, b: Seq<u8>)
    requires
        a.len() == b.len(),
        big_endian(a) == big_endian(b),
    ensures
        a == b,
    decreases a.len(),
{
    if a.len() > 0 {
        assert(a.last() == b.last());
        lemma_big_endian_injective(a.drop_last(), b.drop_last());
        assert(a =~= a.drop_last().push(a.last()));
        assert(b =~= b.drop_last().push(b.last()));
    } else {
        assert(a =~= b);
    }
}

proof fn lemma_pow256_monotonic(m: nat, n: nat)
    requires
        m <= n,
    ensures
        pow256(m) <= pow256(n),
    decreases n,
{
    if m < n {
        lemma_pow256_monotonic(m, (n - 1) as nat);
    }
}

/// The number that up to twelve octets spell, most significant octet first.
fn pack_octets(octets: &[u8]) -> (packed: u128)
    requires
        octets@.len() <= 12,
    ensures
        packed == big_endian(octets@),
        packed < pow256(octets@.len()),
{
    let mut packed: u128 = 0;
    for i in 0..octets.len()
        invariant
            octets@.len() <= 12,
            packed == big_endian(octets@.take(i as int)),
    {
        proof {
            lemma_big_endian_bound(octets@.take(i as int));
            lemma_pow256_monotonic(i as nat, 11);
            assert(pow256(11) < 0x1_0000_0000_0000_0000_0000_0000) by {
                reveal_with_fuel(pow256, 12);
            }
            assert(octets@.take(i + 1).drop_last() =~= octets@.take(i as int));
            assert(octets@.take(i + 1).last() == octets@[i as int]);
        }
        packed = packed * 256 + octets[i] as u128;
    }
    proof {
        assert(octets@.take(octets@.len() as int) =~= octets@);
        lemma_big_endian_bound(octets@);
    }
    packed
}

impl CacheKey for GuidPrefix {
    closed spec fn code(self) -> u128 {
        big_endian(self.bytes@) as u128
    }

    fn packed(&self) -> (packed: u128) {
        let octets: &[u8] = self.bytes.as_slice();
        pack_octets(octets)
    }

    proof fn lemma_code_injective(a: Self, b: Self) {
        lemma_big_endian_bound(a.bytes@);
        lemma_big_endian_bound(b.bytes@);
        assert(pow256(12) == 0x1_0000_0000_0000_0000_0000_0000) by {
            reveal_with_fuel(pow256, 13);
        }
        lemma_big_endian_injective(a.bytes@, b.bytes@);
        assert(a.bytes =~= b.bytes);
    }
}

impl CacheKey for GUID {
    closed spec fn code(self) -> u128 {
        (big_endian(self.prefix.bytes@) * 0x1_0000_0000 + big_endian(self.entity_id.entity_key@)
            * 256 + self.entity_id.entity_kind) as u128
    }

    fn packed(&self) -> (packed: u128) {
        let prefix_octets: &[u8] = self.prefix.bytes.as_slice();
        let key_octets: &[u8] = self.entity_id.entity_key.as_slice();
        let prefix: u128 = pack_octets(prefix_octets);
        let key: u128 = pack_octets(key_octets);
        proof {
            reveal_with_fuel(pow256, 13);
        }
        prefix * 0x1_0000_0000 + key * 256 + self.entity_id.entity_kind as u128
    }

    proof fn lemma_code_injective(a: Self, b: Self) {
        lemma_big_endian_bound(a.prefix.bytes@);
        lemma_big_endian_bound(b.prefix.bytes@);
        lemma_big_endian_bound(a.entity_id.entity_key@);
        lemma_big_endian_bound(b.entity_id.entity_key@);
        reveal_with_fuel(pow256, 13);
        lemma_big_endian_injective(a.prefix.bytes@, b.prefix.bytes@);
        lemma_big_endian_injective(a.entity_id.entity_key@, b.entity_id.entity_key@);
        assert(a.prefix.bytes =~= b.prefix.bytes);
        assert(a.entity_id.entity_key =~= b.entity_id.entity_key);
    }
}

} // verus!

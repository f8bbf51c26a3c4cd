//! The 4-byte routing-table cell that holds one buffer descriptor.

use vstd::prelude::*;

verus! {

/// The bytes of a descriptor cell: the descriptor's four bytes, least
/// significant first, exactly filling the table's 4-byte value slot.
pub open spec fn descriptor_bytes(d: u32) -> Seq<u8> {
    seq![
        (d % 256) as u8,
        ((d / 256) % 256) as u8,
        ((d / 65536) % 256) as u8,
        ((d / 16777216) % 256) as u8,
    ]
}

/// The all-zero 4-byte key that starts the walk over the routing table's
/// rows: the first core's row is keyed by core identifier zero, and each
/// later row is reached by the table's own key-advance primitive.
pub fn initial_key() -> (k: Vec<u8>)
    ensures
        k@ == seq![0u8, 0u8, 0u8, 0u8],
{
    let mut k: Vec<u8> = Vec::new();
    k.push(0);
    k.push(0);
    k.push(0);
    k.push(0);
    proof {
        assert(k@ =~= seq![0u8, 0u8, 0u8, 0u8]);
    }
    k
}

/// Serialize a buffer descriptor into the cell written to the routing table.
pub fn descriptor_cell(d: u32) -> (r: Vec<u8>)
    ensures
        r@ == descriptor_bytes(d),
{
    let mut r: Vec<u8> = Vec::new();
    r.push((d % 256) as u8);
    r.push(((d / 256) % 256) as u8);
    r.push(((d / 65536) % 256) as u8);
    r.push(((d / 16777216) % 256) as u8);
    proof {
        assert(r@ =~= descriptor_bytes(d));
    }
    r
}

} // verus!

use crate::identity::Identity;
use crate::state::YieldState;
use vstd::bytes::{
    lemma_auto_spec_u16_to_from_le_bytes, spec_u16_from_le_bytes, spec_u16_to_le_bytes,
    u16_from_le_bytes, u16_to_le_bytes,
};
use vstd::prelude::*;
use vstd::slice::slice_subrange;

verus! {

/// The number of bytes in the persisted form of a record: a 32-byte authority,
/// one protocol byte, and a 16-bit rate in little-endian order.
pub const RECORD_BYTES: usize = 35;

/// The persisted form of a record: the authority's bytes, then the protocol
/// selector, then the yield rate in little-endian order.
pub open spec fn spec_encode(s: YieldState) -> Seq<u8> {
    s.authority@ + seq![s.current_protocol] + spec_u16_to_le_bytes(s.current_apy_bps)
}

/// Serializes a record into its persisted form.
pub fn to_bytes(s: &YieldState) -> (r: Vec<u8>)
    ensures
        r@ == spec_encode(*s),
        r@.len() == RECORD_BYTES,
{
    let mut out: Vec<u8> = Vec::new();
    let mut i: usize = 0;
    while i < 32
        invariant
            i <= 32,
            out@.len() == i,
            forall|j: int| 0 <= j < i ==> out@[j] == s.authority@[j],
        decreases 32 - i,
    {
        out.push(s.authority.bytes[i]);
        i += 1;
    }
    out.push(s.current_protocol);
    let rate = u16_to_le_bytes(s.current_apy_bps);
    out.push(rate[0]);
    out.push(rate[1]);
    proof {
        lemma_auto_spec_u16_to_from_le_bytes();
        assert(out@ =~= spec_encode(*s));
    }
    out
}

/// Deserializes a record from its persisted form. Exactly the inputs of the
/// persisted length decode, and they decode to the one record that serializes
/// back to those bytes.
pub fn from_bytes(bytes: &[u8]) -> (r: Option<YieldState>)
    ensures
        bytes@.len() == RECORD_BYTES ==> r is Some && spec_encode(r->Some_0) == bytes@,
        bytes@.len() != RECORD_BYTES ==> r is None,
{
    if bytes.len() != RECORD_BYTES {
        return None;
    }
    let mut authority_bytes: [u8; 32] = [0u8; 32];
    let mut i: usize = 0;
    while i < 32
        invariant
            i <= 32,
            bytes@.len() == 35,
            forall|j: int| 0 <= j < i ==> authority_bytes@[j] == bytes@[j],
        decreases 32 - i,
    {
        authority_bytes[i] = bytes[i];
        i += 1;
    }
    let state = YieldState {
        authority: Identity::new(authority_bytes),
        current_protocol: bytes[32],
        current_apy_bps: u16_from_le_bytes(slice_subrange(bytes, 33, 35)),
    };
    proof {
        lemma_auto_spec_u16_to_from_le_bytes();
        assert(spec_u16_to_le_bytes(state.current_apy_bps) == bytes@.subrange(33, 35));
        assert(spec_encode(state) =~= bytes@);
    }
    Some(state)
}

/// The persisted form is injective: two records with the same encoding are the
/// same record, so decoding an encoding always recovers the original.
pub proof fn lemma_encode_injective(s1: YieldState, s2: YieldState)
    requires
        spec_encode(s1) == spec_encode(s2),
    ensures
        s1 == s2,
{
    lemma_auto_spec_u16_to_from_le_bytes();
    assert forall|j: int| 0 <= j < 32 implies s1.authority@[j] == s2.authority@[j] by {
        assert(spec_encode(s1)[j] == s1.authority@[j]);
        assert(spec_encode(s2)[j] == s2.authority@[j]);
    }
    assert(s1.authority.bytes =~= s2.authority.bytes);
    assert(s1.current_protocol == spec_encode(s1)[32]);
    assert(spec_u16_to_le_bytes(s1.current_apy_bps) =~= spec_u16_to_le_bytes(
        s2.current_apy_bps,
    )) by {
        assert(spec_u16_to_le_bytes(s1.current_apy_bps)[0] == spec_encode(s1)[33]);
        assert(spec_u16_to_le_bytes(s1.current_apy_bps)[1] == spec_encode(s1)[34]);
        assert(spec_u16_to_le_bytes(s2.current_apy_bps)[0] == spec_encode(s2)[33]);
        assert(spec_u16_to_le_bytes(s2.current_apy_bps)[1] == spec_encode(s2)[34]);
    }
    assert(s1.current_apy_bps == spec_u16_from_le_bytes(spec_u16_to_le_bytes(s1.current_apy_bps)));
}

} // verus!

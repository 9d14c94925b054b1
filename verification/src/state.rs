use crate::identity::Identity;
use vstd::prelude::*;

verus! {

/// The sole record kept by the store: the authority fixed at creation, and the
/// two yield fields that only the authority may overwrite.
#[derive(Clone, Copy, Debug)]
pub struct YieldState {
    pub authority: Identity,
    pub current_protocol: u8,
    pub current_apy_bps: u16,
}

/// The one error this logic raises: the caller's identity does not match the
/// record's stored authority.
#[derive(Clone, Copy, Debug, PartialEq, Eq, Structural)]
pub enum YieldPilotError {
    Unauthorized,
}

impl YieldPilotError {
    /// A human-readable description of the error.
    pub fn message(&self) -> (r: &'static str)
        ensures
            r@ == "Unauthorized caller"@,
    {
        "Unauthorized caller"
    }
}

/// The context for creating a record: the slot that will hold it, and the
/// verified identity of the signer, which becomes the record's authority.
pub struct Initialize {
    pub state: YieldState,
    pub authority: Identity,
}

/// The context for overwriting a record's yield fields: the slot holding the
/// record, and the verified identity of the caller.
pub struct UpdateYield {
    pub state: YieldState,
    pub authority: Identity,
}

/// The record that creation writes: the creator is the authority, and both
/// yield fields start at zero.
pub open spec fn initialized_state(authority: Identity) -> YieldState {
    YieldState { authority: authority, current_protocol: 0, current_apy_bps: 0 }
}

/// What one update does to a record: a caller whose identity equals the
/// authority's replaces the two yield fields; any other caller leaves the
/// record exactly as it was.
pub open spec fn apply_update(
    s: YieldState,
    caller: Seq<u8>,
    new_protocol: u8,
    new_apy_bps: u16,
) -> YieldState {
    if caller == s.authority@ {
        YieldState {
            authority: s.authority,
            current_protocol: new_protocol,
            current_apy_bps: new_apy_bps,
        }
    } else {
        s
    }
}

/// Writes a fresh record into the slot: the signer becomes the authority,
/// permanently, and both yield fields start at zero. This logic itself has no
/// error condition; allocation of the slot is the storage layer's concern.
pub fn initialize(ctx: &mut Initialize) -> (r: Result<(), YieldPilotError>)
    ensures
        r is Ok,
        final(ctx).state == initialized_state(old(ctx).authority),
        final(ctx).state.authority@ == old(ctx).authority@,
        final(ctx).state.current_protocol == 0,
        final(ctx).state.current_apy_bps == 0,
        final(ctx).authority == old(ctx).authority,
{
    ctx.state = YieldState { authority: ctx.authority, current_protocol: 0, current_apy_bps: 0 };
    Ok(())
}

/// Overwrites the record's two yield fields with the supplied values if the
/// caller is the authority; otherwise fails with `Unauthorized` and leaves the
/// record unchanged. Either both fields change or neither does, and the
/// authority never changes.
pub fn update_yield(ctx: &mut UpdateYield, new_protocol: u8, new_apy_bps: u16) -> (r: Result<
    (),
    YieldPilotError,
>)
    ensures
        final(ctx).state == apply_update(
            old(ctx).state,
            old(ctx).authority@,
            new_protocol,
            new_apy_bps,
        ),
        final(ctx).state.authority == old(ctx).state.authority,
        final(ctx).authority == old(ctx).authority,
        r is Ok <==> old(ctx).authority@ == old(ctx).state.authority@,
        old(ctx).authority@ == old(ctx).state.authority@ ==> final(ctx).state.current_protocol
            == new_protocol && final(ctx).state.current_apy_bps == new_apy_bps,
        old(ctx).authority@ != old(ctx).state.authority@ ==> r == Err::<(), YieldPilotError>(
            YieldPilotError::Unauthorized,
        ) && final(ctx).state == old(ctx).state,
{
    if !(ctx.authority == ctx.state.authority) {
        return Err(YieldPilotError::Unauthorized);
    }
    ctx.state.current_protocol = new_protocol;
    ctx.state.current_apy_bps = new_apy_bps;
    Ok(())
}

/// What a whole run of updates does to a record: each request, taken in order,
/// carries the caller's identity bytes and the two new field values.
pub open spec fn apply_updates(s: YieldState, reqs: Seq<(Seq<u8>, u8, u16)>) -> YieldState
    decreases reqs.len(),
{
    if reqs.len() == 0 {
        s
    } else {
        apply_updates(apply_update(s, reqs[0].0, reqs[0].1, reqs[0].2), reqs.drop_first())
    }
}

/// The authority is immutable: no sequence of update calls, by any callers and
/// with any values, changes a record's authority.
pub proof fn lemma_authority_immutable(s: YieldState, reqs: Seq<(Seq<u8>, u8, u16)>)
    ensures
        apply_updates(s, reqs).authority == s.authority,
    decreases reqs.len(),
{
    if reqs.len() != 0 {
        lemma_authority_immutable(
            apply_update(s, reqs[0].0, reqs[0].1, reqs[0].2),
            reqs.drop_first(),
        );
    }
}

/// Repeating an identical update is idempotent: applying the same request
/// twice in a row leaves the record exactly as applying it once does.
pub proof fn lemma_update_idempotent(
    s: YieldState,
    caller: Seq<u8>,
    new_protocol: u8,
    new_apy_bps: u16,
)
    ensures
        apply_update(
            apply_update(s, caller, new_protocol, new_apy_bps),
            caller,
            new_protocol,
            new_apy_bps,
        ) == apply_update(s, caller, new_protocol, new_apy_bps),
{
}

} // verus!

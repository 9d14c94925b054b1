use yield_pilot::identity::Identity;
use yield_pilot::state::{
    initialize, update_yield, Initialize, UpdateYield, YieldPilotError, YieldState,
};

fn ident(name: &str) -> Identity {
    let mut bytes = [0u8; 32];
    for (i, b) in name.as_bytes().iter().enumerate() {
        bytes[i] = *b;
    }
    Identity::new(bytes)
}

fn create(authority: Identity) -> YieldState {
    // The slot starts out holding arbitrary junk; initialize must overwrite all of it.
    let mut ctx = Initialize {
        state: YieldState {
            authority: ident("junk"),
            current_protocol: 0xAB,
            current_apy_bps: 0xCDEF,
        },
        authority,
    };
    let r = initialize(&mut ctx);
    assert!(r.is_ok());
    ctx.state
}

#[test]
fn creation_sets_authority_and_zeroes_fields() {
    let id = Identity::new([0xFF; 32]);
    let state = create(id);
    assert_eq!(state.authority.bytes, [0xFF; 32]);
    assert_eq!(state.current_protocol, 0);
    assert_eq!(state.current_apy_bps, 0);
}

#[test]
fn authorized_update_applies_both_fields() {
    let id = ident("owner");
    let state = create(id);
    let mut ctx = UpdateYield { state, authority: id };
    let r = update_yield(&mut ctx, 255, 65535);
    assert!(r.is_ok());
    assert_eq!(ctx.state.current_protocol, 255);
    assert_eq!(ctx.state.current_apy_bps, 65535);
    assert_eq!(ctx.state.authority.bytes, id.bytes);
}

#[test]
fn unauthorized_update_is_a_no_op() {
    let owner = ident("owner");
    let intruder = ident("intruder");
    let mut state = create(owner);
    let mut ctx = UpdateYield { state, authority: owner };
    assert!(update_yield(&mut ctx, 42, 1234).is_ok());
    state = ctx.state;
    let mut ctx = UpdateYield { state, authority: intruder };
    let r = update_yield(&mut ctx, 99, 9999);
    assert_eq!(r, Err(YieldPilotError::Unauthorized));
    assert_eq!(ctx.state.authority.bytes, owner.bytes);
    assert_eq!(ctx.state.current_protocol, 42);
    assert_eq!(ctx.state.current_apy_bps, 1234);
}

#[test]
fn near_miss_identity_is_rejected() {
    let owner = Identity::new([7u8; 32]);
    let mut close = [7u8; 32];
    close[31] = 8;
    let state = create(owner);
    let mut ctx = UpdateYield { state, authority: Identity::new(close) };
    assert_eq!(update_yield(&mut ctx, 1, 1), Err(YieldPilotError::Unauthorized));
    assert_eq!(ctx.state.current_protocol, 0);
    assert_eq!(ctx.state.current_apy_bps, 0);
}

#[test]
fn authority_survives_any_update_sequence() {
    let owner = ident("owner");
    let other = ident("other");
    let mut state = create(owner);
    let calls: [(Identity, u8, u16); 5] = [
        (owner, 1, 100),
        (other, 2, 200),
        (owner, 3, 300),
        (other, 4, 400),
        (owner, 0, 0),
    ];
    for (caller, p, a) in calls {
        let mut ctx = UpdateYield { state, authority: caller };
        let _ = update_yield(&mut ctx, p, a);
        state = ctx.state;
    }
    assert_eq!(state.authority.bytes, owner.bytes);
    assert_eq!(state.current_protocol, 0);
    assert_eq!(state.current_apy_bps, 0);
}

#[test]
fn repeated_identical_update_is_idempotent() {
    let owner = ident("owner");
    let state = create(owner);
    let mut once = UpdateYield { state, authority: owner };
    assert!(update_yield(&mut once, 5, 777).is_ok());
    let mut twice = UpdateYield { state, authority: owner };
    assert!(update_yield(&mut twice, 5, 777).is_ok());
    assert!(update_yield(&mut twice, 5, 777).is_ok());
    assert_eq!(once.state.authority.bytes, twice.state.authority.bytes);
    assert_eq!(once.state.current_protocol, twice.state.current_protocol);
    assert_eq!(once.state.current_apy_bps, twice.state.current_apy_bps);
}

#[test]
fn scenario_alice_creates_then_updates_then_bob_fails() {
    let alice = ident("alice");
    let bob = ident("bob");

    // Scenario: alice creates the record.
    let state = create(alice);
    assert_eq!(state.authority.bytes, alice.bytes);
    assert_eq!(state.current_protocol, 0);
    assert_eq!(state.current_apy_bps, 0);

    // Scenario: alice moves the record to protocol 3 at 550 bps.
    let mut ctx = UpdateYield { state, authority: alice };
    assert!(update_yield(&mut ctx, 3, 550).is_ok());
    assert_eq!(ctx.state.authority.bytes, alice.bytes);
    assert_eq!(ctx.state.current_protocol, 3);
    assert_eq!(ctx.state.current_apy_bps, 550);

    // Scenario: bob's attempt fails and changes nothing.
    let mut ctx = UpdateYield { state: ctx.state, authority: bob };
    assert_eq!(update_yield(&mut ctx, 7, 100), Err(YieldPilotError::Unauthorized));
    assert_eq!(ctx.state.authority.bytes, alice.bytes);
    assert_eq!(ctx.state.current_protocol, 3);
    assert_eq!(ctx.state.current_apy_bps, 550);
}

#[test]
fn identity_equality_is_byte_equality() {
    let a = Identity::new([3u8; 32]);
    let b = Identity::new([3u8; 32]);
    let mut other = [3u8; 32];
    other[0] = 4;
    let c = Identity::new(other);
    assert!(a == b);
    assert!(a != c);
}

#[test]
fn unauthorized_error_message() {
    assert_eq!(YieldPilotError::Unauthorized.message(), "Unauthorized caller");
}

use vstd::prelude::*;
use crate::address::{claimed_address, claimed_capsule_address, created_view, is_address};
use crate::errors::ErrorCode;
use crate::events::CapsuleClosed;
use crate::identity::Identity;
use crate::state::{record_of, Capsule, CapsuleView};

verus! {

/// What a removal touches: the record stored at `capsule_key`, if one is, and
/// the identity `owner` that signed the call and takes what the slot frees.
#[derive(Clone, Debug, PartialEq, Eq)]
pub struct CloseCapsule {
    pub capsule: Option<Capsule>,
    pub capsule_key: Identity,
    pub owner: Identity,
}

/// The reason, if any, for which the record `capsule` stored at `capsule_key`
/// is not removed when `signer` asks for it and `derived` is the address that
/// the record claims. Only the owner may remove a capsule, and only an
/// unlocked one.
pub open spec fn close_rejection(
    capsule: Option<CapsuleView>,
    capsule_key: Identity,
    signer: Identity,
    derived: Option<Seq<u8>>,
) -> Option<ErrorCode> {
    match capsule {
        None => Some(ErrorCode::AccountNotInitialized),
        Some(capsule) => {
            if derived != Some(capsule_key@) {
                Some(ErrorCode::AddressMismatch)
            } else if capsule.owner != signer {
                Some(ErrorCode::UnauthorizedAccess)
            } else if !capsule.is_unlocked {
                Some(ErrorCode::CannotCloseLockedCapsule)
            } else {
                None
            }
        },
    }
}

/// The notification of a successful removal.
pub open spec fn close_event(capsule_key: Identity, signer: Identity, now: i64) -> CapsuleClosed {
    CapsuleClosed { capsule: capsule_key, closer: signer, timestamp: now }
}

/// How a removal leaves its accounts and what it returns.
pub open spec fn close_post(
    before: CloseCapsule,
    after: CloseCapsule,
    derived: Option<Seq<u8>>,
    now: i64,
    result: Result<CapsuleClosed, ErrorCode>,
) -> bool {
    &&& after.capsule_key == before.capsule_key
    &&& after.owner == before.owner
    &&& match close_rejection(
        record_of(before.capsule),
        before.capsule_key,
        before.owner,
        derived,
    ) {
        None => {
            &&& after.capsule is None
            &&& result == Ok::<CapsuleClosed, ErrorCode>(
                close_event(before.capsule_key, before.owner, now),
            )
        },
        Some(error) => {
            &&& record_of(after.capsule) == record_of(before.capsule)
            &&& result == Err::<CapsuleClosed, ErrorCode>(error)
        },
    }
}

/// Removes the capsule of `ctx` at the time `now`, given the address `derived`
/// that the stored record claims. Nothing changes unless the removal succeeds.
pub fn apply(ctx: &mut CloseCapsule, derived: Option<Identity>, now: i64) -> (r: Result<
    CapsuleClosed,
    ErrorCode,
>)
    ensures
        close_post(*old(ctx), *final(ctx), created_view(derived), now, r),
{
    match &ctx.capsule {
        None => {
            return Err(ErrorCode::AccountNotInitialized);
        },
        Some(capsule) => {
            if !is_address(&derived, &ctx.capsule_key) {
                return Err(ErrorCode::AddressMismatch);
            }
            if !capsule.is_owned_by(&ctx.owner) {
                return Err(ErrorCode::UnauthorizedAccess);
            }
            if !capsule.is_unlocked {
                return Err(ErrorCode::CannotCloseLockedCapsule);
            }
        },
    }
    ctx.capsule = None;
    Ok(CapsuleClosed { capsule: ctx.capsule_key, closer: ctx.owner, timestamp: now })
}

/// Removes the capsule of `ctx` for good at the time `now`: the caller must be
/// its owner and the capsule unlocked. The address supplied is held against the
/// one derived from the record. Nothing changes unless the removal succeeds;
/// after it the slot is empty.
pub fn handler(ctx: &mut CloseCapsule, now: i64) -> (r: Result<CapsuleClosed, ErrorCode>)
    ensures
        close_post(*old(ctx), *final(ctx), claimed_address(record_of(old(ctx).capsule)), now, r),
{
    let derived = claimed_capsule_address(&ctx.capsule);
    apply(ctx, derived, now)
}

} // verus!

use vstd::prelude::*;
use crate::address::{claimed_address, claimed_capsule_address, created_view, is_address};
use crate::errors::ErrorCode;
use crate::events::CapsuleUnlocked;
use crate::identity::Identity;
use crate::state::{record_of, Capsule, CapsuleView};

verus! {

/// What an unlock touches: the record stored at `capsule_key`, if one is, and
/// the identity `owner` that signed the call.
#[derive(Clone, Debug, PartialEq, Eq)]
pub struct UnlockCapsule {
    pub capsule: Option<Capsule>,
    pub capsule_key: Identity,
    pub owner: Identity,
}

/// The capsule after it has been unlocked at the time `now`.
pub open spec fn unlocked(capsule: CapsuleView, now: i64) -> CapsuleView {
    CapsuleView { is_unlocked: true, updated_at: now, ..capsule }
}

/// What an unlock does to the record `capsule` stored at `capsule_key`, when
/// `signer` asks for it at the time `now` and `derived` is the address that the
/// record claims: the new record, or the reason for the refusal. Only the owner
/// may unlock, and only once the unlock date has come. On a capsule that is
/// unlocked already the call succeeds again.
pub open spec fn unlock_outcome(
    capsule: Option<CapsuleView>,
    capsule_key: Identity,
    signer: Identity,
    derived: Option<Seq<u8>>,
    now: i64,
) -> Result<CapsuleView, ErrorCode> {
    match capsule {
        None => Err(ErrorCode::AccountNotInitialized),
        Some(capsule) => {
            if derived != Some(capsule_key@) {
                Err(ErrorCode::AddressMismatch)
            } else if capsule.owner != signer {
                Err(ErrorCode::UnauthorizedAccess)
            } else if now < capsule.unlock_date {
                Err(ErrorCode::CapsuleNotReadyToUnlock)
            } else {
                Ok(unlocked(capsule, now))
            }
        },
    }
}

/// The notification of a successful unlock.
pub open spec fn unlock_event(capsule_key: Identity, signer: Identity, now: i64) -> CapsuleUnlocked {
    CapsuleUnlocked { capsule: capsule_key, unlocker: signer, timestamp: now }
}

/// How an unlock leaves its accounts and what it returns.
pub open spec fn unlock_post(
    before: UnlockCapsule,
    after: UnlockCapsule,
    derived: Option<Seq<u8>>,
    now: i64,
    result: Result<CapsuleUnlocked, ErrorCode>,
) -> bool {
    &&& after.capsule_key == before.capsule_key
    &&& after.owner == before.owner
    &&& match unlock_outcome(
        record_of(before.capsule),
        before.capsule_key,
        before.owner,
        derived,
        now,
    ) {
        Ok(capsule) => {
            &&& record_of(after.capsule) == Some(capsule)
            &&& result == Ok::<CapsuleUnlocked, ErrorCode>(
                unlock_event(before.capsule_key, before.owner, now),
            )
        },
        Err(error) => {
            &&& record_of(after.capsule) == record_of(before.capsule)
            &&& result == Err::<CapsuleUnlocked, ErrorCode>(error)
        },
    }
}

/// Unlocks the capsule of `ctx` at the time `now`, given the address `derived`
/// that the stored record claims. Nothing changes unless the unlock succeeds.
pub fn apply(ctx: &mut UnlockCapsule, derived: Option<Identity>, now: i64) -> (r: Result<
    CapsuleUnlocked,
    ErrorCode,
>)
    ensures
        unlock_post(*old(ctx), *final(ctx), created_view(derived), now, r),
{
    let capsule_key = ctx.capsule_key;
    let owner = ctx.owner;
    match &mut ctx.capsule {
        None => Err(ErrorCode::AccountNotInitialized),
        Some(capsule) => {
            if !is_address(&derived, &capsule_key) {
                return Err(ErrorCode::AddressMismatch);
            }
            if !capsule.is_owned_by(&owner) {
                return Err(ErrorCode::UnauthorizedAccess);
            }
            if !capsule.is_ready_to_unlock(now) {
                return Err(ErrorCode::CapsuleNotReadyToUnlock);
            }
            capsule.is_unlocked = true;
            capsule.updated_at = now;
            Ok(CapsuleUnlocked { capsule: capsule_key, unlocker: owner, timestamp: now })
        },
    }
}

/// Unlocks the capsule of `ctx` at the time `now`: the caller must be its owner
/// and the unlock date must have come. The address supplied is held against the
/// one derived from the record. Nothing changes unless the unlock succeeds.
pub fn handler(ctx: &mut UnlockCapsule, now: i64) -> (r: Result<CapsuleUnlocked, ErrorCode>)
    ensures
        unlock_post(*old(ctx), *final(ctx), claimed_address(record_of(old(ctx).capsule)), now, r),
{
    let derived = claimed_capsule_address(&ctx.capsule);
    apply(ctx, derived, now)
}

} // verus!

use vstd::prelude::*;
use crate::address::{claimed_address, claimed_capsule_address, created_view, is_address};
use crate::errors::ErrorCode;
use crate::events::CapsuleTransferred;
use crate::identity::Identity;
use crate::state::{record_of, Capsule, CapsuleView};

verus! {

/// What a transfer touches: the record stored at `capsule_key`, if one is; the
/// identity `current_owner` that signed the call; and the identity `new_owner`
/// that is to hold the capsule.
#[derive(Clone, Debug, PartialEq, Eq)]
pub struct TransferCapsule {
    pub capsule: Option<Capsule>,
    pub capsule_key: Identity,
    pub current_owner: Identity,
    pub new_owner: Identity,
}

/// The capsule after `signer` has handed it to `new_owner` at the time `now`,
/// having first associated the mint, if one was given.
pub open spec fn transferred(
    capsule: CapsuleView,
    signer: Identity,
    new_owner: Identity,
    mint_address: Option<Identity>,
    now: i64,
) -> CapsuleView {
    match mint_address {
        Some(mint) => capsule.set_mint_info(mint, signer, now).transfer_to(new_owner, now),
        None => capsule.transfer_to(new_owner, now),
    }
}

/// What a transfer does to the record `capsule` stored at `capsule_key`, when
/// `signer` asks to hand it to `new_owner` at the time `now` and `derived` is
/// the address that the record claims: the new record, or the reason for the
/// refusal. Only the owner may transfer, and not to itself.
pub open spec fn transfer_outcome(
    capsule: Option<CapsuleView>,
    capsule_key: Identity,
    signer: Identity,
    new_owner: Identity,
    derived: Option<Seq<u8>>,
    mint_address: Option<Identity>,
    now: i64,
) -> Result<CapsuleView, ErrorCode> {
    match capsule {
        None => Err(ErrorCode::AccountNotInitialized),
        Some(capsule) => {
            if derived != Some(capsule_key@) {
                Err(ErrorCode::AddressMismatch)
            } else if capsule.owner != signer {
                Err(ErrorCode::UnauthorizedAccess)
            } else if new_owner == signer {
                Err(ErrorCode::CannotTransferToSelf)
            } else {
                Ok(transferred(capsule, signer, new_owner, mint_address, now))
            }
        },
    }
}

/// The notification of a successful transfer.
pub open spec fn transfer_event(
    capsule_key: Identity,
    signer: Identity,
    new_owner: Identity,
    mint_address: Option<Identity>,
    now: i64,
) -> CapsuleTransferred {
    CapsuleTransferred {
        capsule: capsule_key,
        from: signer,
        to: new_owner,
        mint: mint_address,
        timestamp: now,
    }
}

/// How a transfer leaves its accounts and what it returns.
pub open spec fn transfer_post(
    before: TransferCapsule,
    after: TransferCapsule,
    derived: Option<Seq<u8>>,
    mint_address: Option<Identity>,
    now: i64,
    result: Result<CapsuleTransferred, ErrorCode>,
) -> bool {
    &&& after.capsule_key == before.capsule_key
    &&& after.current_owner == before.current_owner
    &&& after.new_owner == before.new_owner
    &&& match transfer_outcome(
        record_of(before.capsule),
        before.capsule_key,
        before.current_owner,
        before.new_owner,
        derived,
        mint_address,
        now,
    ) {
        Ok(capsule) => {
            &&& record_of(after.capsule) == Some(capsule)
            &&& result == Ok::<CapsuleTransferred, ErrorCode>(
                transfer_event(
                    before.capsule_key,
                    before.current_owner,
                    before.new_owner,
                    mint_address,
                    now,
                ),
            )
        },
        Err(error) => {
            &&& record_of(after.capsule) == record_of(before.capsule)
            &&& result == Err::<CapsuleTransferred, ErrorCode>(error)
        },
    }
}

/// Transfers the capsule of `ctx` at the time `now`, given the address
/// `derived` that the stored record claims. Nothing changes unless the
/// transfer succeeds.
pub fn apply(
    ctx: &mut TransferCapsule,
    derived: Option<Identity>,
    mint_address: Option<Identity>,
    now: i64,
) -> (r: Result<CapsuleTransferred, ErrorCode>)
    ensures
        transfer_post(*old(ctx), *final(ctx), created_view(derived), mint_address, now, r),
{
    let capsule_key = ctx.capsule_key;
    let current_owner = ctx.current_owner;
    let new_owner = ctx.new_owner;
    match &mut ctx.capsule {
        None => Err(ErrorCode::AccountNotInitialized),
        Some(capsule) => {
            if !is_address(&derived, &capsule_key) {
                return Err(ErrorCode::AddressMismatch);
            }
            if !capsule.can_be_transferred(&current_owner) {
                return Err(ErrorCode::UnauthorizedAccess);
            }
            if new_owner == current_owner {
                return Err(ErrorCode::CannotTransferToSelf);
            }
            if let Some(mint) = mint_address {
                capsule.set_mint_info(mint, current_owner, now);
            }
            capsule.transfer_to(new_owner, now);
            Ok(
                CapsuleTransferred {
                    capsule: capsule_key,
                    from: current_owner,
                    to: new_owner,
                    mint: mint_address,
                    timestamp: now,
                },
            )
        },
    }
}

/// Transfers the capsule of `ctx` to its new owner at the time `now`: the
/// caller must be the current owner, and the new owner another identity. A mint
/// given with the call is associated with the capsule on behalf of the caller,
/// in place of any earlier one. The address supplied is held against the one
/// derived from the record. Nothing changes unless the transfer succeeds.
pub fn handler(ctx: &mut TransferCapsule, mint_address: Option<Identity>, now: i64) -> (r: Result<
    CapsuleTransferred,
    ErrorCode,
>)
    ensures
        transfer_post(
            *old(ctx),
            *final(ctx),
            claimed_address(record_of(old(ctx).capsule)),
            mint_address,
            now,
            r,
        ),
{
    let derived = claimed_capsule_address(&ctx.capsule);
    apply(ctx, derived, mint_address, now)
}

} // verus!

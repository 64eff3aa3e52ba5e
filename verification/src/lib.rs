//! Time capsules on a ledger: records that an author creates, that stay
//! mutable until they are unlocked, that unlock once a date has passed, that
//! can change their owner, and that can be removed once unlocked.
//!
//! [`instructions`] holds the five transitions of a capsule and the
//! initialization of the registry, each as a total function on the accounts it
//! touches; [`ledger`] holds a store that finds every capsule by its address;
//! [`address`] derives the addresses; [`laws`] states what holds of all of them.

use vstd::prelude::*;
use crate::address::claimed_address;
use crate::errors::ErrorCode;
use crate::events::{CapsuleClosed, CapsuleCreated, CapsuleTransferred, CapsuleUnlocked, CapsuleUpdated};
use crate::identity::Identity;
use crate::instructions::close_capsule::{close_post, CloseCapsule};
use crate::instructions::create_capsule::{
    can_count, create_post, next_address, CreateCapsule, CreateRequest,
};
use crate::instructions::initialize_config::{initialize_post, InitializeConfig};
use crate::instructions::transfer_capsule::{transfer_post, TransferCapsule};
use crate::instructions::unlock_capsule::{unlock_post, UnlockCapsule};
use crate::instructions::update_capsule::{update_post, UpdateCapsule, UpdateRequest};
use crate::state::{record_of, text_of};

pub mod address;
pub mod errors;
pub mod events;
pub mod identity;
pub mod instructions;
pub mod laws;
pub mod ledger;
pub mod state;

verus! {

/// The bytes of the identity under which the program is deployed.
pub open spec fn spec_id() -> Seq<u8> {
    seq![
        105u8, 248, 82, 174, 177, 26, 241, 172,
        36, 142, 212, 233, 36, 165, 244, 211,
        66, 217, 250, 249, 184, 231, 17, 122,
        177, 173, 134, 217, 57, 155, 191, 237,
    ]
}

/// The identity under which the program is deployed; every capsule address is
/// derived under it.
pub fn id() -> (r: Identity)
    ensures
        r@ == spec_id(),
{
    let r = Identity {
        bytes: [
            105u8, 248, 82, 174, 177, 26, 241, 172,
            36, 142, 212, 233, 36, 165, 244, 211,
            66, 217, 250, 249, 184, 231, 17, 122,
            177, 173, 134, 217, 57, 155, 191, 237,
        ],
    };
    assert(r@ =~= spec_id());
    r
}

/// Whether `id` is the identity under which the program is deployed.
pub fn check_id(id: &Identity) -> (r: bool)
    ensures
        r == (id@ == spec_id()),
{
    let own = self::id();
    proof {
        crate::identity::lemma_identity_by_bytes(*id, own);
    }
    *id == own
}

/// Initializes the registry; see [`instructions::initialize_config::handler`].
pub fn initialize_config(ctx: &mut InitializeConfig) -> (r: Result<(), ErrorCode>)
    ensures
        initialize_post(*old(ctx), *final(ctx), r),
{
    instructions::initialize_config::handler(ctx)
}

/// Creates a capsule; see [`instructions::create_capsule::handler`].
pub fn create_capsule(
    ctx: &mut CreateCapsule,
    title: String,
    content: String,
    unlock_date: i64,
    encrypted_url: Option<String>,
    now: i64,
) -> (r: Result<CapsuleCreated, ErrorCode>)
    requires
        can_count(*old(ctx)),
    ensures
        create_post(
            *old(ctx),
            *final(ctx),
            next_address(old(ctx).config, old(ctx).creator),
            (CreateRequest {
                title: title@,
                content: content@,
                unlock_date,
                encrypted_url: text_of(encrypted_url),
            }),
            now,
            r,
        ),
        r is Ok ==> claimed_address(record_of(final(ctx).capsule)) == Some(final(ctx).capsule_key@),
{
    instructions::create_capsule::handler(ctx, title, content, unlock_date, encrypted_url, now)
}

/// Updates a locked capsule; see [`instructions::update_capsule::handler`].
pub fn update_capsule(
    ctx: &mut UpdateCapsule,
    new_content: Option<String>,
    new_unlock_date: Option<i64>,
    new_encrypted_url: Option<String>,
    remove_encrypted_url: bool,
    now: i64,
) -> (r: Result<CapsuleUpdated, ErrorCode>)
    ensures
        update_post(
            *old(ctx),
            *final(ctx),
            claimed_address(record_of(old(ctx).capsule)),
            (UpdateRequest {
                new_content: text_of(new_content),
                new_unlock_date,
                new_encrypted_url: text_of(new_encrypted_url),
                remove_encrypted_url,
            }),
            now,
            r,
        ),
{
    instructions::update_capsule::handler(
        ctx,
        new_content,
        new_unlock_date,
        new_encrypted_url,
        remove_encrypted_url,
        now,
    )
}

/// Unlocks a capsule; see [`instructions::unlock_capsule::handler`].
pub fn unlock_capsule(ctx: &mut UnlockCapsule, now: i64) -> (r: Result<CapsuleUnlocked, ErrorCode>)
    ensures
        unlock_post(*old(ctx), *final(ctx), claimed_address(record_of(old(ctx).capsule)), now, r),
{
    instructions::unlock_capsule::handler(ctx, now)
}

/// Removes an unlocked capsule; see [`instructions::close_capsule::handler`].
pub fn close_capsule(ctx: &mut CloseCapsule, now: i64) -> (r: Result<CapsuleClosed, ErrorCode>)
    ensures
        close_post(*old(ctx), *final(ctx), claimed_address(record_of(old(ctx).capsule)), now, r),
{
    instructions::close_capsule::handler(ctx, now)
}

/// Transfers a capsule to a new owner; see
/// [`instructions::transfer_capsule::handler`].
pub fn transfer_capsule(ctx: &mut TransferCapsule, mint_address: Option<Identity>, now: i64) -> (r:
    Result<CapsuleTransferred, ErrorCode>)
    ensures
        transfer_post(
            *old(ctx),
            *final(ctx),
            claimed_address(record_of(old(ctx).capsule)),
            mint_address,
            now,
            r,
        ),
{
    instructions::transfer_capsule::handler(ctx, mint_address, now)
}

} // verus!

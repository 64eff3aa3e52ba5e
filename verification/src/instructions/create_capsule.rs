use vstd::prelude::*;
use crate::address::{
    claimed_address, find_capsule_address, found_view, spec_find_capsule_address,
};
use crate::errors::ErrorCode;
use crate::events::{CapsuleCreated, CapsuleCreatedView};
use crate::identity::{lemma_identity_by_bytes, Identity};
use crate::state::{
    byte_len, record_of, text_len, text_of, Capsule, CapsuleView, Config, MAX_CONTENT_LENGTH,
    MAX_TITLE_LENGTH, MAX_URL_LENGTH,
};

verus! {

/// What a creation touches: the registry, if it has been initialized; the slot
/// at `capsule_key`, in which the new capsule is to be allocated; and the
/// identity `creator` that signed the call.
#[derive(Clone, Debug, PartialEq, Eq)]
pub struct CreateCapsule {
    pub config: Option<Config>,
    pub capsule: Option<Capsule>,
    pub capsule_key: Identity,
    pub creator: Identity,
}

/// What the caller asks the new capsule to hold.
pub struct CreateRequest {
    pub title: Seq<char>,
    pub content: Seq<char>,
    pub unlock_date: i64,
    pub encrypted_url: Option<Seq<char>>,
}

impl CreateRequest {
    /// The first reason, if any, for which the request is refused at the time
    /// `now`.
    pub open spec fn rejection(self, now: i64) -> Option<ErrorCode> {
        if byte_len(self.title) > MAX_TITLE_LENGTH {
            Some(ErrorCode::TitleTooLong)
        } else if byte_len(self.content) > MAX_CONTENT_LENGTH {
            Some(ErrorCode::ContentTooLong)
        } else if self.encrypted_url matches Some(url) && byte_len(url) > MAX_URL_LENGTH {
            Some(ErrorCode::UrlTooLong)
        } else if self.unlock_date <= now {
            Some(ErrorCode::UnlockDateMustBeFuture)
        } else {
            None
        }
    }

    /// The capsule that `creator` gets for the request at the time `now`, with
    /// the sequence number `id` and the bump `bump` of its address.
    pub open spec fn capsule(self, creator: Identity, id: u64, bump: u8, now: i64) -> CapsuleView {
        CapsuleView {
            creator,
            owner: creator,
            id,
            unlock_date: self.unlock_date,
            created_at: now,
            updated_at: now,
            transferred_at: None,
            mint: None,
            mint_creator: None,
            bump,
            is_unlocked: false,
            title: self.title,
            content: self.content,
            encrypted_url: self.encrypted_url,
        }
    }
}

/// The registry after one more capsule has been created.
pub open spec fn counted(config: Config) -> Config
    recommends
        config.total_capsules < u64::MAX,
{
    Config { total_capsules: (config.total_capsules + 1) as u64, ..config }
}

/// What a creation does when `creator` asks for `request` at the time `now`,
/// the slot at `capsule_key` holds `slot`, and `found` is the address and bump
/// derived from the creator and the registry's count: the new capsule, or the
/// reason for the refusal.
pub open spec fn create_outcome(
    config: Option<Config>,
    slot: Option<CapsuleView>,
    capsule_key: Identity,
    creator: Identity,
    found: Option<(Seq<u8>, u8)>,
    request: CreateRequest,
    now: i64,
) -> Result<CapsuleView, ErrorCode> {
    match config {
        None => Err(ErrorCode::AccountNotInitialized),
        Some(config) => match found {
            Some((address, bump)) if address == capsule_key@ => {
                if slot is Some {
                    Err(ErrorCode::AccountAlreadyInUse)
                } else {
                    match request.rejection(now) {
                        Some(error) => Err(error),
                        None => Ok(request.capsule(creator, config.total_capsules, bump, now)),
                    }
                }
            },
            _ => Err(ErrorCode::AddressMismatch),
        },
    }
}

/// The notification of a successful creation.
pub open spec fn create_event(
    capsule_key: Identity,
    creator: Identity,
    request: CreateRequest,
    now: i64,
) -> CapsuleCreatedView {
    CapsuleCreatedView {
        capsule: capsule_key,
        creator,
        title: request.title,
        unlock_date: request.unlock_date,
        timestamp: now,
    }
}

/// The address and bump at which the next capsule of `creator` is allocated
/// under the registry `config`.
pub open spec fn next_address(config: Option<Config>, creator: Identity) -> Option<(Seq<u8>, u8)> {
    match config {
        Some(config) => spec_find_capsule_address(creator, config.total_capsules),
        None => None,
    }
}

/// How a creation leaves its accounts and what it returns.
pub open spec fn create_post(
    before: CreateCapsule,
    after: CreateCapsule,
    found: Option<(Seq<u8>, u8)>,
    request: CreateRequest,
    now: i64,
    result: Result<CapsuleCreated, ErrorCode>,
) -> bool {
    &&& after.capsule_key == before.capsule_key
    &&& after.creator == before.creator
    &&& match create_outcome(
        before.config,
        record_of(before.capsule),
        before.capsule_key,
        before.creator,
        found,
        request,
        now,
    ) {
        Ok(capsule) => {
            &&& record_of(after.capsule) == Some(capsule)
            &&& before.config matches Some(config) && after.config == Some(counted(config))
            &&& result matches Ok(event) && event@ == create_event(
                before.capsule_key,
                before.creator,
                request,
                now,
            )
        },
        Err(error) => {
            &&& record_of(after.capsule) == record_of(before.capsule)
            &&& after.config == before.config
            &&& result matches Err(e) && e == error
        },
    }
}

/// The count of the registry in `ctx` can still grow.
pub open spec fn can_count(ctx: CreateCapsule) -> bool {
    ctx.config matches Some(config) ==> config.total_capsules < u64::MAX
}

/// Creates a capsule in the empty slot of `ctx` at the time `now`, given the
/// address and bump `found` for the creator and the registry's count. The new
/// capsule gets the count as its id, and the count grows by one. Nothing
/// changes unless the creation succeeds.
pub fn apply(
    ctx: &mut CreateCapsule,
    found: Option<(Identity, u8)>,
    title: String,
    content: String,
    unlock_date: i64,
    encrypted_url: Option<String>,
    now: i64,
) -> (r: Result<CapsuleCreated, ErrorCode>)
    requires
        can_count(*old(ctx)),
    ensures
        create_post(
            *old(ctx),
            *final(ctx),
            found_view(found),
            (CreateRequest {
                title: title@,
                content: content@,
                unlock_date,
                encrypted_url: text_of(encrypted_url),
            }),
            now,
            r,
        ),
{
    let id: u64 = match &ctx.config {
        None => {
            return Err(ErrorCode::AccountNotInitialized);
        },
        Some(config) => config.total_capsules,
    };
    let bump: u8 = match found {
        Some((address, bump)) => {
            proof {
                lemma_identity_by_bytes(address, ctx.capsule_key);
            }
            if address != ctx.capsule_key {
                return Err(ErrorCode::AddressMismatch);
            }
            bump
        },
        None => {
            return Err(ErrorCode::AddressMismatch);
        },
    };
    if ctx.capsule.is_some() {
        return Err(ErrorCode::AccountAlreadyInUse);
    }
    if text_len(&title) > MAX_TITLE_LENGTH {
        return Err(ErrorCode::TitleTooLong);
    }
    if text_len(&content) > MAX_CONTENT_LENGTH {
        return Err(ErrorCode::ContentTooLong);
    }
    if let Some(url) = &encrypted_url {
        if text_len(url) > MAX_URL_LENGTH {
            return Err(ErrorCode::UrlTooLong);
        }
    }
    if unlock_date <= now {
        return Err(ErrorCode::UnlockDateMustBeFuture);
    }
    let event = CapsuleCreated {
        capsule: ctx.capsule_key,
        creator: ctx.creator,
        title: title.clone(),
        unlock_date,
        timestamp: now,
    };
    ctx.capsule = Some(
        Capsule {
            creator: ctx.creator,
            owner: ctx.creator,
            id,
            unlock_date,
            created_at: now,
            updated_at: now,
            transferred_at: None,
            mint: None,
            mint_creator: None,
            bump,
            is_unlocked: false,
            title,
            content,
            encrypted_url,
        },
    );
    if let Some(config) = &mut ctx.config {
        config.total_capsules = id + 1;
    }
    Ok(event)
}

/// Creates a capsule for the signer of `ctx` at the time `now`. The address
/// supplied is held against the one derived from the creator and the registry's
/// count. Nothing changes unless the creation succeeds.
pub fn handler(
    ctx: &mut CreateCapsule,
    title: String,
    content: String,
    unlock_date: i64,
    encrypted_url: Option<String>,
    now: i64,
) -> (r: Result<CapsuleCreated, ErrorCode>)
    requires
        can_count(*old(ctx)),
    ensures
        create_post(
            *old(ctx),
            *final(ctx),
            next_address(old(ctx).config, old(ctx).creator),
            (CreateRequest {
                title: title@,
                content: content@,
                unlock_date,
                encrypted_url: text_of(encrypted_url),
            }),
            now,
            r,
        ),
        r is Ok ==> claimed_address(record_of(final(ctx).capsule)) == Some(final(ctx).capsule_key@),
{
    let found = match &ctx.config {
        Some(config) => find_capsule_address(&ctx.creator, config.total_capsules),
        None => None,
    };
    apply(ctx, found, title, content, unlock_date, encrypted_url, now)
}

} // verus!

use vstd::prelude::*;
use crate::address::{claimed_address, claimed_capsule_address, created_view, is_address};
use crate::errors::ErrorCode;
use crate::events::CapsuleUpdated;
use crate::identity::Identity;
use crate::state::{
    byte_len, record_of, text_len, text_of, Capsule, CapsuleView, MAX_CONTENT_LENGTH, MAX_URL_LENGTH,
};

verus! {

/// What an update touches: the record stored at `capsule_key`, if one is, and
/// the identity `owner` that signed the call.
#[derive(Clone, Debug, PartialEq, Eq)]
pub struct UpdateCapsule {
    pub capsule: Option<Capsule>,
    pub capsule_key: Identity,
    pub owner: Identity,
}

/// The changes that one update asks for. Each field is applied on its own, and
/// only where it is present; `remove_encrypted_url` overrules
/// `new_encrypted_url`.
pub struct UpdateRequest {
    pub new_content: Option<Seq<char>>,
    pub new_unlock_date: Option<i64>,
    pub new_encrypted_url: Option<Seq<char>>,
    pub remove_encrypted_url: bool,
}

impl UpdateRequest {
    pub open spec fn content_updated(self) -> bool {
        self.new_content is Some
    }

    pub open spec fn url_updated(self) -> bool {
        self.remove_encrypted_url || self.new_encrypted_url is Some
    }

    /// The first reason, if any, for which the request is refused on a locked
    /// capsule whose unlock date is `unlock_date`.
    pub open spec fn rejection(self, unlock_date: i64) -> Option<ErrorCode> {
        if self.new_content matches Some(content) && byte_len(content) > MAX_CONTENT_LENGTH {
            Some(ErrorCode::ContentTooLong)
        } else if self.new_unlock_date matches Some(date) && date <= unlock_date {
            Some(ErrorCode::InvalidUnlockDateExtension)
        } else if !self.remove_encrypted_url && (self.new_encrypted_url matches Some(url)
            && byte_len(url) > MAX_URL_LENGTH) {
            Some(ErrorCode::UrlTooLong)
        } else {
            None
        }
    }

    /// The capsule after the request has been applied at the time `now`.
    pub open spec fn applied(self, capsule: CapsuleView, now: i64) -> CapsuleView {
        CapsuleView {
            content: match self.new_content {
                Some(content) => content,
                None => capsule.content,
            },
            unlock_date: match self.new_unlock_date {
                Some(date) => date,
                None => capsule.unlock_date,
            },
            encrypted_url: if self.remove_encrypted_url {
                None
            } else if self.new_encrypted_url is Some {
                self.new_encrypted_url
            } else {
                capsule.encrypted_url
            },
            updated_at: now,
            ..capsule
        }
    }
}

/// What an update does to the record `capsule` stored at `capsule_key`, when
/// `signer` asks for `request` at the time `now` and `derived` is the address
/// that the record claims: the new record, or the reason for the refusal.
pub open spec fn update_outcome(
    capsule: Option<CapsuleView>,
    capsule_key: Identity,
    signer: Identity,
    derived: Option<Seq<u8>>,
    request: UpdateRequest,
    now: i64,
) -> Result<CapsuleView, ErrorCode> {
    match capsule {
        None => Err(ErrorCode::AccountNotInitialized),
        Some(capsule) => {
            if derived != Some(capsule_key@) {
                Err(ErrorCode::AddressMismatch)
            } else if capsule.owner != signer {
                Err(ErrorCode::UnauthorizedAccess)
            } else if capsule.is_unlocked {
                Err(ErrorCode::CapsuleAlreadyUnlocked)
            } else {
                match request.rejection(capsule.unlock_date) {
                    Some(error) => Err(error),
                    None => Ok(request.applied(capsule, now)),
                }
            }
        },
    }
}

/// The notification of a successful update.
pub open spec fn update_event(
    capsule_key: Identity,
    signer: Identity,
    request: UpdateRequest,
    now: i64,
) -> CapsuleUpdated {
    CapsuleUpdated {
        capsule: capsule_key,
        updater: signer,
        new_unlock_date: request.new_unlock_date,
        content_updated: request.content_updated(),
        url_updated: request.url_updated(),
        timestamp: now,
    }
}

/// How an update leaves its accounts and what it returns.
pub open spec fn update_post(
    before: UpdateCapsule,
    after: UpdateCapsule,
    derived: Option<Seq<u8>>,
    request: UpdateRequest,
    now: i64,
    result: Result<CapsuleUpdated, ErrorCode>,
) -> bool {
    &&& after.capsule_key == before.capsule_key
    &&& after.owner == before.owner
    &&& match update_outcome(
        record_of(before.capsule),
        before.capsule_key,
        before.owner,
        derived,
        request,
        now,
    ) {
        Ok(capsule) => {
            &&& record_of(after.capsule) == Some(capsule)
            &&& result == Ok::<CapsuleUpdated, ErrorCode>(
                update_event(before.capsule_key, before.owner, request, now),
            )
        },
        Err(error) => {
            &&& record_of(after.capsule) == record_of(before.capsule)
            &&& result == Err::<CapsuleUpdated, ErrorCode>(error)
        },
    }
}

/// Updates the capsule of `ctx` at the time `now`, given the address `derived`
/// that the stored record claims. Nothing changes unless the update succeeds.
pub fn apply(
    ctx: &mut UpdateCapsule,
    derived: Option<Identity>,
    new_content: Option<String>,
    new_unlock_date: Option<i64>,
    new_encrypted_url: Option<String>,
    remove_encrypted_url: bool,
    now: i64,
) -> (r: Result<CapsuleUpdated, ErrorCode>)
    ensures
        update_post(
            *old(ctx),
            *final(ctx),
            created_view(derived),
            (UpdateRequest {
                new_content: text_of(new_content),
                new_unlock_date,
                new_encrypted_url: text_of(new_encrypted_url),
                remove_encrypted_url,
            }),
            now,
            r,
        ),
{
    let capsule_key = ctx.capsule_key;
    let owner = ctx.owner;
    match &mut ctx.capsule {
        None => Err(ErrorCode::AccountNotInitialized),
        Some(capsule) => {
            if !is_address(&derived, &capsule_key) {
                return Err(ErrorCode::AddressMismatch);
            }
            if !capsule.is_owned_by(&owner) {
                return Err(ErrorCode::UnauthorizedAccess);
            }
            if !capsule.can_be_updated() {
                return Err(ErrorCode::CapsuleAlreadyUnlocked);
            }
            if let Some(content) = &new_content {
                if text_len(content) > MAX_CONTENT_LENGTH {
                    return Err(ErrorCode::ContentTooLong);
                }
            }
            if let Some(unlock_date) = new_unlock_date {
                if unlock_date <= capsule.unlock_date {
                    return Err(ErrorCode::InvalidUnlockDateExtension);
                }
            }
            if !remove_encrypted_url {
                if let Some(encrypted_url) = &new_encrypted_url {
                    if text_len(encrypted_url) > MAX_URL_LENGTH {
                        return Err(ErrorCode::UrlTooLong);
                    }
                }
            }
            let mut content_updated = false;
            let mut url_updated = false;
            if let Some(content) = new_content {
                capsule.content = content;
                content_updated = true;
            }
            if let Some(unlock_date) = new_unlock_date {
                capsule.unlock_date = unlock_date;
            }
            if remove_encrypted_url {
                capsule.encrypted_url = None;
                url_updated = true;
            } else if let Some(encrypted_url) = new_encrypted_url {
                capsule.encrypted_url = Some(encrypted_url);
                url_updated = true;
            }
            capsule.updated_at = now;
            Ok(
                CapsuleUpdated {
                    capsule: capsule_key,
                    updater: owner,
                    new_unlock_date,
                    content_updated,
                    url_updated,
                    timestamp: now,
                },
            )
        },
    }
}

/// Updates the capsule of `ctx` at the time `now`: the caller must be its owner
/// and the capsule still locked. The address supplied is held against the one
/// derived from the record. Nothing changes unless the update succeeds.
pub fn handler(
    ctx: &mut UpdateCapsule,
    new_content: Option<String>,
    new_unlock_date: Option<i64>,
    new_encrypted_url: Option<String>,
    remove_encrypted_url: bool,
    now: i64,
) -> (r: Result<CapsuleUpdated, ErrorCode>)
    ensures
        update_post(
            *old(ctx),
            *final(ctx),
            claimed_address(record_of(old(ctx).capsule)),
            (UpdateRequest {
                new_content: text_of(new_content),
                new_unlock_date,
                new_encrypted_url: text_of(new_encrypted_url),
                remove_encrypted_url,
            }),
            now,
            r,
        ),
{
    let derived = claimed_capsule_address(&ctx.capsule);
    apply(ctx, derived, new_content, new_unlock_date, new_encrypted_url, remove_encrypted_url, now)
}

} // verus!

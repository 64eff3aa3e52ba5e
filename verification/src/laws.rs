use vstd::prelude::*;
use crate::address::spec_find_capsule_address;
use crate::errors::ErrorCode;
use crate::identity::Identity;
use crate::events::CapsuleClosed;
use crate::instructions::close_capsule::{close_post, close_rejection, CloseCapsule};
use crate::instructions::create_capsule::{counted, create_outcome, CreateRequest};
use crate::instructions::transfer_capsule::transfer_outcome;
use crate::instructions::unlock_capsule::unlock_outcome;
use crate::instructions::update_capsule::{update_outcome, UpdateRequest};
use crate::state::{
    byte_len, record_of, CapsuleView, Config, MAX_CONTENT_LENGTH, MAX_TITLE_LENGTH, MAX_URL_LENGTH,
};

verus! {

/// One call of the creation: who signed it, the address supplied, what the slot
/// at that address held, what was asked for, and when.
pub struct CreateCall {
    pub creator: Identity,
    pub capsule_key: Identity,
    pub slot: Option<CapsuleView>,
    pub request: CreateRequest,
    pub now: i64,
}

/// What the creation `call` does under the registry `config`.
pub open spec fn call_outcome(config: Config, call: CreateCall) -> Result<CapsuleView, ErrorCode> {
    create_outcome(
        Some(config),
        call.slot,
        call.capsule_key,
        call.creator,
        spec_find_capsule_address(call.creator, config.total_capsules),
        call.request,
        call.now,
    )
}

/// The registry after the creations `calls` have run in order, starting from
/// `config`.
pub open spec fn registry_after(config: Config, calls: Seq<CreateCall>) -> Config
    decreases calls.len(),
{
    if calls.len() == 0 {
        config
    } else {
        let before = registry_after(config, calls.drop_last());
        if call_outcome(before, calls.last()) is Ok {
            counted(before)
        } else {
            before
        }
    }
}

/// The ids of the capsules that the successful ones among `calls` created, in
/// the order of the calls, starting from `config`.
pub open spec fn assigned_ids(config: Config, calls: Seq<CreateCall>) -> Seq<u64>
    decreases calls.len(),
{
    if calls.len() == 0 {
        Seq::empty()
    } else {
        let before = registry_after(config, calls.drop_last());
        let earlier = assigned_ids(config, calls.drop_last());
        match call_outcome(before, calls.last()) {
            Ok(capsule) => earlier.push(capsule.id),
            Err(_) => earlier,
        }
    }
}

/// Creation is monotonic: whoever the creators are and whatever they ask for,
/// the successful creations get the ids `count`, `count + 1`, `count + 2`, ...
/// in the order in which they ran, where `count` is the count of the registry
/// before the first of them, and the count of the registry grows by the number
/// of successful creations. From a fresh registry the ids are 0, 1, 2, ... and
/// the count is the number of capsules ever created. The authority and the
/// version of the registry stay as they were.
pub proof fn lemma_creation_is_monotonic(config: Config, calls: Seq<CreateCall>)
    requires
        config.total_capsules + calls.len() <= u64::MAX,
    ensures
        assigned_ids(config, calls).len() <= calls.len(),
        registry_after(config, calls).total_capsules == config.total_capsules + assigned_ids(
            config,
            calls,
        ).len(),
        registry_after(config, calls).authority == config.authority,
        registry_after(config, calls).version == config.version,
        forall|i: int|
            0 <= i < assigned_ids(config, calls).len() ==> #[trigger] assigned_ids(
                config,
                calls,
            )[i] == config.total_capsules + i,
    decreases calls.len(),
{
    if calls.len() > 0 {
        lemma_creation_is_monotonic(config, calls.drop_last());
    }
}

/// Whether nothing but the unlock date can keep a creation from succeeding: the
/// registry exists, the address supplied is the derived one, the slot is empty
/// and the texts fit their bounds.
pub open spec fn creation_admitted(
    config: Option<Config>,
    slot: Option<CapsuleView>,
    capsule_key: Identity,
    found: Option<(Seq<u8>, u8)>,
    request: CreateRequest,
) -> bool {
    &&& config is Some
    &&& found matches Some((address, _)) && address == capsule_key@
    &&& slot is None
    &&& byte_len(request.title) <= MAX_TITLE_LENGTH
    &&& byte_len(request.content) <= MAX_CONTENT_LENGTH
    &&& (request.encrypted_url matches Some(url) ==> byte_len(url) <= MAX_URL_LENGTH)
}

/// The unlock date lies in the future: no creation succeeds with an unlock date
/// that is not later than the current time, and where nothing else stands in
/// the way the refusal is `UnlockDateMustBeFuture`; with any later date, the
/// second after the current time included, such a creation succeeds, and the
/// capsule it creates is locked, owned by its creator and well-formed.
pub proof fn lemma_unlock_date_lies_in_the_future(
    config: Option<Config>,
    slot: Option<CapsuleView>,
    capsule_key: Identity,
    creator: Identity,
    found: Option<(Seq<u8>, u8)>,
    request: CreateRequest,
    now: i64,
)
    ensures
        request.unlock_date <= now ==> create_outcome(
            config,
            slot,
            capsule_key,
            creator,
            found,
            request,
            now,
        ) is Err,
        creation_admitted(config, slot, capsule_key, found, request) ==> {
            let outcome = create_outcome(config, slot, capsule_key, creator, found, request, now);
            if request.unlock_date <= now {
                outcome == Err::<CapsuleView, ErrorCode>(ErrorCode::UnlockDateMustBeFuture)
            } else {
                &&& outcome matches Ok(capsule)
                &&& capsule.wf()
                &&& !capsule.is_unlocked
                &&& capsule.creator == creator
                &&& capsule.owner == creator
                &&& config matches Some(registry) && capsule.id == registry.total_capsules
            }
        },
{
}

/// One operation on a capsule that exists: an update, an unlock or a transfer,
/// with the identity that signed it, the address derived for the check, and the
/// time.
pub enum CapsuleOp {
    Update { signer: Identity, derived: Option<Seq<u8>>, request: UpdateRequest, now: i64 },
    Unlock { signer: Identity, derived: Option<Seq<u8>>, now: i64 },
    Transfer {
        signer: Identity,
        new_owner: Identity,
        derived: Option<Seq<u8>>,
        mint_address: Option<Identity>,
        now: i64,
    },
}

/// What the operation `op` does to the capsule stored at `capsule_key`.
pub open spec fn op_outcome(capsule: CapsuleView, capsule_key: Identity, op: CapsuleOp) -> Result<
    CapsuleView,
    ErrorCode,
> {
    match op {
        CapsuleOp::Update { signer, derived, request, now } => update_outcome(
            Some(capsule),
            capsule_key,
            signer,
            derived,
            request,
            now,
        ),
        CapsuleOp::Unlock { signer, derived, now } => unlock_outcome(
            Some(capsule),
            capsule_key,
            signer,
            derived,
            now,
        ),
        CapsuleOp::Transfer { signer, new_owner, derived, mint_address, now } => transfer_outcome(
            Some(capsule),
            capsule_key,
            signer,
            new_owner,
            derived,
            mint_address,
            now,
        ),
    }
}

/// The capsule stored at `capsule_key` after the operation `op`: changed where
/// the operation succeeds, and as it was where it is refused.
pub open spec fn after_op(capsule: CapsuleView, capsule_key: Identity, op: CapsuleOp) -> CapsuleView {
    match op_outcome(capsule, capsule_key, op) {
        Ok(changed) => changed,
        Err(_) => capsule,
    }
}

/// The capsule stored at `capsule_key` after the operations `ops` in order.
pub open spec fn after_ops(
    capsule: CapsuleView,
    capsule_key: Identity,
    ops: Seq<CapsuleOp>,
) -> CapsuleView
    decreases ops.len(),
{
    if ops.len() == 0 {
        capsule
    } else {
        after_op(after_ops(capsule, capsule_key, ops.drop_last()), capsule_key, ops.last())
    }
}

/// Whether `later` can come of `earlier` by operations on the capsule: creator,
/// id, bump, title and creation time are the same; the lock does not close
/// again; the unlock date does not move back; and what an unlocked capsule
/// holds as content, unlock date and url is frozen.
pub open spec fn continues(earlier: CapsuleView, later: CapsuleView) -> bool {
    &&& later.creator == earlier.creator
    &&& later.id == earlier.id
    &&& later.bump == earlier.bump
    &&& later.title == earlier.title
    &&& later.created_at == earlier.created_at
    &&& earlier.is_unlocked ==> later.is_unlocked
    &&& later.unlock_date >= earlier.unlock_date
    &&& earlier.is_unlocked ==> {
        &&& later.content == earlier.content
        &&& later.unlock_date == earlier.unlock_date
        &&& later.encrypted_url == earlier.encrypted_url
    }
    &&& earlier.wf() ==> later.wf()
}

/// What every operation keeps: whatever one update, unlock or transfer is
/// asked to do, and by whom, the capsule after it continues the capsule
/// before it. The owner changes by a successful transfer alone, and then from
/// the identity that signed to another.
pub proof fn lemma_op_continues(capsule: CapsuleView, capsule_key: Identity, op: CapsuleOp)
    ensures
        continues(capsule, after_op(capsule, capsule_key, op)),
        after_op(capsule, capsule_key, op).owner != capsule.owner ==> {
            &&& op matches CapsuleOp::Transfer { signer, new_owner, .. }
            &&& signer == capsule.owner
            &&& new_owner == after_op(capsule, capsule_key, op).owner
        },
{
}

/// What every course of operations keeps: the capsule after any updates,
/// unlocks and transfers, successful or refused, continues the capsule before
/// them.
pub proof fn lemma_ops_continue(capsule: CapsuleView, capsule_key: Identity, ops: Seq<CapsuleOp>)
    ensures
        continues(capsule, after_ops(capsule, capsule_key, ops)),
    decreases ops.len(),
{
    if ops.len() > 0 {
        let before = after_ops(capsule, capsule_key, ops.drop_last());
        lemma_ops_continue(capsule, capsule_key, ops.drop_last());
        lemma_op_continues(before, capsule_key, ops.last());
    }
}

/// The lock gates updates: once an unlock has succeeded on a capsule, whatever
/// its state before, and whatever operations follow, no update of it succeeds
/// any more. An update by the owner at the capsule's own address is refused as
/// `CapsuleAlreadyUnlocked`.
pub proof fn lemma_lock_gates_updates(
    capsule: CapsuleView,
    capsule_key: Identity,
    unlocker: Identity,
    unlock_derived: Option<Seq<u8>>,
    unlock_time: i64,
    ops: Seq<CapsuleOp>,
    signer: Identity,
    derived: Option<Seq<u8>>,
    request: UpdateRequest,
    now: i64,
)
    requires
        unlock_outcome(Some(capsule), capsule_key, unlocker, unlock_derived, unlock_time) is Ok,
    ensures
        ({
            let unlocked = unlock_outcome(
                Some(capsule),
                capsule_key,
                unlocker,
                unlock_derived,
                unlock_time,
            )->Ok_0;
            let later = after_ops(unlocked, capsule_key, ops);
            let outcome = update_outcome(Some(later), capsule_key, signer, derived, request, now);
            &&& unlocked.is_unlocked
            &&& later.is_unlocked
            &&& outcome is Err
            &&& derived == Some(capsule_key@) && signer == later.owner ==> outcome == Err::<
                CapsuleView,
                ErrorCode,
            >(ErrorCode::CapsuleAlreadyUnlocked)
        }),
{
    let unlocked = unlock_outcome(
        Some(capsule),
        capsule_key,
        unlocker,
        unlock_derived,
        unlock_time,
    )->Ok_0;
    lemma_ops_continue(unlocked, capsule_key, ops);
}

/// Whether the owner signed and the address supplied is the derived one.
pub open spec fn by_owner_at_address(
    capsule: CapsuleView,
    capsule_key: Identity,
    signer: Identity,
    derived: Option<Seq<u8>>,
) -> bool {
    derived == Some(capsule_key@) && signer == capsule.owner
}

/// The unlock date is extended only: an update by the owner of a locked capsule
/// that asks for the unlock date `date`, with texts that fit, succeeds if and
/// only if `date` is later than the unlock date of the capsule, which then
/// becomes `date`; otherwise it is refused as `InvalidUnlockDateExtension`.
pub proof fn lemma_unlock_date_is_extended_only(
    capsule: CapsuleView,
    capsule_key: Identity,
    signer: Identity,
    derived: Option<Seq<u8>>,
    request: UpdateRequest,
    date: i64,
    now: i64,
)
    requires
        by_owner_at_address(capsule, capsule_key, signer, derived),
        !capsule.is_unlocked,
        request.new_unlock_date == Some(date),
        request.new_content matches Some(content) ==> byte_len(content) <= MAX_CONTENT_LENGTH,
        !request.remove_encrypted_url ==> (request.new_encrypted_url matches Some(url)
            ==> byte_len(url) <= MAX_URL_LENGTH),
    ensures
        ({
            let outcome = update_outcome(Some(capsule), capsule_key, signer, derived, request, now);
            &&& outcome is Ok <==> date > capsule.unlock_date
            &&& outcome matches Ok(changed) ==> changed.unlock_date == date && changed.updated_at
                == now
            &&& outcome is Err ==> outcome == Err::<CapsuleView, ErrorCode>(
                ErrorCode::InvalidUnlockDateExtension,
            )
        }),
{
}

/// Unlocking waits for the unlock date: before it no unlock succeeds, and one by
/// the owner at the capsule's own address is refused as
/// `CapsuleNotReadyToUnlock`; from the unlock date on such an unlock succeeds
/// and leaves the capsule unlocked.
pub proof fn lemma_unlock_waits_for_the_date(
    capsule: CapsuleView,
    capsule_key: Identity,
    signer: Identity,
    derived: Option<Seq<u8>>,
    now: i64,
)
    ensures
        ({
            let outcome = unlock_outcome(Some(capsule), capsule_key, signer, derived, now);
            &&& now < capsule.unlock_date ==> outcome is Err
            &&& by_owner_at_address(capsule, capsule_key, signer, derived) ==> {
                if now < capsule.unlock_date {
                    outcome == Err::<CapsuleView, ErrorCode>(ErrorCode::CapsuleNotReadyToUnlock)
                } else {
                    outcome matches Ok(unlocked) && unlocked.is_unlocked
                }
            }
        }),
{
}

/// Nobody transfers to itself, and nobody but the owner transfers: no transfer
/// to the current owner succeeds, and one that the owner asks for at the
/// capsule's own address is refused as `CannotTransferToSelf`; no transfer
/// succeeds that another identity than the owner signed, and at the capsule's
/// own address it is refused as `UnauthorizedAccess`.
pub proof fn lemma_transfer_is_irreflexive(
    capsule: CapsuleView,
    capsule_key: Identity,
    signer: Identity,
    new_owner: Identity,
    derived: Option<Seq<u8>>,
    mint_address: Option<Identity>,
    now: i64,
)
    ensures
        ({
            let outcome = transfer_outcome(
                Some(capsule),
                capsule_key,
                signer,
                new_owner,
                derived,
                mint_address,
                now,
            );
            &&& new_owner == capsule.owner ==> outcome is Err
            &&& new_owner == capsule.owner && by_owner_at_address(
                capsule,
                capsule_key,
                signer,
                derived,
            ) ==> outcome == Err::<CapsuleView, ErrorCode>(ErrorCode::CannotTransferToSelf)
            &&& signer != capsule.owner ==> outcome is Err
            &&& signer != capsule.owner && derived == Some(capsule_key@) ==> outcome == Err::<
                CapsuleView,
                ErrorCode,
            >(ErrorCode::UnauthorizedAccess)
            &&& outcome matches Ok(changed) ==> changed.owner == new_owner && changed.owner
                != capsule.owner
        }),
{
}

/// A locked capsule is not removed: no removal of a locked capsule succeeds,
/// and one that the owner asks for at the capsule's own address is refused as
/// `CannotCloseLockedCapsule`; the owner's removal of an unlocked capsule at
/// its own address succeeds.
pub proof fn lemma_locked_capsule_is_not_closed(
    capsule: CapsuleView,
    capsule_key: Identity,
    signer: Identity,
    derived: Option<Seq<u8>>,
)
    ensures
        ({
            let rejection = close_rejection(Some(capsule), capsule_key, signer, derived);
            &&& !capsule.is_unlocked ==> rejection is Some
            &&& by_owner_at_address(capsule, capsule_key, signer, derived) ==> rejection == (
            if capsule.is_unlocked {
                None
            } else {
                Some(ErrorCode::CannotCloseLockedCapsule)
            })
        }),
{
}

/// Removal is final: once a removal has succeeded, the slot is empty, and every
/// update, unlock, transfer and removal on it is refused as
/// `AccountNotInitialized`, whoever asks for it and whatever it asks for.
pub proof fn lemma_closed_capsule_is_gone(
    before: CloseCapsule,
    after: CloseCapsule,
    close_derived: Option<Seq<u8>>,
    close_time: i64,
    closed: Result<CapsuleClosed, ErrorCode>,
    signer: Identity,
    new_owner: Identity,
    derived: Option<Seq<u8>>,
    request: UpdateRequest,
    mint_address: Option<Identity>,
    now: i64,
)
    requires
        close_post(before, after, close_derived, close_time, closed),
        closed is Ok,
    ensures
        before.capsule matches Some(capsule) && capsule.is_unlocked && capsule.owner
            == before.owner,
        after.capsule is None,
        update_outcome(
            record_of(after.capsule),
            after.capsule_key,
            signer,
            derived,
            request,
            now,
        ) == Err::<CapsuleView, ErrorCode>(ErrorCode::AccountNotInitialized),
        unlock_outcome(record_of(after.capsule), after.capsule_key, signer, derived, now) == Err::<
            CapsuleView,
            ErrorCode,
        >(ErrorCode::AccountNotInitialized),
        transfer_outcome(
            record_of(after.capsule),
            after.capsule_key,
            signer,
            new_owner,
            derived,
            mint_address,
            now,
        ) == Err::<CapsuleView, ErrorCode>(ErrorCode::AccountNotInitialized),
        close_rejection(record_of(after.capsule), after.capsule_key, signer, derived) == Some(
            ErrorCode::AccountNotInitialized,
        ),
{
}

} // verus!

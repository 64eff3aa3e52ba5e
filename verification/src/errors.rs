use vstd::prelude::*;

verus! {

/// Why an operation on the registry or on a capsule was rejected. Every kind is
/// final: the same call on the same state is rejected again.
#[derive(Clone, Copy, Debug, PartialEq, Eq, Structural)]
pub enum ErrorCode {
    /// The unlock date given at creation is not later than the current time.
    UnlockDateMustBeFuture,
    /// The unlock date of the capsule has not been reached.
    CapsuleNotReadyToUnlock,
    /// The capsule is unlocked, and its content, date and url are frozen.
    CapsuleAlreadyUnlocked,
    /// The title is longer than `MAX_TITLE_LENGTH` bytes.
    TitleTooLong,
    /// The content is longer than `MAX_CONTENT_LENGTH` bytes.
    ContentTooLong,
    /// The new unlock date is not later than the current one.
    InvalidUnlockDateExtension,
    /// The capsule is still locked and cannot be removed.
    CannotCloseLockedCapsule,
    /// The capsule is already associated with a mint.
    CapsuleAlreadyHasMint,
    /// The token account does not belong to the capsule.
    InvalidTokenAccount,
    /// The caller is not the owner of the capsule.
    UnauthorizedAccess,
    /// The url is longer than `MAX_URL_LENGTH` bytes.
    UrlTooLong,
    /// The new owner is the current owner.
    CannotTransferToSelf,
    /// The address supplied is not the one derived from the creator and the id.
    AddressMismatch,
    /// A record already lives at the address at which one was to be allocated.
    AccountAlreadyInUse,
    /// No record lives at the address.
    AccountNotInitialized,
}

} // verus!

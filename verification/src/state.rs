use vstd::prelude::*;
use crate::identity::Identity;

verus! {

/// Longest title of a capsule, in bytes of its UTF-8 encoding.
pub const MAX_TITLE_LENGTH: usize = 100;

/// Longest content of a capsule, in bytes of its UTF-8 encoding.
pub const MAX_CONTENT_LENGTH: usize = 300;

/// Longest url of a capsule, in bytes of its UTF-8 encoding.
pub const MAX_URL_LENGTH: usize = 500;

/// The schema version that a freshly initialized registry carries.
pub const CONFIG_VERSION: u8 = 1;

/// The number of bytes that a text takes in storage: the length of its UTF-8
/// encoding.
pub open spec fn byte_len(text: Seq<char>) -> nat {
    vstd::utf8::encode_utf8(text).len()
}

/// The text of an optional string.
pub open spec fn text_of(s: Option<String>) -> Option<Seq<char>> {
    match s {
        Some(s) => Some(s@),
        None => None,
    }
}

/// The length of `s` in bytes.
pub fn text_len(s: &String) -> (n: usize)
    ensures
        n == byte_len(s@),
{
    s.as_str().as_bytes().len()
}

/// The registry: the administrative authority and the count of capsules ever
/// created, which is also the id of the next capsule.
#[derive(Clone, Copy, Debug, PartialEq, Eq)]
pub struct Config {
    pub authority: Identity,
    pub total_capsules: u64,
    pub version: u8,
    pub reserved: [u8; 31],
}

impl Config {
    /// The bytes of the tag `config`, under which the registry is addressed.
    pub open spec fn spec_seed() -> Seq<u8> {
        seq![0x63u8, 0x6f, 0x6e, 0x66, 0x69, 0x67]
    }

    pub fn seed() -> (r: Vec<u8>)
        ensures
            r@ == Self::spec_seed(),
    {
        let r: Vec<u8> = vec![0x63u8, 0x6f, 0x6e, 0x66, 0x69, 0x67];
        assert(r@ =~= Self::spec_seed());
        r
    }

    /// Whether this is the registry as initialization by `authority` leaves it.
    pub open spec fn is_initial(self, authority: Identity) -> bool {
        &&& self.authority == authority
        &&& self.total_capsules == 0
        &&& self.version == CONFIG_VERSION
        &&& self.reserved@ == Seq::new(31, |i: int| 0u8)
    }
}

/// One time capsule as it is stored.
#[derive(Debug, PartialEq, Eq)]
pub struct Capsule {
    /// The identity that created the capsule; never changes.
    pub creator: Identity,
    /// The current rights-holder; the creator until a transfer.
    pub owner: Identity,
    /// The sequence number assigned at creation; never changes.
    pub id: u64,
    pub unlock_date: i64,
    pub created_at: i64,
    pub updated_at: i64,
    /// When the capsule was last transferred.
    pub transferred_at: Option<i64>,
    /// The mint associated with the capsule, if any.
    pub mint: Option<Identity>,
    /// The identity that associated the mint.
    pub mint_creator: Option<Identity>,
    /// The bump with which the address of the capsule was derived.
    pub bump: u8,
    pub is_unlocked: bool,
    pub title: String,
    pub content: String,
    pub encrypted_url: Option<String>,
}

/// The mathematical value of a [`Capsule`]: its fields, with each text as a
/// sequence of characters.
pub struct CapsuleView {
    pub creator: Identity,
    pub owner: Identity,
    pub id: u64,
    pub unlock_date: i64,
    pub created_at: i64,
    pub updated_at: i64,
    pub transferred_at: Option<i64>,
    pub mint: Option<Identity>,
    pub mint_creator: Option<Identity>,
    pub bump: u8,
    pub is_unlocked: bool,
    pub title: Seq<char>,
    pub content: Seq<char>,
    pub encrypted_url: Option<Seq<char>>,
}

impl View for Capsule {
    type V = CapsuleView;

    open spec fn view(&self) -> CapsuleView {
        CapsuleView {
            creator: self.creator,
            owner: self.owner,
            id: self.id,
            unlock_date: self.unlock_date,
            created_at: self.created_at,
            updated_at: self.updated_at,
            transferred_at: self.transferred_at,
            mint: self.mint,
            mint_creator: self.mint_creator,
            bump: self.bump,
            is_unlocked: self.is_unlocked,
            title: self.title@,
            content: self.content@,
            encrypted_url: text_of(self.encrypted_url),
        }
    }
}

/// The record that a slot holds, as a mathematical value.
pub open spec fn record_of(slot: Option<Capsule>) -> Option<CapsuleView> {
    match slot {
        Some(capsule) => Some(capsule@),
        None => None,
    }
}

impl CapsuleView {
    /// What holds of every capsule that the operations of this library produce:
    /// the texts fit their bounds, the unlock date lies after the creation time,
    /// and a mint is recorded together with the identity that associated it.
    pub open spec fn wf(self) -> bool {
        &&& byte_len(self.title) <= MAX_TITLE_LENGTH
        &&& byte_len(self.content) <= MAX_CONTENT_LENGTH
        &&& (self.encrypted_url matches Some(url) ==> byte_len(url) <= MAX_URL_LENGTH)
        &&& self.unlock_date > self.created_at
        &&& (self.mint is Some <==> self.mint_creator is Some)
    }

    pub open spec fn is_ready_to_unlock(self, current_time: i64) -> bool {
        current_time >= self.unlock_date
    }

    pub open spec fn can_be_updated(self) -> bool {
        !self.is_unlocked
    }

    pub open spec fn is_owned_by(self, identity: Identity) -> bool {
        self.owner == identity
    }

    /// The capsule after its ownership has passed to `new_owner` at `timestamp`.
    pub open spec fn transfer_to(self, new_owner: Identity, timestamp: i64) -> CapsuleView {
        CapsuleView {
            owner: new_owner,
            transferred_at: Some(timestamp),
            updated_at: timestamp,
            ..self
        }
    }

    /// The capsule after `mint_creator` has associated `mint` with it at
    /// `timestamp`.
    pub open spec fn set_mint_info(
        self,
        mint: Identity,
        mint_creator: Identity,
        timestamp: i64,
    ) -> CapsuleView {
        CapsuleView {
            mint: Some(mint),
            mint_creator: Some(mint_creator),
            updated_at: timestamp,
            ..self
        }
    }
}

impl Clone for Capsule {
    fn clone(&self) -> (copy: Capsule)
        ensures
            copy@ == self@,
    {
        Capsule {
            creator: self.creator,
            owner: self.owner,
            id: self.id,
            unlock_date: self.unlock_date,
            created_at: self.created_at,
            updated_at: self.updated_at,
            transferred_at: self.transferred_at,
            mint: self.mint,
            mint_creator: self.mint_creator,
            bump: self.bump,
            is_unlocked: self.is_unlocked,
            title: self.title.clone(),
            content: self.content.clone(),
            encrypted_url: match &self.encrypted_url {
                Some(url) => Some(url.clone()),
                None => None,
            },
        }
    }
}

impl Capsule {
    /// The bytes of the tag `capsule`, the first seed of every capsule address.
    pub open spec fn spec_seed() -> Seq<u8> {
        seq![0x63u8, 0x61, 0x70, 0x73, 0x75, 0x6c, 0x65]
    }

    pub fn seed() -> (r: Vec<u8>)
        ensures
            r@ == Self::spec_seed(),
    {
        let r: Vec<u8> = vec![0x63u8, 0x61, 0x70, 0x73, 0x75, 0x6c, 0x65];
        assert(r@ =~= Self::spec_seed());
        r
    }

    /// Whether the unlock date has been reached at `current_time`.
    pub fn is_ready_to_unlock(&self, current_time: i64) -> (r: bool)
        ensures
            r == self@.is_ready_to_unlock(current_time),
    {
        current_time >= self.unlock_date
    }

    /// Whether content, unlock date and url may still change.
    pub fn can_be_updated(&self) -> (r: bool)
        ensures
            r == self@.can_be_updated(),
    {
        !self.is_unlocked
    }

    /// Whether `caller` may transfer the capsule: only its current owner may.
    pub fn can_be_transferred(&self, caller: &Identity) -> (r: bool)
        ensures
            r == self@.is_owned_by(*caller),
    {
        self.owner == *caller
    }

    /// Whether `identity` is the current owner.
    pub fn is_owned_by(&self, identity: &Identity) -> (r: bool)
        ensures
            r == self@.is_owned_by(*identity),
    {
        self.owner == *identity
    }

    /// Hands the capsule to `new_owner` and records the time of the transfer.
    pub fn transfer_to(&mut self, new_owner: Identity, timestamp: i64)
        ensures
            final(self)@ == old(self)@.transfer_to(new_owner, timestamp),
    {
        self.owner = new_owner;
        self.transferred_at = Some(timestamp);
        self.updated_at = timestamp;
    }

    /// Associates `mint` with the capsule on behalf of `mint_creator`. An earlier
    /// association is overwritten.
    pub fn set_mint_info(&mut self, mint: Identity, mint_creator: Identity, timestamp: i64)
        ensures
            final(self)@ == old(self)@.set_mint_info(mint, mint_creator, timestamp),
    {
        self.mint = Some(mint);
        self.mint_creator = Some(mint_creator);
        self.updated_at = timestamp;
    }
}

} // verus!

use vstd::prelude::*;
use crate::address::{claimed_address, find_capsule_address, found_view};
use crate::errors::ErrorCode;
use crate::events::{CapsuleClosed, CapsuleCreated, CapsuleTransferred, CapsuleUnlocked, CapsuleUpdated};
use crate::identity::Identity;
use crate::instructions::close_capsule::{close_event, close_rejection, CloseCapsule};
use crate::instructions::create_capsule::{
    counted, create_event, create_outcome, next_address, CreateCapsule, CreateRequest,
};
use crate::instructions::initialize_config::InitializeConfig;
use crate::instructions::transfer_capsule::{transfer_event, transfer_outcome, TransferCapsule};
use crate::instructions::unlock_capsule::{unlock_event, unlock_outcome, UnlockCapsule};
use crate::instructions::update_capsule::{
    update_event, update_outcome, UpdateCapsule, UpdateRequest,
};
use crate::state::{record_of, text_of, Capsule, CapsuleView, Config};

verus! {

/// The mathematical value of a [`Ledger`]: the registry, if it has been
/// initialized, and the capsules that exist, each under its address.
#[verifier::ext_equal]
pub struct LedgerView {
    pub config: Option<Config>,
    pub capsules: Map<Identity, CapsuleView>,
}

impl LedgerView {
    /// The record stored at `capsule_key`, if one is.
    pub open spec fn capsule_at(self, capsule_key: Identity) -> Option<CapsuleView> {
        if self.capsules.dom().contains(capsule_key) {
            Some(self.capsules[capsule_key])
        } else {
            None
        }
    }

    /// The ledger with `capsule` stored at `capsule_key`.
    pub open spec fn with_capsule(self, capsule_key: Identity, capsule: CapsuleView) -> LedgerView {
        LedgerView { capsules: self.capsules.insert(capsule_key, capsule), ..self }
    }

    /// The ledger with nothing stored at `capsule_key`.
    pub open spec fn without_capsule(self, capsule_key: Identity) -> LedgerView {
        LedgerView { capsules: self.capsules.remove(capsule_key), ..self }
    }

    /// The ledger after one more capsule has been counted.
    pub open spec fn counted(self) -> LedgerView {
        LedgerView {
            config: match self.config {
                Some(config) => Some(counted(config)),
                None => None,
            },
            ..self
        }
    }

    /// Whether the count of the registry can still grow.
    pub open spec fn can_count(self) -> bool {
        self.config matches Some(config) ==> config.total_capsules < u64::MAX
    }

    /// Whether no capsule has the id `id`.
    pub open spec fn unused(self, id: u64) -> bool {
        forall|capsule_key: Identity| #[trigger]
            self.capsules.dom().contains(capsule_key) ==> self.capsules[capsule_key].id != id
    }

    /// What holds of every ledger: each capsule is well-formed and stored at
    /// the address derived from its creator, its id and its bump; its id lies
    /// below the count of the registry, which exists as soon as a capsule does;
    /// and no two capsules have the same id.
    pub open spec fn valid(self) -> bool {
        &&& forall|capsule_key: Identity| #[trigger]
            self.capsules.dom().contains(capsule_key) ==> {
                &&& self.capsules[capsule_key].wf()
                &&& claimed_address(Some(self.capsules[capsule_key])) == Some(capsule_key@)
                &&& self.config matches Some(config) && self.capsules[capsule_key].id
                    < config.total_capsules
            }
        &&& forall|one: Identity, other: Identity|
            #![trigger self.capsules[one], self.capsules[other]]
            self.capsules.dom().contains(one) && self.capsules.dom().contains(other) && one
                != other ==> self.capsules[one].id != self.capsules[other].id
    }
}

struct Entry {
    key: Identity,
    capsule: Capsule,
}

/// The store of the registry and of all capsules, each found by its address.
pub struct Ledger {
    config: Option<Config>,
    entries: Vec<Entry>,
}

spec fn holds(entries: Seq<Entry>, capsule_key: Identity) -> bool {
    exists|i: int| 0 <= i < entries.len() && (#[trigger] entries[i]).key == capsule_key
}

spec fn place(entries: Seq<Entry>, capsule_key: Identity) -> int {
    choose|i: int| 0 <= i < entries.len() && (#[trigger] entries[i]).key == capsule_key
}

spec fn distinct(entries: Seq<Entry>) -> bool {
    forall|i: int, j: int|
        0 <= i < j < entries.len() ==> (#[trigger] entries[i]).key != (#[trigger] entries[j]).key
}

spec fn capsules_of(entries: Seq<Entry>) -> Map<Identity, CapsuleView> {
    Map::new(
        |capsule_key: Identity| holds(entries, capsule_key),
        |capsule_key: Identity| entries[place(entries, capsule_key)].capsule@,
    )
}

/// Whether the capsule may be stored at `capsule_key` under the registry
/// `config`.
spec fn storable(config: Option<Config>, capsule_key: Identity, capsule: CapsuleView) -> bool {
    &&& claimed_address(Some(capsule)) == Some(capsule_key@)
    &&& capsule.wf()
    &&& config matches Some(config) && capsule.id < config.total_capsules
}

proof fn lemma_entry_found(entries: Seq<Entry>, i: int)
    requires
        distinct(entries),
        0 <= i < entries.len(),
    ensures
        holds(entries, entries[i].key),
        place(entries, entries[i].key) == i,
        capsules_of(entries).dom().contains(entries[i].key),
        capsules_of(entries)[entries[i].key] == entries[i].capsule@,
{
}

proof fn lemma_entry_removed(entries: Seq<Entry>, i: int)
    requires
        distinct(entries),
        0 <= i < entries.len(),
    ensures
        distinct(entries.remove(i)),
        !holds(entries.remove(i), entries[i].key),
        capsules_of(entries.remove(i)) == capsules_of(entries).remove(entries[i].key),
{
    let rest = entries.remove(i);
    let key = entries[i].key;
    assert forall|k: Identity| holds(rest, k) <==> (holds(entries, k) && k != key) by {
        if holds(rest, k) {
            let j = place(rest, k);
            let from = if j < i { j } else { j + 1 };
            assert(entries[from].key == k);
        }
        if holds(entries, k) && k != key {
            let j = place(entries, k);
            let to = if j < i { j } else { j - 1 };
            assert(rest[to].key == k);
        }
    }
    assert forall|k: Identity| holds(rest, k) implies rest[place(rest, k)].capsule@
        == entries[place(entries, k)].capsule@ by {
        let j = place(rest, k);
        let from = if j < i { j } else { j + 1 };
        assert(entries[from].key == k);
        lemma_entry_found(entries, from);
    }
    assert(capsules_of(rest) =~= capsules_of(entries).remove(key));
}

proof fn lemma_entry_added(entries: Seq<Entry>, entry: Entry)
    requires
        distinct(entries),
        !holds(entries, entry.key),
    ensures
        distinct(entries.push(entry)),
        capsules_of(entries.push(entry)) == capsules_of(entries).insert(entry.key, entry.capsule@),
{
    let more = entries.push(entry);
    assert forall|i: int, j: int| 0 <= i < j < more.len() implies (#[trigger] more[i]).key != (
    #[trigger] more[j]).key by {
        if j == entries.len() {
            assert(entries[i].key != entry.key);
        }
    }
    assert forall|k: Identity| holds(more, k) <==> (holds(entries, k) || k == entry.key) by {
        if holds(more, k) {
            let j = place(more, k);
            if j < entries.len() {
                assert(entries[j].key == k);
            }
        }
        if holds(entries, k) {
            let j = place(entries, k);
            assert(more[j].key == k);
        }
        if k == entry.key {
            assert(more[entries.len() as int].key == k);
        }
    }
    assert forall|k: Identity| holds(more, k) implies more[place(more, k)].capsule@ == (if k
        == entry.key {
        entry.capsule@
    } else {
        entries[place(entries, k)].capsule@
    }) by {
        let j = place(more, k);
        if j < entries.len() {
            assert(entries[j].key == k);
            lemma_entry_found(entries, j);
        }
    }
    assert(capsules_of(more) =~= capsules_of(entries).insert(entry.key, entry.capsule@));
}

/// What the store keeps: no address occurs twice, and each capsule may be
/// stored where it is.
spec fn sound(config: Option<Config>, entries: Seq<Entry>) -> bool {
    &&& distinct(entries)
    &&& forall|i: int|
        0 <= i < entries.len() ==> storable(config, (#[trigger] entries[i]).key, entries[i].capsule@)
    &&& forall|i: int, j: int|
        0 <= i < j < entries.len() ==> (#[trigger] entries[i]).capsule.id != (
        #[trigger] entries[j]).capsule.id
}

proof fn lemma_sound_is_valid(config: Option<Config>, entries: Seq<Entry>)
    requires
        sound(config, entries),
    ensures
        (LedgerView { config, capsules: capsules_of(entries) }).valid(),
{
    let ledger = LedgerView { config, capsules: capsules_of(entries) };
    assert forall|capsule_key: Identity| #[trigger]
        ledger.capsules.dom().contains(capsule_key) implies {
        &&& ledger.capsules[capsule_key].wf()
        &&& claimed_address(Some(ledger.capsules[capsule_key])) == Some(capsule_key@)
        &&& ledger.config matches Some(config) && ledger.capsules[capsule_key].id
            < config.total_capsules
    } by {
        let i = place(entries, capsule_key);
        assert(storable(config, entries[i].key, entries[i].capsule@));
    }
    assert forall|one: Identity, other: Identity|
        #![trigger ledger.capsules[one], ledger.capsules[other]]
        ledger.capsules.dom().contains(one) && ledger.capsules.dom().contains(other) && one
            != other implies ledger.capsules[one].id != ledger.capsules[other].id by {
        let i = place(entries, one);
        let j = place(entries, other);
        assert(entries[i].key == one && entries[j].key == other);
        if i < j {
            assert(entries[i].capsule.id != entries[j].capsule.id);
        } else {
            assert(entries[j].capsule.id != entries[i].capsule.id);
        }
    }
}

impl View for Ledger {
    type V = LedgerView;

    closed spec fn view(&self) -> LedgerView {
        LedgerView { config: self.config, capsules: capsules_of(self.entries@) }
    }
}

impl Ledger {
    #[verifier::type_invariant]
    spec fn inv(self) -> bool {
        sound(self.config, self.entries@)
    }

    /// A ledger with no registry and no capsule.
    pub fn new() -> (ledger: Ledger)
        ensures
            ledger@.config is None,
            ledger@.capsules == Map::<Identity, CapsuleView>::empty(),
            ledger@.valid(),
    {
        let ledger = Ledger { config: None, entries: Vec::new() };
        assert(ledger@.capsules =~= Map::<Identity, CapsuleView>::empty());
        ledger
    }

    fn position(&self, capsule_key: &Identity) -> (r: Option<usize>)
        ensures
            match r {
                Some(i) => i < self.entries.len() && self.entries[i as int].key == *capsule_key,
                None => !holds(self.entries@, *capsule_key),
            },
    {
        let mut i: usize = 0;
        while i < self.entries.len()
            invariant
                i <= self.entries.len(),
                forall|j: int| 0 <= j < i ==> (#[trigger] self.entries[j]).key != *capsule_key,
            decreases self.entries.len() - i,
        {
            if self.entries[i].key == *capsule_key {
                return Some(i);
            }
            i += 1;
        }
        None
    }

    /// Takes the record at `capsule_key` out of the store, if one is there.
    fn take(&mut self, capsule_key: &Identity) -> (slot: Option<Capsule>)
        ensures
            record_of(slot) == old(self)@.capsule_at(*capsule_key),
            slot matches Some(capsule) ==> storable(old(self)@.config, *capsule_key, capsule@)
                && final(self)@.unused(capsule.id),
            final(self)@.valid(),
            final(self)@.config == old(self)@.config,
            final(self)@.capsules == old(self)@.capsules.remove(*capsule_key),
            !final(self)@.capsules.dom().contains(*capsule_key),
    {
        proof {
            use_type_invariant(&*self);
        }
        match self.position(capsule_key) {
            Some(i) => {
                proof {
                    lemma_entry_found(self.entries@, i as int);
                    lemma_entry_removed(self.entries@, i as int);
                    let rest = self.entries@.remove(i as int);
                    assert forall|k: Identity| #[trigger]
                        capsules_of(rest).dom().contains(k) implies capsules_of(rest)[k].id
                        != self.entries[i as int].capsule.id by {
                        let j = place(self.entries@, k);
                        lemma_entry_found(self.entries@, j);
                        if j < i {
                            assert(self.entries[j].capsule.id != self.entries[i as int].capsule.id);
                        } else {
                            assert(self.entries[i as int].capsule.id != self.entries[j].capsule.id);
                        }
                    }
                    lemma_sound_is_valid(self.config, rest);
                }
                let mut entries: Vec<Entry> = Vec::new();
                core::mem::swap(&mut self.entries, &mut entries);
                let entry = entries.remove(i);
                core::mem::swap(&mut self.entries, &mut entries);
                Some(entry.capsule)
            },
            None => {
                proof {
                    assert(self@.capsules.remove(*capsule_key) =~= self@.capsules);
                    lemma_sound_is_valid(self.config, self.entries@);
                }
                None
            },
        }
    }

    /// Stores the record of `slot`, if it holds one, at `capsule_key`.
    fn put(&mut self, capsule_key: Identity, slot: Option<Capsule>)
        requires
            !old(self)@.capsules.dom().contains(capsule_key),
            slot matches Some(capsule) ==> storable(old(self)@.config, capsule_key, capsule@)
                && old(self)@.unused(capsule.id),
        ensures
            final(self)@.config == old(self)@.config,
            final(self)@.capsules == match slot {
                Some(capsule) => old(self)@.capsules.insert(capsule_key, capsule@),
                None => old(self)@.capsules,
            },
    {
        proof {
            use_type_invariant(&*self);
        }
        if let Some(capsule) = slot {
            let entry = Entry { key: capsule_key, capsule };
            proof {
                lemma_entry_added(self.entries@, entry);
                assert forall|i: int| 0 <= i < self.entries.len() implies (
                #[trigger] self.entries[i]).capsule.id != entry.capsule.id by {
                    lemma_entry_found(self.entries@, i);
                }
            }
            let mut entries: Vec<Entry> = Vec::new();
            core::mem::swap(&mut self.entries, &mut entries);
            entries.push(entry);
            core::mem::swap(&mut self.entries, &mut entries);
        }
    }

    /// The registry, if it has been initialized.
    pub fn config(&self) -> (r: Option<Config>)
        ensures
            r == self@.config,
            self@.valid(),
    {
        proof {
            use_type_invariant(self);
            lemma_sound_is_valid(self.config, self.entries@);
        }
        self.config
    }

    /// A copy of the capsule stored at `capsule_key`, if one is.
    pub fn capsule(&self, capsule_key: &Identity) -> (r: Option<Capsule>)
        ensures
            record_of(r) == self@.capsule_at(*capsule_key),
            self@.valid(),
    {
        proof {
            use_type_invariant(self);
            lemma_sound_is_valid(self.config, self.entries@);
        }
        match self.position(capsule_key) {
            Some(i) => {
                proof {
                    lemma_entry_found(self.entries@, i as int);
                }
                Some(self.entries[i].capsule.clone())
            },
            None => None,
        }
    }

    /// The address at which the next capsule of `creator` is to be created, and
    /// the bump that belongs to it; none while there is no registry, or where
    /// no address can be derived.
    pub fn next_capsule_address(&self, creator: &Identity) -> (r: Option<(Identity, u8)>)
        ensures
            found_view(r) == next_address(self@.config, *creator),
    {
        match &self.config {
            Some(config) => find_capsule_address(creator, config.total_capsules),
            None => None,
        }
    }

    /// Initializes the registry with `authority` as its authority. This
    /// succeeds once: a ledger that has a registry keeps it, and the call
    /// fails with `AccountAlreadyInUse`.
    pub fn initialize_config(&mut self, authority: Identity) -> (r: Result<(), ErrorCode>)
        ensures
            final(self)@.valid(),
            final(self)@.capsules == old(self)@.capsules,
            match old(self)@.config {
                None => {
                    &&& r is Ok
                    &&& final(self)@.config matches Some(config) && config.is_initial(authority)
                },
                Some(_) => {
                    &&& r == Err::<(), ErrorCode>(ErrorCode::AccountAlreadyInUse)
                    &&& final(self)@ == old(self)@
                },
            },
    {
        proof {
            use_type_invariant(&*self);
        }
        let mut ctx = InitializeConfig { config: self.config, authority };
        let r = crate::instructions::initialize_config::handler(&mut ctx);
        proof {
            if self.config is None && self.entries.len() > 0 {
                assert(storable(self.config, self.entries[0].key, self.entries[0].capsule@));
            }
        }
        self.config = ctx.config;
        proof {
            use_type_invariant(&*self);
            lemma_sound_is_valid(self.config, self.entries@);
        }
        r
    }

    /// Creates a capsule for `creator` at `capsule_key`, which must be the
    /// address derived from the creator and the count of the registry. The
    /// ledger changes only if the creation succeeds.
    pub fn create_capsule(
        &mut self,
        capsule_key: Identity,
        creator: Identity,
        title: String,
        content: String,
        unlock_date: i64,
        encrypted_url: Option<String>,
        now: i64,
    ) -> (r: Result<CapsuleCreated, ErrorCode>)
        requires
            old(self)@.can_count(),
        ensures
            final(self)@.valid(),
            match create_outcome(
                old(self)@.config,
                old(self)@.capsule_at(capsule_key),
                capsule_key,
                creator,
                next_address(old(self)@.config, creator),
                (CreateRequest {
                    title: title@,
                    content: content@,
                    unlock_date,
                    encrypted_url: text_of(encrypted_url),
                }),
                now,
            ) {
                Ok(capsule) => {
                    &&& final(self)@ == old(self)@.counted().with_capsule(capsule_key, capsule)
                    &&& r matches Ok(event) && event@ == create_event(
                        capsule_key,
                        creator,
                        (CreateRequest {
                            title: title@,
                            content: content@,
                            unlock_date,
                            encrypted_url: text_of(encrypted_url),
                        }),
                        now,
                    )
                },
                Err(error) => {
                    &&& final(self)@ == old(self)@
                    &&& r matches Err(e) && e == error
                },
            },
    {
        proof {
            use_type_invariant(&*self);
        }
        let slot = self.take(&capsule_key);
        let mut ctx = CreateCapsule { config: self.config, capsule: slot, capsule_key, creator };
        let r = crate::instructions::create_capsule::handler(
            &mut ctx,
            title,
            content,
            unlock_date,
            encrypted_url,
            now,
        );
        proof {
            use_type_invariant(&*self);
        }
        self.config = ctx.config;
        self.put(capsule_key, ctx.capsule);
        proof {
            use_type_invariant(&*self);
            lemma_sound_is_valid(self.config, self.entries@);
            if r is Err {
                assert(self@.capsules =~= old(self)@.capsules);
            }
        }
        r
    }

    /// Updates the capsule stored at `capsule_key` on behalf of `owner`. The
    /// ledger changes only if the update succeeds.
    pub fn update_capsule(
        &mut self,
        capsule_key: Identity,
        owner: Identity,
        new_content: Option<String>,
        new_unlock_date: Option<i64>,
        new_encrypted_url: Option<String>,
        remove_encrypted_url: bool,
        now: i64,
    ) -> (r: Result<CapsuleUpdated, ErrorCode>)
        ensures
            final(self)@.valid(),
            match update_outcome(
                old(self)@.capsule_at(capsule_key),
                capsule_key,
                owner,
                Some(capsule_key@),
                (UpdateRequest {
                    new_content: text_of(new_content),
                    new_unlock_date,
                    new_encrypted_url: text_of(new_encrypted_url),
                    remove_encrypted_url,
                }),
                now,
            ) {
                Ok(capsule) => {
                    &&& final(self)@ == old(self)@.with_capsule(capsule_key, capsule)
                    &&& r == Ok::<CapsuleUpdated, ErrorCode>(
                        update_event(
                            capsule_key,
                            owner,
                            (UpdateRequest {
                                new_content: text_of(new_content),
                                new_unlock_date,
                                new_encrypted_url: text_of(new_encrypted_url),
                                remove_encrypted_url,
                            }),
                            now,
                        ),
                    )
                },
                Err(error) => {
                    &&& final(self)@ == old(self)@
                    &&& r == Err::<CapsuleUpdated, ErrorCode>(error)
                },
            },
    {
        let slot = self.take(&capsule_key);
        let mut ctx = UpdateCapsule { capsule: slot, capsule_key, owner };
        let r = crate::instructions::update_capsule::handler(
            &mut ctx,
            new_content,
            new_unlock_date,
            new_encrypted_url,
            remove_encrypted_url,
            now,
        );
        self.put(capsule_key, ctx.capsule);
        proof {
            use_type_invariant(&*self);
            lemma_sound_is_valid(self.config, self.entries@);
            if r is Err {
                assert(self@.capsules =~= old(self)@.capsules);
            }
        }
        r
    }

    /// Unlocks the capsule stored at `capsule_key` on behalf of `owner`. The
    /// ledger changes only if the unlock succeeds.
    pub fn unlock_capsule(&mut self, capsule_key: Identity, owner: Identity, now: i64) -> (r: Result<
        CapsuleUnlocked,
        ErrorCode,
    >)
        ensures
            final(self)@.valid(),
            match unlock_outcome(
                old(self)@.capsule_at(capsule_key),
                capsule_key,
                owner,
                Some(capsule_key@),
                now,
            ) {
                Ok(capsule) => {
                    &&& final(self)@ == old(self)@.with_capsule(capsule_key, capsule)
                    &&& r == Ok::<CapsuleUnlocked, ErrorCode>(
                        unlock_event(capsule_key, owner, now),
                    )
                },
                Err(error) => {
                    &&& final(self)@ == old(self)@
                    &&& r == Err::<CapsuleUnlocked, ErrorCode>(error)
                },
            },
    {
        let slot = self.take(&capsule_key);
        let mut ctx = UnlockCapsule { capsule: slot, capsule_key, owner };
        let r = crate::instructions::unlock_capsule::handler(&mut ctx, now);
        self.put(capsule_key, ctx.capsule);
        proof {
            use_type_invariant(&*self);
            lemma_sound_is_valid(self.config, self.entries@);
            if r is Err {
                assert(self@.capsules =~= old(self)@.capsules);
            }
        }
        r
    }

    /// Transfers the capsule stored at `capsule_key` from `current_owner` to
    /// `new_owner`. The ledger changes only if the transfer succeeds.
    pub fn transfer_capsule(
        &mut self,
        capsule_key: Identity,
        current_owner: Identity,
        new_owner: Identity,
        mint_address: Option<Identity>,
        now: i64,
    ) -> (r: Result<CapsuleTransferred, ErrorCode>)
        ensures
            final(self)@.valid(),
            match transfer_outcome(
                old(self)@.capsule_at(capsule_key),
                capsule_key,
                current_owner,
                new_owner,
                Some(capsule_key@),
                mint_address,
                now,
            ) {
                Ok(capsule) => {
                    &&& final(self)@ == old(self)@.with_capsule(capsule_key, capsule)
                    &&& r == Ok::<CapsuleTransferred, ErrorCode>(
                        transfer_event(capsule_key, current_owner, new_owner, mint_address, now),
                    )
                },
                Err(error) => {
                    &&& final(self)@ == old(self)@
                    &&& r == Err::<CapsuleTransferred, ErrorCode>(error)
                },
            },
    {
        let slot = self.take(&capsule_key);
        let mut ctx = TransferCapsule { capsule: slot, capsule_key, current_owner, new_owner };
        let r = crate::instructions::transfer_capsule::handler(&mut ctx, mint_address, now);
        self.put(capsule_key, ctx.capsule);
        proof {
            use_type_invariant(&*self);
            lemma_sound_is_valid(self.config, self.entries@);
            if r is Err {
                assert(self@.capsules =~= old(self)@.capsules);
            }
        }
        r
    }

    /// Removes the capsule stored at `capsule_key` on behalf of `owner`. The
    /// ledger changes only if the removal succeeds; after it nothing is stored
    /// at `capsule_key`.
    pub fn close_capsule(&mut self, capsule_key: Identity, owner: Identity, now: i64) -> (r: Result<
        CapsuleClosed,
        ErrorCode,
    >)
        ensures
            final(self)@.valid(),
            match close_rejection(
                old(self)@.capsule_at(capsule_key),
                capsule_key,
                owner,
                Some(capsule_key@),
            ) {
                None => {
                    &&& final(self)@ == old(self)@.without_capsule(capsule_key)
                    &&& final(self)@.capsule_at(capsule_key) is None
                    &&& r == Ok::<CapsuleClosed, ErrorCode>(close_event(capsule_key, owner, now))
                },
                Some(error) => {
                    &&& final(self)@ == old(self)@
                    &&& r == Err::<CapsuleClosed, ErrorCode>(error)
                },
            },
    {
        let slot = self.take(&capsule_key);
        let mut ctx = CloseCapsule { capsule: slot, capsule_key, owner };
        let r = crate::instructions::close_capsule::handler(&mut ctx, now);
        self.put(capsule_key, ctx.capsule);
        proof {
            use_type_invariant(&*self);
            lemma_sound_is_valid(self.config, self.entries@);
            if r is Err {
                assert(self@.capsules =~= old(self)@.capsules);
            }
        }
        r
    }
}

} // verus!

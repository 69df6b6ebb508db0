use vstd::prelude::*;
use vstd::string::*;
use crate::entry::{
    answer_view, created_view, found_view, EntryView, Register, RegistryEntry, UpdateAuthority,
};
use crate::error::StealthError;
use crate::handle::validate_handle;
use crate::identity::{lemma_identity_ext, Identity};
use crate::model::{
    after_create, after_register, after_reroute, after_transfer, after_update_authority,
    after_update_destination, change_outcome, create_outcome, entry_at, entry_of, located,
    register_outcome, update_outcome,
};
use crate::slot::{derive_slot, slot_for, Slot};

verus! {

/// An entry and the address it is stored at.
struct Account {
    address: Identity,
    entry: RegistryEntry,
}

/// Whether `accounts[i]` is stored at `address`.
spec fn held_at(accounts: Seq<Account>, address: Seq<u8>, i: int) -> bool {
    0 <= i < accounts.len() && accounts[i].address@ == address
}

/// Whether some account is stored at `address`.
spec fn holds(accounts: Seq<Account>, address: Seq<u8>) -> bool {
    exists|i: int| held_at(accounts, address, i)
}

/// The index of an account stored at `address`.
spec fn position(accounts: Seq<Account>, address: Seq<u8>) -> int {
    choose|i: int| held_at(accounts, address, i)
}

/// No address is taken twice.
spec fn distinct(accounts: Seq<Account>) -> bool {
    forall|address: Seq<u8>, i: int, j: int|
        #![trigger held_at(accounts, address, i), held_at(accounts, address, j)]
        held_at(accounts, address, i) && held_at(accounts, address, j) ==> i == j
}

/// The accounts as a map from address to entry.
spec fn ledger_of(accounts: Seq<Account>) -> Map<Seq<u8>, EntryView> {
    Map::new(
        |address: Seq<u8>| holds(accounts, address),
        |address: Seq<u8>| accounts[position(accounts, address)].entry@,
    )
}

proof fn lemma_ledger_at(accounts: Seq<Account>, i: int)
    requires
        distinct(accounts),
        0 <= i < accounts.len(),
    ensures
        ledger_of(accounts).dom().contains(accounts[i].address@),
        ledger_of(accounts)[accounts[i].address@] == accounts[i].entry@,
{
    let address = accounts[i].address@;
    assert(held_at(accounts, address, i));
    assert(held_at(accounts, address, position(accounts, address)));
}

proof fn lemma_ledger_push(accounts: Seq<Account>, account: Account)
    requires
        distinct(accounts),
        !holds(accounts, account.address@),
    ensures
        distinct(accounts.push(account)),
        ledger_of(accounts.push(account)) == ledger_of(accounts).insert(
            account.address@,
            account.entry@,
        ),
{
    let grown = accounts.push(account);
    let last = accounts.len() as int;
    assert forall|address: Seq<u8>, i: int, j: int|
        held_at(grown, address, i) && held_at(grown, address, j) implies i == j by {
        if i < last {
            assert(held_at(accounts, address, i));
        }
        if j < last {
            assert(held_at(accounts, address, j));
        }
    }
    assert(held_at(grown, account.address@, last));
    assert forall|address: Seq<u8>| holds(grown, address) <==> (holds(accounts, address)
        || address == account.address@) by {
        if holds(grown, address) {
            let i = position(grown, address);
            assert(held_at(grown, address, i));
            if i < last {
                assert(held_at(accounts, address, i));
            }
        }
        if holds(accounts, address) {
            let i = position(accounts, address);
            assert(held_at(accounts, address, i));
            assert(held_at(grown, address, i));
        }
    }
    assert forall|address: Seq<u8>| holds(grown, address) implies #[trigger] ledger_of(
        grown,
    )[address] == ledger_of(accounts).insert(account.address@, account.entry@)[address] by {
        let i = position(grown, address);
        assert(held_at(grown, address, i));
        if address == account.address@ {
            assert(i == last);
        } else {
            assert(held_at(accounts, address, i));
            let k = position(accounts, address);
            assert(held_at(accounts, address, k));
        }
    }
    assert(ledger_of(grown) =~= ledger_of(accounts).insert(account.address@, account.entry@));
}

proof fn lemma_ledger_update(accounts: Seq<Account>, i: int, account: Account)
    requires
        distinct(accounts),
        0 <= i < accounts.len(),
        account.address@ == accounts[i].address@,
    ensures
        distinct(accounts.update(i, account)),
        ledger_of(accounts.update(i, account)) == ledger_of(accounts).insert(
            account.address@,
            account.entry@,
        ),
{
    let changed = accounts.update(i, account);
    assert forall|address: Seq<u8>, k: int| held_at(changed, address, k) <==> held_at(
        accounts,
        address,
        k,
    ) by {}
    assert forall|address: Seq<u8>, j: int, k: int|
        held_at(changed, address, j) && held_at(changed, address, k) implies j == k by {
        assert(held_at(accounts, address, j));
        assert(held_at(accounts, address, k));
    }
    assert(held_at(accounts, account.address@, i));
    assert forall|address: Seq<u8>| holds(changed, address) <==> holds(accounts, address) by {
        if holds(changed, address) {
            assert(held_at(accounts, address, position(changed, address)));
        }
        if holds(accounts, address) {
            assert(held_at(changed, address, position(accounts, address)));
        }
    }
    assert forall|address: Seq<u8>| holds(changed, address) implies #[trigger] ledger_of(
        changed,
    )[address] == ledger_of(accounts).insert(account.address@, account.entry@)[address] by {
        let j = position(changed, address);
        assert(held_at(changed, address, j));
        assert(held_at(accounts, address, j));
        let k = position(accounts, address);
        assert(held_at(accounts, address, k));
        if address == account.address@ {
            assert(j == i);
        }
    }
    assert(ledger_of(changed) =~= ledger_of(accounts).insert(account.address@, account.entry@));
}

/// The registry of one program: a store with at most one entry per location.
///
/// Entries are created once, changed in place and never removed. The store
/// can be addressed by location, or by handle, whose location is then derived.
pub struct Registry {
    program_id: Identity,
    accounts: Vec<Account>,
}

impl View for Registry {
    type V = Map<Seq<u8>, EntryView>;

    /// The registry as a map from address to the entry stored there.
    closed spec fn view(&self) -> Map<Seq<u8>, EntryView> {
        ledger_of(self.accounts@)
    }
}

impl Registry {
    #[verifier::type_invariant]
    spec fn no_address_twice(self) -> bool {
        distinct(self.accounts@)
    }

    /// The program whose namespace this registry is.
    pub closed spec fn spec_program_id(&self) -> Identity {
        self.program_id
    }

    /// Whether every entry belongs to a valid handle and is stored where that
    /// handle's location is derived to. It holds of a new registry and is kept
    /// by every operation that is addressed by handle.
    pub open spec fn is_located(&self) -> bool {
        located(self.program_id()@, self@)
    }

    /// An empty registry for the program `program_id`.
    pub fn new(program_id: Identity) -> (registry: Registry)
        ensures
            registry.program_id() == program_id,
            registry@ == Map::<Seq<u8>, EntryView>::empty(),
            registry.is_located(),
    {
        let registry = Registry { program_id, accounts: Vec::new() };
        assert(registry@ =~= Map::<Seq<u8>, EntryView>::empty());
        registry
    }

    /// The program whose namespace this registry is.
    #[verifier::when_used_as_spec(spec_program_id)]
    pub fn program_id(&self) -> (program_id: Identity)
        ensures
            program_id == self.spec_program_id(),
    {
        self.program_id
    }

    /// The index of the account stored at `address`, if there is one.
    fn find(&self, address: &Identity) -> (found: Option<usize>)
        ensures
            match found {
                Some(i) => held_at(self.accounts@, address@, i as int),
                None => !holds(self.accounts@, address@),
            },
    {
        let mut i: usize = 0;
        while i < self.accounts.len()
            invariant
                i <= self.accounts.len(),
                forall|k: int| 0 <= k < i ==> !held_at(self.accounts@, address@, k),
            decreases self.accounts.len() - i,
        {
            if self.accounts[i].address == *address {
                return Some(i);
            }
            proof {
                lemma_identity_ext(self.accounts[i as int].address, *address);
            }
            i += 1;
        }
        None
    }

    /// Stores `account` at an address that is still free.
    fn append(&mut self, account: Account)
        requires
            !holds(old(self).accounts@, account.address@),
        ensures
            final(self).program_id == old(self).program_id,
            final(self)@ == old(self)@.insert(account.address@, account.entry@),
    {
        proof {
            use_type_invariant(&*self);
            lemma_ledger_push(self.accounts@, account);
        }
        let mut accounts: Vec<Account> = Vec::new();
        core::mem::swap(&mut self.accounts, &mut accounts);
        accounts.push(account);
        core::mem::swap(&mut self.accounts, &mut accounts);
    }

    /// Puts `account` in the place of the account at index `i`, which has
    /// the same address.
    fn replace(&mut self, i: usize, account: Account)
        requires
            held_at(old(self).accounts@, account.address@, i as int),
        ensures
            final(self).program_id == old(self).program_id,
            final(self)@ == old(self)@.insert(account.address@, account.entry@),
    {
        proof {
            use_type_invariant(&*self);
            lemma_ledger_update(self.accounts@, i as int, account);
        }
        let mut accounts: Vec<Account> = Vec::new();
        core::mem::swap(&mut self.accounts, &mut accounts);
        accounts.set(i, account);
        core::mem::swap(&mut self.accounts, &mut accounts);
    }

    /// Reads the entry stored at `address`.
    pub fn entry_at(&self, address: &Identity) -> (found: Option<RegistryEntry>)
        ensures
            found_view(found) == entry_at(self@, address@),
    {
        proof {
            use_type_invariant(self);
        }
        match self.find(address) {
            None => None,
            Some(i) => {
                proof {
                    lemma_ledger_at(self.accounts@, i as int);
                }
                Some(self.accounts[i].entry.clone())
            },
        }
    }

    /// Registers `handle` at the location `slot` for the authority that
    /// `ctx` presents, with payments routed to `destination_pubkey`, or to the
    /// authority where none is given.
    ///
    /// The first registration of a location wins; a later one never
    /// overwrites it. On success the answer holds a copy of the entry that was
    /// written.
    pub fn create_at(
        &mut self,
        slot: &Slot,
        ctx: &Register,
        handle: String,
        destination_pubkey: Option<Identity>,
    ) -> (created: Result<RegistryEntry, StealthError>)
        ensures
            final(self).program_id() == old(self).program_id(),
            created_view(created) == create_outcome(
                old(self)@,
                (slot.address@, slot.bump),
                *ctx,
                handle@,
                destination_pubkey,
            ),
            final(self)@ == after_create(
                old(self)@,
                (slot.address@, slot.bump),
                *ctx,
                handle@,
                destination_pubkey,
            ),
            old(self).is_located() && slot_for(old(self).program_id()@, handle@) == Some(
                (slot.address@, slot.bump),
            ) ==> final(self).is_located(),
    {
        match validate_handle(handle.as_str()) {
            Err(defect) => {
                return Err(defect);
            },
            Ok(()) => {},
        }
        if !ctx.authority.proven {
            return Err(StealthError::AuthorizationFailed);
        }
        if self.find(&slot.address).is_some() {
            return Err(StealthError::HandleAlreadyRegistered);
        }
        let written = RegistryEntry::new(
            handle,
            ctx.authority.identity,
            destination_pubkey,
            slot.bump,
        );
        self.append(Account { address: slot.address, entry: written.clone() });
        Ok(written)
    }

    /// Hands the entry at `address` over to `new_authority`.
    ///
    /// Only the entry's current authority may do so, as read at this very
    /// call. Any identity is accepted as the new authority. The destination
    /// stays as it is.
    pub fn transfer_authority_at(
        &mut self,
        address: &Identity,
        ctx: &UpdateAuthority,
        new_authority: Identity,
    ) -> (done: Result<(), StealthError>)
        ensures
            final(self).program_id() == old(self).program_id(),
            done == change_outcome(old(self)@, address@, *ctx),
            final(self)@ == after_transfer(old(self)@, address@, *ctx, new_authority),
            old(self).is_located() ==> final(self).is_located(),
    {
        proof {
            use_type_invariant(&*self);
        }
        let i = match self.find(address) {
            None => {
                return Err(StealthError::HandleNotFound);
            },
            Some(i) => i,
        };
        proof {
            lemma_ledger_at(self.accounts@, i as int);
        }
        let mut entry = self.accounts[i].entry.clone();
        match entry.transfer_authority(ctx, new_authority) {
            Err(refusal) => {
                return Err(refusal);
            },
            Ok(()) => {},
        }
        self.replace(i, Account { address: self.accounts[i].address, entry });
        Ok(())
    }

    /// Routes the payments of the entry at `address` to `new_destination`.
    ///
    /// Only the entry's current authority may do so, as read at this very
    /// call. The authority stays as it is.
    pub fn set_destination_at(
        &mut self,
        address: &Identity,
        ctx: &UpdateAuthority,
        new_destination: Identity,
    ) -> (done: Result<(), StealthError>)
        ensures
            final(self).program_id() == old(self).program_id(),
            done == change_outcome(old(self)@, address@, *ctx),
            final(self)@ == after_reroute(old(self)@, address@, *ctx, new_destination),
            old(self).is_located() ==> final(self).is_located(),
    {
        proof {
            use_type_invariant(&*self);
        }
        let i = match self.find(address) {
            None => {
                return Err(StealthError::HandleNotFound);
            },
            Some(i) => i,
        };
        proof {
            lemma_ledger_at(self.accounts@, i as int);
        }
        let mut entry = self.accounts[i].entry.clone();
        match entry.set_destination(ctx, new_destination) {
            Err(refusal) => {
                return Err(refusal);
            },
            Ok(()) => {},
        }
        self.replace(i, Account { address: self.accounts[i].address, entry });
        Ok(())
    }

    /// Reads the entry registered under `handle`. Anyone may look.
    pub fn lookup(&self, handle: &str) -> (found: Option<RegistryEntry>)
        ensures
            found_view(found) == entry_of(self@, self.program_id()@, handle@),
    {
        match derive_slot(&self.program_id, handle) {
            None => None,
            Some(slot) => self.entry_at(&slot.address),
        }
    }
}

/// Registers `handle` for the authority that `ctx` presents, with payments
/// routed to `destination_pubkey`, or to the authority where none is given.
///
/// The entry goes to the location derived from the handle, so a handle is
/// registered at most once. The answer is `None` where the handle is valid but
/// no location can be derived for it; nothing is changed then.
pub fn register(
    registry: &mut Registry,
    ctx: &Register,
    handle: String,
    destination_pubkey: Option<Identity>,
) -> (answer: Option<Result<RegistryEntry, StealthError>>)
    ensures
        final(registry).program_id() == old(registry).program_id(),
        answer_view(answer) == register_outcome(
            old(registry)@,
            old(registry).program_id()@,
            *ctx,
            handle@,
            destination_pubkey,
        ),
        final(registry)@ == after_register(
            old(registry)@,
            old(registry).program_id()@,
            *ctx,
            handle@,
            destination_pubkey,
        ),
        old(registry).is_located() ==> final(registry).is_located(),
{
    match derive_slot(&registry.program_id, handle.as_str()) {
        Some(slot) => Some(registry.create_at(&slot, ctx, handle, destination_pubkey)),
        None => match validate_handle(handle.as_str()) {
            Err(defect) => Some(Err(defect)),
            Ok(()) => None,
        },
    }
}

/// Hands the entry registered under `handle` over to `new_authority`.
///
/// Only the entry's current authority may do so, as read at this very call.
/// Any identity is accepted as the new authority. The destination stays as
/// it is.
pub fn update_authority(
    registry: &mut Registry,
    ctx: &UpdateAuthority,
    handle: String,
    new_authority: Identity,
) -> (done: Result<(), StealthError>)
    ensures
        final(registry).program_id() == old(registry).program_id(),
        done == update_outcome(
            old(registry)@,
            old(registry).program_id()@,
            *ctx,
            handle@,
        ),
        final(registry)@ == after_update_authority(
            old(registry)@,
            old(registry).program_id()@,
            *ctx,
            handle@,
            new_authority,
        ),
        old(registry).is_located() ==> final(registry).is_located(),
{
    match derive_slot(&registry.program_id, handle.as_str()) {
        Some(slot) => registry.transfer_authority_at(&slot.address, ctx, new_authority),
        None => Err(StealthError::HandleNotFound),
    }
}

/// Routes the payments of the entry registered under `handle` to
/// `new_destination`.
///
/// Only the entry's current authority may do so, as read at this very call.
/// The authority stays as it is.
pub fn update_destination(
    registry: &mut Registry,
    ctx: &UpdateAuthority,
    handle: String,
    new_destination: Identity,
) -> (done: Result<(), StealthError>)
    ensures
        final(registry).program_id() == old(registry).program_id(),
        done == update_outcome(
            old(registry)@,
            old(registry).program_id()@,
            *ctx,
            handle@,
        ),
        final(registry)@ == after_update_destination(
            old(registry)@,
            old(registry).program_id()@,
            *ctx,
            handle@,
            new_destination,
        ),
        old(registry).is_located() ==> final(registry).is_located(),
{
    match derive_slot(&registry.program_id, handle.as_str()) {
        Some(slot) => registry.set_destination_at(&slot.address, ctx, new_destination),
        None => Err(StealthError::HandleNotFound),
    }
}

} // verus!

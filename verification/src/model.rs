use vstd::prelude::*;
use crate::entry::{EntryView, Register, UpdateAuthority};
use crate::error::StealthError;
use crate::handle::{handle_defect, is_valid_handle};
use crate::identity::Identity;
use crate::slot::slot_for;

verus! {

/// The entry stored at `address`, if the location is occupied.
pub open spec fn entry_at(ledger: Map<Seq<u8>, EntryView>, address: Seq<u8>) -> Option<EntryView> {
    if ledger.dom().contains(address) {
        Some(ledger[address])
    } else {
        None
    }
}

/// What a registration at the location `slot` answers. The handle is
/// validated first, then the caller's proof of control over the new authority
/// is looked at, and last whether the location is still free.
pub open spec fn create_outcome(
    ledger: Map<Seq<u8>, EntryView>,
    slot: (Seq<u8>, u8),
    ctx: Register,
    handle: Seq<char>,
    destination_pubkey: Option<Identity>,
) -> Result<EntryView, StealthError> {
    match handle_defect(handle) {
        Some(defect) => Err(defect),
        None => if !ctx.authority.proven {
            Err(StealthError::AuthorizationFailed)
        } else if ledger.dom().contains(slot.0) {
            Err(StealthError::HandleAlreadyRegistered)
        } else {
            Ok(EntryView::fresh(handle, ctx.authority.identity, destination_pubkey, slot.1))
        },
    }
}

/// The ledger after a registration at the location `slot`: the new entry is
/// there where the registration succeeds, nothing changed where it does not.
pub open spec fn after_create(
    ledger: Map<Seq<u8>, EntryView>,
    slot: (Seq<u8>, u8),
    ctx: Register,
    handle: Seq<char>,
    destination_pubkey: Option<Identity>,
) -> Map<Seq<u8>, EntryView> {
    match create_outcome(ledger, slot, ctx, handle, destination_pubkey) {
        Ok(entry) => ledger.insert(slot.0, entry),
        Err(_) => ledger,
    }
}

/// What a change to the entry at `address` answers: the entry must exist, and
/// the caller must control the authority it has at this moment.
pub open spec fn change_outcome(
    ledger: Map<Seq<u8>, EntryView>,
    address: Seq<u8>,
    ctx: UpdateAuthority,
) -> Result<(), StealthError> {
    match entry_at(ledger, address) {
        None => Err(StealthError::HandleNotFound),
        Some(entry) => if ctx.authority.controls(entry.authority) {
            Ok(())
        } else {
            Err(StealthError::Unauthorized)
        },
    }
}

/// The ledger after an attempt to hand the entry at `address` to
/// `new_authority`.
pub open spec fn after_transfer(
    ledger: Map<Seq<u8>, EntryView>,
    address: Seq<u8>,
    ctx: UpdateAuthority,
    new_authority: Identity,
) -> Map<Seq<u8>, EntryView> {
    if change_outcome(ledger, address, ctx) is Ok {
        ledger.insert(address, ledger[address].with_authority(new_authority))
    } else {
        ledger
    }
}

/// The ledger after an attempt to route the payments of the entry at
/// `address` to `new_destination`.
pub open spec fn after_reroute(
    ledger: Map<Seq<u8>, EntryView>,
    address: Seq<u8>,
    ctx: UpdateAuthority,
    new_destination: Identity,
) -> Map<Seq<u8>, EntryView> {
    if change_outcome(ledger, address, ctx) is Ok {
        ledger.insert(address, ledger[address].with_destination(new_destination))
    } else {
        ledger
    }
}

/// Every entry of `ledger` belongs to a valid handle and sits exactly where
/// that handle's location is derived to under `program_id`, with the bump of
/// that derivation.
pub open spec fn located(program_id: Seq<u8>, ledger: Map<Seq<u8>, EntryView>) -> bool {
    forall|address: Seq<u8>| #[trigger]
        ledger.dom().contains(address) ==> {
            &&& is_valid_handle(ledger[address].handle)
            &&& slot_for(program_id, ledger[address].handle) == Some(
                (address, ledger[address].bump),
            )
        }
}

/// The entry found under `handle`: the one at the handle's derived location,
/// if there is such a location and it is occupied.
pub open spec fn entry_of(
    ledger: Map<Seq<u8>, EntryView>,
    program_id: Seq<u8>,
    handle: Seq<char>,
) -> Option<EntryView> {
    match slot_for(program_id, handle) {
        Some(slot) => entry_at(ledger, slot.0),
        None => None,
    }
}

/// What a registration of `handle` answers: what a registration at the
/// handle's derived location answers. Without such a location a defective
/// handle is still told its defect, and a valid one gets no answer at all.
pub open spec fn register_outcome(
    ledger: Map<Seq<u8>, EntryView>,
    program_id: Seq<u8>,
    ctx: Register,
    handle: Seq<char>,
    destination_pubkey: Option<Identity>,
) -> Option<Result<EntryView, StealthError>> {
    match slot_for(program_id, handle) {
        Some(slot) => Some(create_outcome(ledger, slot, ctx, handle, destination_pubkey)),
        None => match handle_defect(handle) {
            Some(defect) => Some(Err(defect)),
            None => None,
        },
    }
}

/// The ledger after a registration of `handle`.
pub open spec fn after_register(
    ledger: Map<Seq<u8>, EntryView>,
    program_id: Seq<u8>,
    ctx: Register,
    handle: Seq<char>,
    destination_pubkey: Option<Identity>,
) -> Map<Seq<u8>, EntryView> {
    match slot_for(program_id, handle) {
        Some(slot) => after_create(ledger, slot, ctx, handle, destination_pubkey),
        None => ledger,
    }
}

/// What a change to the entry under `handle` answers. A handle without a
/// derived location has no entry.
pub open spec fn update_outcome(
    ledger: Map<Seq<u8>, EntryView>,
    program_id: Seq<u8>,
    ctx: UpdateAuthority,
    handle: Seq<char>,
) -> Result<(), StealthError> {
    match slot_for(program_id, handle) {
        Some(slot) => change_outcome(ledger, slot.0, ctx),
        None => Err(StealthError::HandleNotFound),
    }
}

/// The ledger after an attempt to hand the entry under `handle` to
/// `new_authority`.
pub open spec fn after_update_authority(
    ledger: Map<Seq<u8>, EntryView>,
    program_id: Seq<u8>,
    ctx: UpdateAuthority,
    handle: Seq<char>,
    new_authority: Identity,
) -> Map<Seq<u8>, EntryView> {
    match slot_for(program_id, handle) {
        Some(slot) => after_transfer(ledger, slot.0, ctx, new_authority),
        None => ledger,
    }
}

/// The ledger after an attempt to route the payments of `handle` to
/// `new_destination`.
pub open spec fn after_update_destination(
    ledger: Map<Seq<u8>, EntryView>,
    program_id: Seq<u8>,
    ctx: UpdateAuthority,
    handle: Seq<char>,
    new_destination: Identity,
) -> Map<Seq<u8>, EntryView> {
    match slot_for(program_id, handle) {
        Some(slot) => after_reroute(ledger, slot.0, ctx, new_destination),
        None => ledger,
    }
}

} // verus!

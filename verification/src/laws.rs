use vstd::prelude::*;
use vstd::utf8::*;
use crate::entry::{EntryView, Register, UpdateAuthority};
use crate::error::StealthError;
use crate::handle::{all_handle_chars, handle_byte_len, is_handle_char, is_valid_handle};
use crate::identity::Identity;
use crate::model::{
    after_register, after_update_authority, after_update_destination, entry_of, located,
    register_outcome, update_outcome,
};
use crate::slot::slot_for;

verus! {

/// A valid handle is plain ASCII, so it has as many bytes as characters:
/// between 1 and 32 of them.
pub proof fn law_valid_handle_shape(handle: Seq<char>)
    requires
        is_valid_handle(handle),
    ensures
        1 <= handle.len() <= 32,
        handle_byte_len(handle) == handle.len(),
        all_handle_chars(handle),
{
    assert forall|i: int| 0 <= i < handle.len() implies '\0' <= #[trigger] handle[i]
        <= '\u{7f}' by {
        assert(is_handle_char(handle[i]));
    }
    is_ascii_chars_encode_utf8(handle);
}

/// A registration succeeds exactly when the handle is valid, a location can
/// be derived for it, the caller has proven control of the new authority and
/// the location is free. The registered handle is then found again, with the
/// authority it was registered for and, unless another destination was given,
/// with payments routed to that authority.
pub proof fn law_registered_handle_is_found(
    ledger: Map<Seq<u8>, EntryView>,
    program_id: Seq<u8>,
    ctx: Register,
    handle: Seq<char>,
    destination_pubkey: Option<Identity>,
)
    ensures
        register_outcome(ledger, program_id, ctx, handle, destination_pubkey) is Some
            && register_outcome(ledger, program_id, ctx, handle, destination_pubkey)->0 is Ok
            <==> is_valid_handle(handle) && ctx.authority.proven && (slot_for(
            program_id,
            handle,
        ) matches Some(slot) && !ledger.dom().contains(slot.0)),
        register_outcome(ledger, program_id, ctx, handle, destination_pubkey) matches Some(
            Ok(entry),
        ) ==> {
            &&& entry_of(
                after_register(ledger, program_id, ctx, handle, destination_pubkey),
                program_id,
                handle,
            ) == Some(entry)
            &&& entry.handle == handle
            &&& entry.authority == ctx.authority.identity
            &&& destination_pubkey matches Some(destination) ==> entry.destination_pubkey
                == destination
            &&& destination_pubkey is None ==> entry.destination_pubkey == ctx.authority.identity
        },
{
}

/// The first registration of a handle wins. A second one is turned down,
/// with `HandleAlreadyRegistered` where its caller has proven control of the
/// authority it names, and the entry stays with the first authority.
pub proof fn law_first_registration_wins(
    ledger: Map<Seq<u8>, EntryView>,
    program_id: Seq<u8>,
    first: Register,
    first_destination: Option<Identity>,
    second: Register,
    second_destination: Option<Identity>,
    handle: Seq<char>,
)
    requires
        register_outcome(ledger, program_id, first, handle, first_destination) matches Some(
            Ok(_),
        ),
    ensures
        ({
            let registered = after_register(ledger, program_id, first, handle, first_destination);
            let again = register_outcome(
                registered,
                program_id,
                second,
                handle,
                second_destination,
            );
            &&& again matches Some(Err(_))
            &&& second.authority.proven ==> again == Some(
                Err::<EntryView, StealthError>(StealthError::HandleAlreadyRegistered),
            )
            &&& after_register(registered, program_id, second, handle, second_destination)
                == registered
            &&& entry_of(registered, program_id, handle) matches Some(entry) && entry.authority
                == first.authority.identity
        }),
{
}

/// Whoever does not control the current authority of an entry can change
/// neither its authority nor its destination: the attempt is turned down with
/// `Unauthorized` and the registry stays as it was.
pub proof fn law_stranger_changes_nothing(
    ledger: Map<Seq<u8>, EntryView>,
    program_id: Seq<u8>,
    ctx: UpdateAuthority,
    handle: Seq<char>,
    new_authority: Identity,
    new_destination: Identity,
)
    requires
        entry_of(ledger, program_id, handle) matches Some(entry) && !ctx.authority.controls(
            entry.authority,
        ),
    ensures
        update_outcome(ledger, program_id, ctx, handle) == Err::<(), StealthError>(
            StealthError::Unauthorized,
        ),
        after_update_authority(ledger, program_id, ctx, handle, new_authority) == ledger,
        after_update_destination(ledger, program_id, ctx, handle, new_destination) == ledger,
{
}

/// Control moves with the authority. Once the current authority has handed
/// an entry to another identity, its own next transfer is turned down with
/// `Unauthorized`, while the new authority's transfer goes through.
pub proof fn law_transfer_moves_control(
    ledger: Map<Seq<u8>, EntryView>,
    program_id: Seq<u8>,
    handle: Seq<char>,
    by_old: UpdateAuthority,
    new_authority: Identity,
    by_new: UpdateAuthority,
    next_authority: Identity,
)
    requires
        entry_of(ledger, program_id, handle) matches Some(entry) && by_old.authority.controls(
            entry.authority,
        ),
        new_authority != by_old.authority.identity,
        by_new.authority.controls(new_authority),
    ensures
        update_outcome(ledger, program_id, by_old, handle) == Ok::<(), StealthError>(()),
        ({
            let handed = after_update_authority(
                ledger,
                program_id,
                by_old,
                handle,
                new_authority,
            );
            &&& entry_of(handed, program_id, handle) matches Some(entry) && entry.authority
                == new_authority
            &&& update_outcome(handed, program_id, by_old, handle) == Err::<(), StealthError>(
                StealthError::Unauthorized,
            )
            &&& after_update_authority(handed, program_id, by_old, handle, next_authority)
                == handed
            &&& update_outcome(handed, program_id, by_new, handle) == Ok::<(), StealthError>(())
            &&& entry_of(
                after_update_authority(handed, program_id, by_new, handle, next_authority),
                program_id,
                handle,
            ) matches Some(entry) && entry.authority == next_authority
        }),
{
}

/// Authority and destination are independent. Whatever its outcome, a change
/// of destination leaves the authority of every entry as it was, and a
/// transfer of authority leaves every destination as it was. Neither touches
/// a handle or a bump, and neither adds or removes an entry.
pub proof fn law_fields_change_alone(
    ledger: Map<Seq<u8>, EntryView>,
    program_id: Seq<u8>,
    ctx: UpdateAuthority,
    handle: Seq<char>,
    new_authority: Identity,
    new_destination: Identity,
)
    ensures
        ({
            let rerouted = after_update_destination(
                ledger,
                program_id,
                ctx,
                handle,
                new_destination,
            );
            &&& rerouted.dom() == ledger.dom()
            &&& forall|address: Seq<u8>| #[trigger]
                ledger.dom().contains(address) ==> {
                    &&& rerouted[address].authority == ledger[address].authority
                    &&& rerouted[address].handle == ledger[address].handle
                    &&& rerouted[address].bump == ledger[address].bump
                }
        }),
        ({
            let handed = after_update_authority(ledger, program_id, ctx, handle, new_authority);
            &&& handed.dom() == ledger.dom()
            &&& forall|address: Seq<u8>| #[trigger]
                ledger.dom().contains(address) ==> {
                    &&& handed[address].destination_pubkey == ledger[address].destination_pubkey
                    &&& handed[address].handle == ledger[address].handle
                    &&& handed[address].bump == ledger[address].bump
                }
        }),
{
    let rerouted = after_update_destination(ledger, program_id, ctx, handle, new_destination);
    let handed = after_update_authority(ledger, program_id, ctx, handle, new_authority);
    assert(rerouted.dom() =~= ledger.dom());
    assert(handed.dom() =~= ledger.dom());
}

/// A successful change writes the new value and nothing else: the entry
/// under the handle has the new authority, or the new destination, and every
/// other entry is as it was.
pub proof fn law_update_writes_one_field(
    ledger: Map<Seq<u8>, EntryView>,
    program_id: Seq<u8>,
    ctx: UpdateAuthority,
    handle: Seq<char>,
    new_authority: Identity,
    new_destination: Identity,
)
    requires
        update_outcome(ledger, program_id, ctx, handle) is Ok,
    ensures
        entry_of(
            after_update_authority(ledger, program_id, ctx, handle, new_authority),
            program_id,
            handle,
        ) == Some(entry_of(ledger, program_id, handle)->0.with_authority(new_authority)),
        entry_of(
            after_update_destination(ledger, program_id, ctx, handle, new_destination),
            program_id,
            handle,
        ) == Some(entry_of(ledger, program_id, handle)->0.with_destination(new_destination)),
        forall|address: Seq<u8>|
            #[trigger] ledger.dom().contains(address) && !(slot_for(program_id, handle) matches Some(
                slot,
            ) && slot.0 == address) ==> {
                &&& after_update_authority(ledger, program_id, ctx, handle, new_authority)[address]
                    == ledger[address]
                &&& after_update_destination(
                    ledger,
                    program_id,
                    ctx,
                    handle,
                    new_destination,
                )[address] == ledger[address]
            },
{
}

/// Where every entry sits at the location derived from its handle, each
/// entry is found under its own handle, and no handle has two entries.
pub proof fn law_one_entry_per_handle(
    ledger: Map<Seq<u8>, EntryView>,
    program_id: Seq<u8>,
    one: Seq<u8>,
    other: Seq<u8>,
)
    requires
        located(program_id, ledger),
        ledger.dom().contains(one),
        ledger.dom().contains(other),
    ensures
        entry_of(ledger, program_id, ledger[one].handle) == Some(ledger[one]),
        ledger[one].handle == ledger[other].handle ==> one == other,
{
}

/// No operation moves an entry away from the location derived from its
/// handle, and none removes an entry.
pub proof fn law_entries_stay_located(
    ledger: Map<Seq<u8>, EntryView>,
    program_id: Seq<u8>,
    creator: Register,
    destination_pubkey: Option<Identity>,
    ctx: UpdateAuthority,
    handle: Seq<char>,
    new_authority: Identity,
    new_destination: Identity,
)
    requires
        located(program_id, ledger),
    ensures
        located(
            program_id,
            after_register(ledger, program_id, creator, handle, destination_pubkey),
        ),
        located(
            program_id,
            after_update_authority(ledger, program_id, ctx, handle, new_authority),
        ),
        located(
            program_id,
            after_update_destination(ledger, program_id, ctx, handle, new_destination),
        ),
        ledger.dom().subset_of(
            after_register(ledger, program_id, creator, handle, destination_pubkey).dom(),
        ),
{
}

} // verus!

use vstd::prelude::*;
use vstd::string::*;
use crate::error::StealthError;
use crate::identity::Identity;

verus! {

/// An identity that a caller claims to act for, together with the host's
/// verdict on the caller's proof of control over it.
///
/// Checking the proof (a signature, in practice) is the host's business; the
/// registry only reads the verdict.
#[derive(Clone, Copy, Debug)]
pub struct Claim {
    /// The identity the caller claims to control.
    pub identity: Identity,
    /// Whether the host confirmed that the caller controls `identity`.
    pub proven: bool,
}

impl Claim {
    /// Whether this claim shows control of `identity`: it names that very
    /// identity and the proof was confirmed.
    pub open spec fn controls(self, identity: Identity) -> bool {
        self.proven && self.identity == identity
    }

    /// Tells whether this claim shows control of `identity`.
    pub fn shows_control_of(&self, identity: &Identity) -> (held: bool)
        ensures
            held == self.controls(*identity),
    {
        self.proven && self.identity == *identity
    }
}

/// What a caller presents to register a handle: the identity that is to
/// become the authority of the new entry.
#[derive(Clone, Copy, Debug)]
pub struct Register {
    /// The claim to the identity that will control the new entry.
    pub authority: Claim,
}

/// What a caller presents to change an entry: the identity it claims is the
/// entry's current authority.
#[derive(Clone, Copy, Debug)]
pub struct UpdateAuthority {
    /// The claim to the identity that controls the entry now.
    pub authority: Claim,
}

/// One registered handle.
#[derive(Debug)]
pub struct RegistryEntry {
    /// The human-readable handle; never changes once the entry exists.
    pub handle: String,
    /// The identity that may change this entry.
    pub authority: Identity,
    /// Where payments to the handle are routed; need not be the authority.
    pub destination_pubkey: Identity,
    /// The nonce that the derivation of the entry's location settled on.
    pub bump: u8,
}

/// The mathematical content of a [`RegistryEntry`].
pub ghost struct EntryView {
    pub handle: Seq<char>,
    pub authority: Identity,
    pub destination_pubkey: Identity,
    pub bump: u8,
}

impl EntryView {
    /// The entry a registration writes: the destination falls back to the
    /// authority when none is given.
    pub open spec fn fresh(
        handle: Seq<char>,
        authority: Identity,
        destination_pubkey: Option<Identity>,
        bump: u8,
    ) -> EntryView {
        EntryView {
            handle,
            authority,
            destination_pubkey: match destination_pubkey {
                Some(destination) => destination,
                None => authority,
            },
            bump,
        }
    }

    /// This entry handed over to `new_authority`.
    pub open spec fn with_authority(self, new_authority: Identity) -> EntryView {
        EntryView { authority: new_authority, ..self }
    }

    /// This entry with payments routed to `new_destination`.
    pub open spec fn with_destination(self, new_destination: Identity) -> EntryView {
        EntryView { destination_pubkey: new_destination, ..self }
    }
}

impl View for RegistryEntry {
    type V = EntryView;

    open spec fn view(&self) -> EntryView {
        EntryView {
            handle: self.handle@,
            authority: self.authority,
            destination_pubkey: self.destination_pubkey,
            bump: self.bump,
        }
    }
}

impl Clone for RegistryEntry {
    /// An independent copy of this entry.
    fn clone(&self) -> (copy: RegistryEntry)
        ensures
            copy@ == self@,
    {
        RegistryEntry {
            handle: self.handle.clone(),
            authority: self.authority,
            destination_pubkey: self.destination_pubkey,
            bump: self.bump,
        }
    }
}

/// The mathematical content of an entry that may be absent.
pub open spec fn found_view(found: Option<RegistryEntry>) -> Option<EntryView> {
    match found {
        Some(entry) => Some(entry@),
        None => None,
    }
}

/// The mathematical content of what a registration at a given location
/// answers.
pub open spec fn created_view(created: Result<RegistryEntry, StealthError>) -> Result<
    EntryView,
    StealthError,
> {
    match created {
        Ok(entry) => Ok(entry@),
        Err(e) => Err(e),
    }
}

/// The mathematical content of what a registration answers.
pub open spec fn answer_view(answer: Option<Result<RegistryEntry, StealthError>>) -> Option<
    Result<EntryView, StealthError>,
> {
    match answer {
        Some(Ok(entry)) => Some(Ok(entry@)),
        Some(Err(e)) => Some(Err(e)),
        None => None,
    }
}

impl RegistryEntry {
    /// Builds the entry that a registration writes. Without a destination,
    /// payments go to the authority.
    pub fn new(
        handle: String,
        authority: Identity,
        destination_pubkey: Option<Identity>,
        bump: u8,
    ) -> (entry: RegistryEntry)
        ensures
            entry@ == EntryView::fresh(handle@, authority, destination_pubkey, bump),
    {
        let destination_pubkey = match destination_pubkey {
            Some(destination) => destination,
            None => authority,
        };
        RegistryEntry { handle, authority, destination_pubkey, bump }
    }

    /// Hands the entry over to `new_authority`, provided the caller controls
    /// the authority the entry has right now. Any identity may be the new
    /// authority, also one that nobody controls.
    pub fn transfer_authority(&mut self, ctx: &UpdateAuthority, new_authority: Identity) -> (done:
        Result<(), StealthError>)
        ensures
            ctx.authority.controls(old(self).authority) ==> done == Ok::<(), StealthError>(())
                && final(self)@ == old(self)@.with_authority(new_authority),
            !ctx.authority.controls(old(self).authority) ==> done == Err::<(), StealthError>(
                StealthError::Unauthorized,
            ) && final(self)@ == old(self)@,
    {
        if !ctx.authority.shows_control_of(&self.authority) {
            return Err(StealthError::Unauthorized);
        }
        self.authority = new_authority;
        Ok(())
    }

    /// Routes payments to `new_destination`, provided the caller controls the
    /// entry's current authority.
    pub fn set_destination(&mut self, ctx: &UpdateAuthority, new_destination: Identity) -> (done:
        Result<(), StealthError>)
        ensures
            ctx.authority.controls(old(self).authority) ==> done == Ok::<(), StealthError>(())
                && final(self)@ == old(self)@.with_destination(new_destination),
            !ctx.authority.controls(old(self).authority) ==> done == Err::<(), StealthError>(
                StealthError::Unauthorized,
            ) && final(self)@ == old(self)@,
    {
        if !ctx.authority.shows_control_of(&self.authority) {
            return Err(StealthError::Unauthorized);
        }
        self.destination_pubkey = new_destination;
        Ok(())
    }
}

} // verus!

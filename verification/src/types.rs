//! The records the registry keeps, the notifications it emits and the errors
//! it reports, each with the mathematical value that contracts speak of.

use vstd::prelude::*;

verus! {

/// An authenticated caller. The registry never looks inside it: it only
/// compares two of them.
pub type AccountId = u64;

/// A position of the host ledger, recorded when a record is created.
pub type BlockNumber = u64;

/// Who holds a proof (or an address), and since when.
#[derive(Clone, Copy, Debug, PartialEq, Eq, Structural)]
pub struct ClaimRecord {
    pub owner: AccountId,
    pub created_at: BlockNumber,
}

impl View for ClaimRecord {
    type V = ClaimRecord;

    open spec fn view(&self) -> ClaimRecord {
        *self
    }
}

/// The secret that opens a claim to a transfer, and who set it last.
#[derive(Clone, Debug, PartialEq, Eq)]
pub struct LockRecord {
    pub holder: AccountId,
    pub secret: Vec<u8>,
}

/// A lock record as a mathematical value.
pub struct LockView {
    pub holder: AccountId,
    pub secret: Seq<u8>,
}

impl View for LockRecord {
    type V = LockView;

    open spec fn view(&self) -> LockView {
        LockView { holder: self.holder, secret: self.secret@ }
    }
}

/// Why a request was refused. A refused request changes nothing.
#[derive(Clone, Copy, Debug, PartialEq, Eq, Structural)]
pub enum Error {
    /// The proof, or the address, already has a record.
    ProofAlreadyClaimed,
    /// There is no claim to revoke.
    NoSuchProof,
    /// The caller is not the recorded owner.
    NotProofOwner,
    /// A lock record already exists for the proof.
    ProofAlreadyLocked,
    /// There is no claim to lock.
    ProofNotClaimed,
    /// The presented secret is not the stored one.
    InvalidLock,
}

/// What an accepted request announces. The payload of `ClaimLocked` is the
/// secret that was set, not the proof: subscribers rely on it.
#[derive(Clone, Debug, PartialEq, Eq)]
pub enum Event {
    ClaimCreated(AccountId, Vec<u8>),
    ClaimRevoked(AccountId, Vec<u8>),
    UpdateCreated(AccountId, Vec<u8>),
    ClaimLocked(AccountId, Vec<u8>),
    PshAddressCreated(AccountId, Vec<u8>),
    SomethingStored(u32, AccountId),
    TokenIssuedBy(AccountId),
    TokenMinted(AccountId),
}

/// An event as a mathematical value.
pub enum EventView {
    ClaimCreated(AccountId, Seq<u8>),
    ClaimRevoked(AccountId, Seq<u8>),
    UpdateCreated(AccountId, Seq<u8>),
    ClaimLocked(AccountId, Seq<u8>),
    PshAddressCreated(AccountId, Seq<u8>),
    SomethingStored(u32, AccountId),
    TokenIssuedBy(AccountId),
    TokenMinted(AccountId),
}

impl View for Event {
    type V = EventView;

    open spec fn view(&self) -> EventView {
        match *self {
            Event::ClaimCreated(who, bytes) => EventView::ClaimCreated(who, bytes@),
            Event::ClaimRevoked(who, bytes) => EventView::ClaimRevoked(who, bytes@),
            Event::UpdateCreated(who, bytes) => EventView::UpdateCreated(who, bytes@),
            Event::ClaimLocked(who, bytes) => EventView::ClaimLocked(who, bytes@),
            Event::PshAddressCreated(who, bytes) => EventView::PshAddressCreated(who, bytes@),
            Event::SomethingStored(value, who) => EventView::SomethingStored(value, who),
            Event::TokenIssuedBy(who) => EventView::TokenIssuedBy(who),
            Event::TokenMinted(who) => EventView::TokenMinted(who),
        }
    }
}

/// A request, without its caller: which operation, and on which bytes.
#[derive(Clone, Debug, PartialEq, Eq)]
pub enum Call {
    CreateClaim { proof: Vec<u8> },
    UpdateClaim { proof: Vec<u8>, sentlock: Vec<u8> },
    LockClaim { proof: Vec<u8>, lock: Vec<u8> },
    CreatePshaddress { pshaddress: Vec<u8> },
    RevokeClaim { proof: Vec<u8> },
}

/// A request as a mathematical value.
pub enum CallView {
    CreateClaim { proof: Seq<u8> },
    UpdateClaim { proof: Seq<u8>, sentlock: Seq<u8> },
    LockClaim { proof: Seq<u8>, lock: Seq<u8> },
    CreatePshaddress { pshaddress: Seq<u8> },
    RevokeClaim { proof: Seq<u8> },
}

impl View for Call {
    type V = CallView;

    open spec fn view(&self) -> CallView {
        match *self {
            Call::CreateClaim { proof } => CallView::CreateClaim { proof: proof@ },
            Call::UpdateClaim { proof, sentlock } => CallView::UpdateClaim {
                proof: proof@,
                sentlock: sentlock@,
            },
            Call::LockClaim { proof, lock } => CallView::LockClaim { proof: proof@, lock: lock@ },
            Call::CreatePshaddress { pshaddress } => CallView::CreatePshaddress {
                pshaddress: pshaddress@,
            },
            Call::RevokeClaim { proof } => CallView::RevokeClaim { proof: proof@ },
        }
    }
}

/// The outcome of a request as a mathematical value.
pub open spec fn outcome_view(r: Result<Event, Error>) -> Result<EventView, Error> {
    match r {
        Ok(event) => Ok(event@),
        Err(e) => Err(e),
    }
}

} // verus!

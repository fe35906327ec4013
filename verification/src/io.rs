//! Values that cross the boundary of the token: identities, operations,
//! events, errors and queries.

use vstd::prelude::*;

verus! {

/// Caller-chosen number that makes an operation replay-safe.
pub type TxId = u64;

/// Timestamp up to which a transaction id is remembered.
pub type ValidUntil = u64;

/// Longest description accepted at initialization, in characters.
pub const MAX_DESCRIPTION_CHARS: usize = 500;

/// Largest number of decimals accepted at initialization.
pub const MAX_DECIMALS: u8 = 100;

/// A 256-bit address naming the originator or the target of an operation,
/// held as its upper and lower 128 bits.
#[derive(Clone, Copy, Debug, PartialEq, Eq, Structural, Hash)]
pub struct ActorId {
    pub hi: u128,
    pub lo: u128,
}

impl ActorId {
    /// The address whose bits are all zero.
    pub open spec fn spec_zero() -> ActorId {
        ActorId { hi: 0, lo: 0 }
    }

    /// Whether this is the all-zero address.
    pub open spec fn spec_is_zero(&self) -> bool {
        self.hi == 0 && self.lo == 0
    }

    /// Builds an address from its upper and lower halves.
    pub fn new(hi: u128, lo: u128) -> (id: ActorId)
        ensures
            id == (ActorId { hi, lo }),
    {
        ActorId { hi, lo }
    }

    /// The all-zero address, which names nobody.
    #[verifier::when_used_as_spec(spec_zero)]
    pub fn zero() -> (id: ActorId)
        ensures
            id == Self::spec_zero(),
    {
        ActorId { hi: 0, lo: 0 }
    }

    /// Whether this is the all-zero address.
    #[verifier::when_used_as_spec(spec_is_zero)]
    pub fn is_zero(&self) -> (r: bool)
        ensures
            r == self.spec_is_zero(),
            r == (*self == Self::spec_zero()),
    {
        self.hi == 0 && self.lo == 0
    }
}

/// Names the message types of the token: what initialization, operations
/// and queries take and give.
#[derive(Clone, Copy, Debug, Default, PartialEq, Eq)]
pub struct FungibleTokenMetadata;

/// Links published along with the token.
#[derive(Clone, Debug, Default, PartialEq, Eq)]
pub struct ExternalLinks {
    pub twitter: String,
}

/// Parameters fixed at initialization.
#[derive(Clone, Copy, Debug, Default, PartialEq, Eq, Structural)]
pub struct Config {
    /// How long a transaction id stays remembered after its operation.
    pub tx_storage_period: u64,
    /// Fee attached to a tracked transaction.
    pub tx_payment: u128,
}

/// Everything needed to bring a token to life.
#[derive(Clone, Debug, PartialEq, Eq)]
pub struct InitFt {
    pub name: String,
    pub symbol: String,
    pub decimals: u8,
    pub description: String,
    pub external_links: ExternalLinks,
    pub initial_supply: u128,
    pub admin: ActorId,
    pub config: Config,
}

/// An operation requested of the token.
#[derive(Clone, Debug, PartialEq, Eq)]
pub enum FTAction {
    TransferToUsers { amount: u128, to_users: Vec<ActorId> },
    Mint { amount: u128, to: ActorId },
    Burn { amount: u128 },
    Transfer { tx_id: Option<TxId>, from: ActorId, to: ActorId, amount: u128 },
    Approve { tx_id: Option<TxId>, to: ActorId, amount: u128 },
    BalanceOf(ActorId),
    AddAdmin { admin_id: ActorId },
    DeleteAdmin { admin_id: ActorId },
}

/// What a successful operation reports.
#[derive(Clone, Debug, PartialEq, Eq)]
pub enum FTEvent {
    Initialized,
    TransferredToUsers { from: ActorId, to_users: Vec<ActorId>, amount: u128 },
    Transferred { from: ActorId, to: ActorId, amount: u128 },
    Minted { to: ActorId, amount: u128 },
    Approved { from: ActorId, to: ActorId, amount: u128 },
    AdminAdded { admin_id: ActorId },
    AdminRemoved { admin_id: ActorId },
    Balance(u128),
}

/// Why an operation was refused.
#[derive(Clone, Copy, Debug, PartialEq, Eq, Structural)]
pub enum FTError {
    DecimalsError,
    DescriptionError,
    MaxSupplyReached,
    SupplyError,
    NotAdmin,
    NotEnoughBalance,
    ZeroAddress,
    NotAllowedToTransfer,
    AdminAlreadyExists,
    CantDeleteYourself,
    TxAlreadyExists,
}

/// A read-only question about the token.
#[derive(Clone, Copy, Debug, PartialEq, Eq, Structural)]
pub enum FTQuery {
    Name,
    Symbol,
    Decimals,
    CurrentSupply,
    Description,
    ExternalLinks,
    BalanceOf(ActorId),
    AllowanceOfAccount { account: ActorId, approved_account: ActorId },
    Admins,
    GetTxValidityTime { account: ActorId, tx_id: TxId },
    GetTxIdsForAccount { account: ActorId },
}

/// The answer to a query.
#[derive(Clone, Debug, PartialEq, Eq)]
pub enum FTQueryReply {
    Name(String),
    Symbol(String),
    Decimals(u8),
    Description(String),
    ExternalLinks(ExternalLinks),
    CurrentSupply(u128),
    TotalSupply(u128),
    Balance(u128),
    AllowanceOfAccount(u128),
    Admins(Vec<ActorId>),
    TxValidityTime(ValidUntil),
    TxIdsForAccount { tx_ids: Vec<TxId> },
}

} // verus!

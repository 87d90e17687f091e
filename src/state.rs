//! The data that the escrow logic reads and writes.
use vstd::prelude::*;

verus! {

/// An account address: the 32 bytes of a public key or a program address.
#[derive(Clone, Copy, Debug)]
pub struct Address {
    pub bytes: [u8; 32],
}

impl Address {
    pub fn new(bytes: [u8; 32]) -> (r: Address)
        ensures
            r.bytes == bytes,
    {
        Address { bytes }
    }

    /// Whether two addresses name the same account, byte for byte.
    pub fn same(&self, other: &Address) -> (r: bool)
        ensures
            r == (*self == *other),
    {
        let mut i: usize = 0;
        while i < 32
            invariant
                0 <= i <= 32,
                forall|j: int| 0 <= j < i ==> self.bytes@[j] == other.bytes@[j],
            decreases 32 - i,
        {
            if self.bytes[i] != other.bytes[i] {
                return false;
            }
            i = i + 1;
        }
        proof {
            broadcast use vstd::array::axiom_array_ext_equal, vstd::array::lemma_array_index;

            assert(self.bytes =~= other.bytes);
        }
        true
    }
}

/// Two addresses with the same bytes are the same address.
pub proof fn lemma_address_bytes(a: Address, b: Address)
    requires
        a.bytes@ == b.bytes@,
    ensures
        a == b,
{
    broadcast use vstd::array::axiom_array_ext_equal, vstd::array::lemma_array_index;

    assert forall|i: int| 0 <= i < 32 implies a.bytes[i] == b.bytes[i] by {
        assert(a.bytes@[i] == b.bytes@[i]);
    }
    assert(a.bytes =~= b.bytes);
}

impl PartialEq for Address {
    fn eq(&self, other: &Address) -> (r: bool) {
        self.same(other)
    }
}

impl vstd::std_specs::cmp::PartialEqSpecImpl for Address {
    open spec fn obeys_eq_spec() -> bool {
        true
    }

    open spec fn eq_spec(&self, other: &Address) -> bool {
        *self == *other
    }
}

impl Eq for Address {}

/// Where an escrow stands. `Initialized` is the only open state; the other
/// three are terminal.
#[derive(Clone, Copy, Debug, PartialEq, Eq, Structural)]
pub enum EscrowStatus {
    Initialized,
    Withdrawn,
    Refunded,
    Cancelled,
}

impl Default for EscrowStatus {
    fn default() -> (r: EscrowStatus)
        ensures
            r == EscrowStatus::Initialized,
    {
        EscrowStatus::Initialized
    }
}

/// Why an escrow operation was refused.
#[derive(Clone, Copy, Debug, PartialEq, Eq, Structural)]
pub enum EscrowError {
    InvalidAmount,
    InvalidRecipient,
    InvalidInitializer,
    InvalidArbiter,
    TimeoutExpired,
    RefundNotAllowed,
    CancelNotAllowed,
    InvalidState,
    Overflow,
    InvalidBump,
    /// The account that a transfer debits holds less than the amount.
    InsufficientFunds,
}

/// The durable record of one escrow agreement. `timeout` is the absolute
/// deadline, in the clock's seconds.
#[derive(Clone, Copy, Debug)]
pub struct Escrow {
    pub initializer: Address,
    pub recipient: Address,
    pub arbiter: Address,
    pub amount: u64,
    pub timeout: i64,
    pub status: EscrowStatus,
    pub vault_bump: u8,
    pub escrow_bump: u8,
}

impl EscrowError {
    /// The sentence that explains the error to a caller.
    pub fn message(&self) -> &'static str {
        match self {
            EscrowError::InvalidAmount => "The amount must be greater than zero.",
            EscrowError::InvalidRecipient => "The recipient is not valid for this escrow.",
            EscrowError::InvalidInitializer => "The initializer is not valid for this escrow.",
            EscrowError::InvalidArbiter => "The arbiter is not valid for this escrow.",
            EscrowError::TimeoutExpired => "The timeout has expired, withdrawal is no longer possible.",
            EscrowError::RefundNotAllowed => "The timeout has not yet expired, refund is not allowed.",
            EscrowError::CancelNotAllowed => "The escrow cannot be cancelled, timeout has been reached.",
            EscrowError::InvalidState => "The escrow is not in the correct state for this action.",
            EscrowError::Overflow => "Overflow when calculating timeout.",
            EscrowError::InvalidBump => "Invalid bump seed.",
            EscrowError::InsufficientFunds => "The source account holds less than the amount.",
        }
    }
}

impl Default for Escrow {
    /// An empty record: zero addresses and amounts, status `Initialized`.
    fn default() -> (r: Escrow)
        ensures
            r.initializer.bytes@ == Seq::new(32, |i: int| 0u8),
            r.recipient == r.initializer,
            r.arbiter == r.initializer,
            r.amount == 0,
            r.timeout == 0,
            r.status == EscrowStatus::Initialized,
            r.vault_bump == 0,
            r.escrow_bump == 0,
    {
        let zero = Address { bytes: [0u8; 32] };
        let r = Escrow {
            initializer: zero,
            recipient: zero,
            arbiter: zero,
            amount: 0,
            timeout: 0,
            status: EscrowStatus::default(),
            vault_bump: 0,
            escrow_bump: 0,
        };
        assert(r.initializer.bytes@ =~= Seq::new(32, |i: int| 0u8));
        r
    }
}

impl Escrow {
    /// The bytes that the record's fields take in storage.
    pub const LEN: usize = 32 + 32 + 32 + 8 + 8 + 1 + 1 + 1;

    /// Whether the escrow is still open.
    pub open spec fn is_open(self) -> bool {
        self.status == EscrowStatus::Initialized
    }
}

/// The balance of a token account, the one thing of it that the escrow reads.
#[derive(Clone, Copy, Debug, PartialEq, Eq, Structural)]
pub struct TokenAccount {
    pub amount: u64,
}

/// Published when an escrow is created.
#[derive(Clone, Copy, Debug)]
pub struct EscrowInitialized {
    pub escrow: Address,
    pub initializer: Address,
    pub recipient: Address,
    pub arbiter: Address,
    pub amount: u64,
}

/// Published when the recipient takes the funds.
#[derive(Clone, Copy, Debug)]
pub struct EscrowWithdrawn {
    pub escrow: Address,
    pub recipient: Address,
    pub amount: u64,
}

/// Published when the initializer takes the funds back after the deadline.
#[derive(Clone, Copy, Debug)]
pub struct EscrowRefunded {
    pub escrow: Address,
    pub initializer: Address,
    pub amount: u64,
}

/// Published when the initializer calls the escrow off before the deadline.
#[derive(Clone, Copy, Debug)]
pub struct EscrowCancelled {
    pub escrow: Address,
    pub initializer: Address,
}

/// Published when the arbiter settles the escrow.
#[derive(Clone, Copy, Debug)]
pub struct EscrowResolved {
    pub escrow: Address,
    pub arbiter: Address,
    pub release_to_recipient: bool,
}

} // verus!

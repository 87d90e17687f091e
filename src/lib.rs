//! A verified escrow state machine: an initializer locks a quantity of a
//! fungible token in a vault owned by a derived program address; the
//! recipient may withdraw before the deadline, the initializer may cancel
//! before it or take a refund after it, and an arbiter may settle at any time.
use vstd::prelude::*;

pub mod state;
pub mod pda;
pub mod engine;
pub mod laws;

pub use state::{
    Address, EscrowStatus, EscrowError, Escrow, TokenAccount, EscrowInitialized, EscrowWithdrawn,
    EscrowRefunded, EscrowCancelled, EscrowResolved,
};
pub use engine::{
    Initialize, Withdraw, Refund, Cancel, ResolveByArbiter, initialize, withdraw, refund, cancel,
    resolve_by_arbiter, transfer,
};
pub use pda::{find_escrow_address, find_vault_address, escrow_address_matches, vault_address_matches};

verus! {

/// The address of the escrow program: Fg6PaFpoGXkYsidMpWTK6W2BeZ7FEfcYkg476zPFsLnS.
pub fn id() -> (r: Address)
    ensures
        r.bytes@ == seq![
            218u8, 7, 92, 178, 255, 94, 198, 129, 118, 19, 222, 83, 11, 105, 42, 135,
            53, 71, 119, 105, 218, 71, 67, 12, 189, 129, 84, 51, 92, 74, 131, 39,
        ],
{
    let r = Address {
        bytes: [
            218, 7, 92, 178, 255, 94, 198, 129, 118, 19, 222, 83, 11, 105, 42, 135,
            53, 71, 119, 105, 218, 71, 67, 12, 189, 129, 84, 51, 92, 74, 131, 39,
        ],
    };
    assert(r.bytes@ =~= seq![
        218u8, 7, 92, 178, 255, 94, 198, 129, 118, 19, 222, 83, 11, 105, 42, 135,
        53, 71, 119, 105, 218, 71, 67, 12, 189, 129, 84, 51, 92, 74, 131, 39,
    ]);
    r
}

} // verus!

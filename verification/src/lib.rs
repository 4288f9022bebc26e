//! The state-transition core of a two-asset constant-product liquidity pool.
//!
//! An instruction is a discriminator byte followed by a payload, and comes
//! with a positional list of accounts. [`process_instruction`] validates it
//! into a request; the request plans the directives for the token ledger from
//! the balances that the caller reads at that moment. Nothing here touches
//! an account: a refused instruction has changed nothing.

pub mod bytes;
pub mod engine;
pub mod error;
pub mod instructions;
pub mod ledger;
pub mod math;
pub mod pubkey;
pub mod states;

pub use error::{PinocchioError, ProgramError};
pub use instructions::{
    AccountCheck, AddLiquidity, AddLiquidityAccounts, AddLiquidityAddresses, AddLiquidityData,
    AssociatedTokenAccount, AssociatedTokenAccountCheck, AssociatedTokenAccountInit,
    InitializePool, InitializePoolAccounts, InitializePoolAddresses, InitializePoolData,
    MintInterface, ProgramAccount, ProgramAccountInit, RemoveLiquidity, RemoveLiquidityAccounts,
    RemoveLiquidityAddresses, RemoveLiquidityData, SignerAccount, Swap, SwapAccounts, SwapAddresses,
    SwapData, TokenAccount,
};
pub use ledger::{AccountView, Directive, MintState, SignerSeeds, TokenAccountState};
pub use pubkey::{Pubkey, ID};
pub use states::Pool;

use vstd::prelude::*;

verus! {

/// A validated instruction: the request of one of the four operations.
#[derive(Clone, Copy, Debug, PartialEq, Eq)]
pub enum Instruction {
    InitializePool(InitializePool),
    AddLiquidity(AddLiquidity),
    RemoveLiquidity(RemoveLiquidity),
    Swap(Swap),
}

/// The four operations of the program, by the first byte of an instruction.
#[derive(Clone, Copy, Debug, PartialEq, Eq, Structural)]
pub enum Operation {
    InitializePool,
    AddLiquidity,
    RemoveLiquidity,
    Swap,
}

impl Operation {
    /// The operation that a discriminator selects, if any.
    pub open spec fn of(discriminator: u8) -> Option<Operation> {
        if discriminator == InitializePool::DISCRIMINATOR {
            Some(Operation::InitializePool)
        } else if discriminator == AddLiquidity::DISCRIMINATOR {
            Some(Operation::AddLiquidity)
        } else if discriminator == RemoveLiquidity::DISCRIMINATOR {
            Some(Operation::RemoveLiquidity)
        } else if discriminator == Swap::DISCRIMINATOR {
            Some(Operation::Swap)
        } else {
            None
        }
    }

    /// The least length of the payload of the operation.
    pub open spec fn payload_len(self) -> nat {
        match self {
            Operation::InitializePool => InitializePoolData::LEN as nat,
            Operation::AddLiquidity => AddLiquidityData::LEN as nat,
            Operation::RemoveLiquidity => RemoveLiquidityData::LEN as nat,
            Operation::Swap => SwapData::LEN as nat,
        }
    }

    /// The operation that a discriminator selects, if any.
    pub fn from_discriminator(discriminator: u8) -> (r: Option<Operation>)
        ensures
            r == Self::of(discriminator),
    {
        if discriminator == InitializePool::DISCRIMINATOR {
            Some(Operation::InitializePool)
        } else if discriminator == AddLiquidity::DISCRIMINATOR {
            Some(Operation::AddLiquidity)
        } else if discriminator == RemoveLiquidity::DISCRIMINATOR {
            Some(Operation::RemoveLiquidity)
        } else if discriminator == Swap::DISCRIMINATOR {
            Some(Operation::Swap)
        } else {
            None
        }
    }
}

/// The payload of an instruction: what follows the discriminator.
pub open spec fn payload(instruction_data: Seq<u8>) -> Seq<u8> {
    instruction_data.subrange(1, instruction_data.len() as int)
}

/// The request that `operation` validates the payload and the accounts to,
/// with the addresses that the runtime derives.
pub open spec fn validated(operation: Operation, accounts: Seq<AccountView>, data: Seq<u8>) -> Result<
    Instruction,
    ProgramError,
> {
    match operation {
        Operation::InitializePool => match InitializePool::validated(accounts, data) {
            Ok(request) => Ok(Instruction::InitializePool(request)),
            Err(e) => Err(e),
        },
        Operation::AddLiquidity => match AddLiquidity::validated(accounts, data) {
            Ok(request) => Ok(Instruction::AddLiquidity(request)),
            Err(e) => Err(e),
        },
        Operation::RemoveLiquidity => match RemoveLiquidity::validated(accounts, data) {
            Ok(request) => Ok(Instruction::RemoveLiquidity(request)),
            Err(e) => Err(e),
        },
        Operation::Swap => match Swap::validated(accounts, data) {
            Ok(request) => Ok(Instruction::Swap(request)),
            Err(e) => Err(e),
        },
    }
}

/// The outcome of dispatching an instruction: the first byte selects the
/// operation, which validates the payload and the accounts. No byte and an
/// unknown first byte are refused.
pub open spec fn dispatched(accounts: Seq<AccountView>, instruction_data: Seq<u8>) -> Result<
    Instruction,
    ProgramError,
> {
    if instruction_data.len() == 0 {
        Err(ProgramError::InvalidInstructionData)
    } else {
        match Operation::of(instruction_data[0]) {
            None => Err(ProgramError::InvalidInstructionData),
            Some(operation) => validated(operation, accounts, payload(instruction_data)),
        }
    }
}

/// Dispatches an instruction to its operation and validates it.
pub fn process_instruction(accounts: &[AccountView], instruction_data: &[u8]) -> (r: Result<
    Instruction,
    ProgramError,
>)
    ensures
        r == dispatched(accounts@, instruction_data@),
{
    if instruction_data.len() == 0 {
        return Err(ProgramError::InvalidInstructionData);
    }
    let data = vstd::slice::slice_subrange(instruction_data, 1, instruction_data.len());
    match Operation::from_discriminator(instruction_data[0]) {
        None => Err(ProgramError::InvalidInstructionData),
        Some(Operation::InitializePool) => Ok(
            Instruction::InitializePool(InitializePool::try_from(accounts, data)?),
        ),
        Some(Operation::AddLiquidity) => Ok(
            Instruction::AddLiquidity(AddLiquidity::try_from(accounts, data)?),
        ),
        Some(Operation::RemoveLiquidity) => Ok(
            Instruction::RemoveLiquidity(RemoveLiquidity::try_from(accounts, data)?),
        ),
        Some(Operation::Swap) => Ok(Instruction::Swap(Swap::try_from(accounts, data)?)),
    }
}

/// An instruction with no or an unknown discriminator, or with a payload
/// shorter than its operation asks for, is refused as invalid instruction
/// data, whatever the accounts are.
pub proof fn lemma_malformed_instruction_rejected(
    accounts: Seq<AccountView>,
    instruction_data: Seq<u8>,
)
    ensures
        instruction_data.len() == 0 ==> dispatched(accounts, instruction_data) == Err::<
            Instruction,
            ProgramError,
        >(ProgramError::InvalidInstructionData),
        instruction_data.len() > 0 ==> match Operation::of(instruction_data[0]) {
            None => dispatched(accounts, instruction_data) == Err::<Instruction, ProgramError>(
                ProgramError::InvalidInstructionData,
            ),
            Some(operation) => payload(instruction_data).len() < operation.payload_len()
                ==> dispatched(accounts, instruction_data) == Err::<Instruction, ProgramError>(
                ProgramError::InvalidInstructionData,
            ),
        },
{
}

} // verus!

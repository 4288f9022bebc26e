//! What the engine reads from the ledger and what it asks of it.
//!
//! The engine never touches an account. It is handed plain copies of what it
//! reads ([`AccountView`], [`TokenAccountState`], [`MintState`]) and answers
//! with [`Directive`]s, which the caller carries out in the order given. Any
//! directive that fails reverts the whole instruction.

use vstd::prelude::*;
use crate::pubkey::{key_seed, lp_mint_seeds, pool_seeds, seed_views, Pubkey};

verus! {

/// What the validators read of one account.
#[derive(Clone, Copy, Debug, PartialEq, Eq)]
pub struct AccountView {
    /// The address of the account.
    pub key: Pubkey,
    /// The program that owns the account.
    pub owner: Pubkey,
    /// Whether the account signed the transaction.
    pub is_signer: bool,
    /// The length of the account's data in bytes.
    pub data_len: usize,
}

/// What the engine reads of a token account.
#[derive(Clone, Copy, Debug, PartialEq, Eq)]
pub struct TokenAccountState {
    /// The asset that the account holds.
    pub mint: Pubkey,
    /// The owner of the balance.
    pub owner: Pubkey,
    /// The balance.
    pub amount: u64,
}

/// What the engine reads of a mint.
#[derive(Clone, Copy, Debug, PartialEq, Eq)]
pub struct MintState {
    /// Who may mint, if anyone.
    pub mint_authority: Option<Pubkey>,
    /// The number of tokens in existence.
    pub supply: u64,
}

/// The seeds with which the program signs a directive for a derived address.
#[derive(Clone, Copy, Debug, PartialEq, Eq)]
pub enum SignerSeeds {
    /// The program signs for no address: the caller's signature authorizes.
    Unsigned,
    /// The program signs for the pool derived from the two mints.
    Pool { token_a_mint: Pubkey, token_b_mint: Pubkey, bump: u8 },
    /// The program signs for the LP mint derived from the pool's address.
    LpMint { pool: Pubkey, bump: u8 },
}

/// One request to the token ledger or to the account allocator.
#[derive(Clone, Copy, Debug, PartialEq, Eq)]
pub enum Directive {
    /// Moves `amount` tokens between two token accounts.
    Transfer { from: Pubkey, to: Pubkey, authority: Pubkey, amount: u64, signer: SignerSeeds },
    /// Mints `amount` new tokens of `mint` to `account`.
    MintTo {
        mint: Pubkey,
        account: Pubkey,
        mint_authority: Pubkey,
        amount: u64,
        signer: SignerSeeds,
    },
    /// Burns `amount` tokens of `mint` from `account`.
    Burn { mint: Pubkey, account: Pubkey, authority: Pubkey, amount: u64 },
    /// Creates the account `to` with `space` bytes of data, paid for by
    /// `from` and owned by the program `owner`.
    CreateAccount { from: Pubkey, to: Pubkey, owner: Pubkey, space: u64, signer: SignerSeeds },
    /// Creates the associated token account of `wallet` for `mint`.
    CreateAssociatedTokenAccount {
        funding_account: Pubkey,
        account: Pubkey,
        wallet: Pubkey,
        mint: Pubkey,
        system_program: Pubkey,
        token_program: Pubkey,
    },
}

impl SignerSeeds {
    /// The signing seeds: the seeds that the address was derived from,
    /// followed by the bump.
    pub open spec fn seeds(self) -> Seq<Seq<u8>> {
        match self {
            SignerSeeds::Unsigned => Seq::empty(),
            SignerSeeds::Pool { token_a_mint, token_b_mint, bump } => pool_seeds(
                token_a_mint,
                token_b_mint,
            ).push(seq![bump]),
            SignerSeeds::LpMint { pool, bump } => lp_mint_seeds(pool).push(seq![bump]),
        }
    }

    /// The signing seeds as byte buffers, for the caller to sign with.
    pub fn to_seeds(&self) -> (seeds: Vec<Vec<u8>>)
        ensures
            seed_views(seeds@) == self.seeds(),
    {
        let mut seeds: Vec<Vec<u8>> = Vec::new();
        match self {
            SignerSeeds::Unsigned => {
                assert(seed_views(seeds@) =~= self.seeds());
            },
            SignerSeeds::Pool { token_a_mint, token_b_mint, bump } => {
                seeds.push(vec![112u8, 111, 111, 108]);
                seeds.push(key_seed(token_a_mint));
                seeds.push(key_seed(token_b_mint));
                seeds.push(vec![*bump]);
                assert(seeds@[3]@ =~= seq![*bump]);
                assert(seed_views(seeds@) =~= self.seeds());
            },
            SignerSeeds::LpMint { pool, bump } => {
                seeds.push(vec![108u8, 112, 95, 109, 105, 110, 116]);
                seeds.push(key_seed(pool));
                seeds.push(vec![*bump]);
                assert(seeds@[2]@ =~= seq![*bump]);
                assert(seed_views(seeds@) =~= self.seeds());
            },
        }
        seeds
    }
}

/// The outcome of planning an instruction, with the plan as a sequence.
pub open spec fn plan_view<E>(r: Result<Vec<Directive>, E>) -> Result<Seq<Directive>, E> {
    match r {
        Ok(plan) => Ok(plan@),
        Err(e) => Err(e),
    }
}

} // verus!

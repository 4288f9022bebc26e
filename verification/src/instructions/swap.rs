//! Swap: trades one asset of a pool for the other along the constant-product
//! curve.

use vstd::prelude::*;
use crate::bytes::{read_u64_le, u64_le};
use crate::engine::{quote_swap, rejection, swap_quote};
use crate::error::{PinocchioError, ProgramError};
use crate::instructions::helper::{
    after, associated_token_check, expect_vault, mint_check, signer_check, vault_check,
    AssociatedTokenAccount, AssociatedTokenAccountCheck, InOrder, MintInterface, SignerAccount,
};
use crate::ledger::{plan_view, AccountView, Directive, SignerSeeds, TokenAccountState};
use crate::pubkey::{
    associated_token_address, derived_view, find_pool_address, pool_address, Derived, DerivedView,
};
use crate::states::Pool;

verus! {

/// The accounts of Swap, in the order in which the caller supplies them. A
/// tenth slot follows them; it is reserved and not read.
#[derive(Clone, Copy, Debug, PartialEq, Eq)]
pub struct SwapAccounts {
    pub user: AccountView,
    pub pool: AccountView,
    pub token_a_vault: AccountView,
    pub token_b_vault: AccountView,
    pub user_token_a: AccountView,
    pub user_token_b: AccountView,
    pub token_a_mint: AccountView,
    pub token_b_mint: AccountView,
    pub token_program: AccountView,
}

/// The payload of Swap.
#[derive(Clone, Copy, Debug, PartialEq, Eq)]
pub struct SwapData {
    /// The amount of the input asset that the caller pays in; not zero.
    pub amount_in: u64,
    /// The least amount of the output asset the caller accepts.
    pub min_amount_out: u64,
    /// `true` to trade asset A for asset B, `false` for B to A.
    pub swap_direction: bool,
}

/// A validated Swap request.
#[derive(Clone, Copy, Debug, PartialEq, Eq)]
pub struct Swap {
    pub accounts: SwapAccounts,
    pub data: SwapData,
}

/// What the derivations that Swap makes yield.
#[derive(Clone, Copy, Debug, PartialEq, Eq)]
pub struct SwapAddresses {
    /// The associated address of the pool for asset A.
    pub token_a_vault: Derived,
    /// The associated address of the pool for asset B.
    pub token_b_vault: Derived,
    /// The associated address of the caller for asset A.
    pub user_token_a: Derived,
    /// The associated address of the caller for asset B.
    pub user_token_b: Derived,
    /// The pool address, derived from the two mints.
    pub pool: Derived,
}

/// [`SwapAddresses`] with each address as a list of bytes.
pub struct SwapAddressesView {
    pub token_a_vault: DerivedView,
    pub token_b_vault: DerivedView,
    pub user_token_a: DerivedView,
    pub user_token_b: DerivedView,
    pub pool: DerivedView,
}

impl View for SwapAddresses {
    type V = SwapAddressesView;

    open spec fn view(&self) -> SwapAddressesView {
        SwapAddressesView {
            token_a_vault: derived_view(self.token_a_vault),
            token_b_vault: derived_view(self.token_b_vault),
            user_token_a: derived_view(self.user_token_a),
            user_token_b: derived_view(self.user_token_b),
            pool: derived_view(self.pool),
        }
    }
}

impl SwapAccounts {
    /// The number of account slots of Swap.
    pub const COUNT: usize = 10;

    /// The accounts by their positions.
    pub open spec fn by_position(accounts: Seq<AccountView>) -> Self {
        SwapAccounts {
            user: accounts[0],
            pool: accounts[1],
            token_a_vault: accounts[2],
            token_b_vault: accounts[3],
            user_token_a: accounts[4],
            user_token_b: accounts[5],
            token_a_mint: accounts[6],
            token_b_mint: accounts[7],
            token_program: accounts[8],
        }
    }

    /// What the runtime derives for these accounts.
    pub open spec fn derived(self) -> SwapAddressesView {
        SwapAddressesView {
            token_a_vault: associated_token_address(self.pool.key, self.token_a_mint.key),
            token_b_vault: associated_token_address(self.pool.key, self.token_b_mint.key),
            user_token_a: associated_token_address(self.user.key, self.token_a_mint.key),
            user_token_b: associated_token_address(self.user.key, self.token_b_mint.key),
            pool: pool_address(self.token_a_mint.key, self.token_b_mint.key),
        }
    }

    /// The binding of the accounts, given what the derivations yield:
    /// exactly ten slots, a signing user, two well-formed mints, the two
    /// vaults at the pool's associated addresses and the caller's two token
    /// accounts at the caller's.
    pub open spec fn spec_try_from(accounts: Seq<AccountView>, derived: SwapAddressesView) -> Result<
        Self,
        ProgramError,
    > {
        let bound = Self::by_position(accounts);
        if accounts.len() != Self::COUNT {
            Err(ProgramError::NotEnoughAccountKeys)
        } else {
            after(
                signer_check(bound.user)
                    .followed_by(mint_check(bound.token_a_mint))
                    .followed_by(mint_check(bound.token_b_mint))
                    .followed_by(associated_token_check(bound.token_a_vault, derived.token_a_vault))
                    .followed_by(associated_token_check(bound.token_b_vault, derived.token_b_vault))
                    .followed_by(associated_token_check(bound.user_token_a, derived.user_token_a))
                    .followed_by(associated_token_check(bound.user_token_b, derived.user_token_b)),
                Ok(bound),
            )
        }
    }

    fn positions(accounts: &[AccountView]) -> (bound: Self)
        requires
            accounts@.len() == Self::COUNT,
        ensures
            bound == Self::by_position(accounts@),
    {
        SwapAccounts {
            user: accounts[0],
            pool: accounts[1],
            token_a_vault: accounts[2],
            token_b_vault: accounts[3],
            user_token_a: accounts[4],
            user_token_b: accounts[5],
            token_a_mint: accounts[6],
            token_b_mint: accounts[7],
            token_program: accounts[8],
        }
    }

    /// Binds and validates the accounts of Swap against derivations already
    /// made.
    pub fn try_from_with(accounts: &[AccountView], derived: &SwapAddresses) -> (r: Result<
        Self,
        ProgramError,
    >)
        ensures
            r == Self::spec_try_from(accounts@, derived@),
    {
        if accounts.len() != Self::COUNT {
            return Err(ProgramError::NotEnoughAccountKeys);
        }
        let bound = Self::positions(accounts);
        SignerAccount::check(&bound.user)?;
        MintInterface::check(&bound.token_a_mint)?;
        MintInterface::check(&bound.token_b_mint)?;
        AssociatedTokenAccount::check_with(&bound.token_a_vault, derived.token_a_vault)?;
        AssociatedTokenAccount::check_with(&bound.token_b_vault, derived.token_b_vault)?;
        AssociatedTokenAccount::check_with(&bound.user_token_a, derived.user_token_a)?;
        AssociatedTokenAccount::check_with(&bound.user_token_b, derived.user_token_b)?;
        Ok(bound)
    }

    /// Binds and validates the accounts of Swap.
    pub fn try_from(accounts: &[AccountView]) -> (r: Result<Self, ProgramError>)
        ensures
            r == Self::spec_try_from(accounts@, Self::by_position(accounts@).derived()),
    {
        if accounts.len() != Self::COUNT {
            return Err(ProgramError::NotEnoughAccountKeys);
        }
        let bound = Self::positions(accounts);
        SignerAccount::check(&bound.user)?;
        MintInterface::check(&bound.token_a_mint)?;
        MintInterface::check(&bound.token_b_mint)?;
        AssociatedTokenAccount::check(&bound.token_a_vault, &bound.pool, &bound.token_a_mint)?;
        AssociatedTokenAccount::check(&bound.token_b_vault, &bound.pool, &bound.token_b_mint)?;
        AssociatedTokenAccount::check(&bound.user_token_a, &bound.user, &bound.token_a_mint)?;
        AssociatedTokenAccount::check(&bound.user_token_b, &bound.user, &bound.token_b_mint)?;
        Ok(bound)
    }
}

impl SwapData {
    /// The length of the payload in bytes.
    pub const LEN: usize = 17;

    /// The payload that `data` holds: two little-endian amounts, of which
    /// the amount paid in is not zero, and the direction, which any byte but
    /// zero sets.
    pub open spec fn spec_try_from(data: Seq<u8>) -> Result<Self, ProgramError> {
        if data.len() < Self::LEN {
            Err(ProgramError::InvalidInstructionData)
        } else if u64_le(data, 0) == 0 {
            rejection(PinocchioError::InvalidAmount)
        } else {
            Ok(
                SwapData {
                    amount_in: u64_le(data, 0),
                    min_amount_out: u64_le(data, 8),
                    swap_direction: data[16] != 0,
                },
            )
        }
    }

    /// Decodes and validates the payload of Swap.
    pub fn try_from(data: &[u8]) -> (r: Result<Self, ProgramError>)
        ensures
            r == Self::spec_try_from(data@),
    {
        if data.len() < Self::LEN {
            return Err(ProgramError::InvalidInstructionData);
        }
        let amount_in: u64 = read_u64_le(data, 0);
        if amount_in == 0 {
            return Err(ProgramError::from(PinocchioError::InvalidAmount));
        }
        let min_amount_out: u64 = read_u64_le(data, 8);
        let swap_direction = data[16] != 0;
        Ok(SwapData { amount_in, min_amount_out, swap_direction })
    }
}

impl Swap {
    /// The first byte of a Swap instruction.
    pub const DISCRIMINATOR: u8 = 3;

    /// The validation of a Swap instruction, given what the derivations
    /// yield. A payload that is too short is refused before any account is
    /// looked at; the accounts are bound before the payload is decoded.
    pub open spec fn spec_try_from(
        accounts: Seq<AccountView>,
        data: Seq<u8>,
        derived: SwapAddressesView,
    ) -> Result<Self, ProgramError> {
        if data.len() < SwapData::LEN {
            Err(ProgramError::InvalidInstructionData)
        } else {
            match SwapAccounts::spec_try_from(accounts, derived) {
                Err(e) => Err(e),
                Ok(bound) => match SwapData::spec_try_from(data) {
                    Err(e) => Err(e),
                    Ok(payload) => Ok(Swap { accounts: bound, data: payload }),
                },
            }
        }
    }

    /// The validation of a Swap instruction with the addresses that the
    /// runtime derives.
    pub open spec fn validated(accounts: Seq<AccountView>, data: Seq<u8>) -> Result<
        Self,
        ProgramError,
    > {
        Self::spec_try_from(accounts, data, SwapAccounts::by_position(accounts).derived())
    }

    /// Validates a Swap instruction against derivations already made.
    pub fn try_from_with(
        accounts: &[AccountView],
        data: &[u8],
        derived: &SwapAddresses,
    ) -> (r: Result<Self, ProgramError>)
        ensures
            r == Self::spec_try_from(accounts@, data@, derived@),
    {
        if data.len() < SwapData::LEN {
            return Err(ProgramError::InvalidInstructionData);
        }
        let bound = SwapAccounts::try_from_with(accounts, derived)?;
        let payload = SwapData::try_from(data)?;
        Ok(Swap { accounts: bound, data: payload })
    }

    /// Validates a Swap instruction: the accounts and the payload.
    pub fn try_from(accounts: &[AccountView], data: &[u8]) -> (r: Result<Self, ProgramError>)
        ensures
            r == Self::validated(accounts@, data@),
    {
        if data.len() < SwapData::LEN {
            return Err(ProgramError::InvalidInstructionData);
        }
        let bound = SwapAccounts::try_from(accounts)?;
        let payload = SwapData::try_from(data)?;
        Ok(Swap { accounts: bound, data: payload })
    }

    /// The reserve that the swap pays into.
    pub open spec fn reserve_in(
        self,
        token_a_vault: TokenAccountState,
        token_b_vault: TokenAccountState,
    ) -> u64 {
        if self.data.swap_direction {
            token_a_vault.amount
        } else {
            token_b_vault.amount
        }
    }

    /// The reserve that the swap draws from.
    pub open spec fn reserve_out(
        self,
        token_a_vault: TokenAccountState,
        token_b_vault: TokenAccountState,
    ) -> u64 {
        if self.data.swap_direction {
            token_b_vault.amount
        } else {
            token_a_vault.amount
        }
    }

    /// The seeds with which the program signs for the pool, given its bump.
    pub open spec fn pool_signer(self, bump: u8) -> SignerSeeds {
        SignerSeeds::Pool {
            token_a_mint: self.accounts.token_a_mint.key,
            token_b_mint: self.accounts.token_b_mint.key,
            bump,
        }
    }

    /// The directives of a swap that pays out `amount_out`: the input from
    /// the caller into the input vault, on the caller's authority, then the
    /// output from the output vault to the caller, signed for the pool.
    pub open spec fn swap_plan(self, amount_out: u64, bump: u8) -> Seq<Directive> {
        if self.data.swap_direction {
            seq![
                Directive::Transfer {
                    from: self.accounts.user_token_a.key,
                    to: self.accounts.token_a_vault.key,
                    authority: self.accounts.user.key,
                    amount: self.data.amount_in,
                    signer: SignerSeeds::Unsigned,
                },
                Directive::Transfer {
                    from: self.accounts.token_b_vault.key,
                    to: self.accounts.user_token_b.key,
                    authority: self.accounts.pool.key,
                    amount: amount_out,
                    signer: self.pool_signer(bump),
                },
            ]
        } else {
            seq![
                Directive::Transfer {
                    from: self.accounts.user_token_b.key,
                    to: self.accounts.token_b_vault.key,
                    authority: self.accounts.user.key,
                    amount: self.data.amount_in,
                    signer: SignerSeeds::Unsigned,
                },
                Directive::Transfer {
                    from: self.accounts.token_a_vault.key,
                    to: self.accounts.user_token_a.key,
                    authority: self.accounts.pool.key,
                    amount: amount_out,
                    signer: self.pool_signer(bump),
                },
            ]
        }
    }

    /// The amount that the swap pays out, given the state of the two vaults
    /// and the data of the pool account: both vaults must belong to the pool
    /// and hold their assets, and the data must hold a pool record, whose fee
    /// rate applies.
    pub open spec fn paid_out(
        self,
        token_a_vault: TokenAccountState,
        token_b_vault: TokenAccountState,
        pool_data: Seq<u8>,
    ) -> Result<u64, ProgramError> {
        after(
            vault_check(token_a_vault, self.accounts.pool.key, self.accounts.token_a_mint.key)
                .followed_by(
                    vault_check(token_b_vault, self.accounts.pool.key, self.accounts.token_b_mint.key),
                ),
            if pool_data.len() < Pool::LEN {
                Err(ProgramError::InvalidAccountData)
            } else {
                swap_quote(
                    self.data.amount_in,
                    self.data.min_amount_out,
                    Pool::recorded_fee_rate(pool_data),
                    self.reserve_in(token_a_vault, token_b_vault),
                    self.reserve_out(token_a_vault, token_b_vault),
                )
            },
        )
    }

    /// The outcome of the swap, given what the derivation of the pool's
    /// address yields: its directives, or why it is refused.
    pub open spec fn spec_process(
        self,
        token_a_vault: TokenAccountState,
        token_b_vault: TokenAccountState,
        pool_data: Seq<u8>,
        derived: SwapAddressesView,
    ) -> Result<Seq<Directive>, ProgramError> {
        match self.paid_out(token_a_vault, token_b_vault, pool_data) {
            Err(e) => Err(e),
            Ok(amount_out) => match derived.pool {
                None => Err(ProgramError::InvalidSeeds),
                Some((_, bump)) => Ok(self.swap_plan(amount_out, bump)),
            },
        }
    }

    fn amount_out(
        &self,
        token_a_vault: &TokenAccountState,
        token_b_vault: &TokenAccountState,
        pool_data: &[u8],
    ) -> (r: Result<u64, ProgramError>)
        ensures
            r == self.paid_out(*token_a_vault, *token_b_vault, pool_data@),
    {
        let accounts = &self.accounts;
        expect_vault(token_a_vault, &accounts.pool.key, &accounts.token_a_mint.key)?;
        expect_vault(token_b_vault, &accounts.pool.key, &accounts.token_b_mint.key)?;
        let (reserve_in, reserve_out) = if self.data.swap_direction {
            (token_a_vault.amount, token_b_vault.amount)
        } else {
            (token_b_vault.amount, token_a_vault.amount)
        };
        let pool = Pool::load_mut(pool_data)?;
        quote_swap(
            self.data.amount_in,
            self.data.min_amount_out,
            pool.fee_rate,
            reserve_in,
            reserve_out,
        )
    }

    fn plan(&self, amount_out: u64, pool: Derived) -> (r: Result<Vec<Directive>, ProgramError>)
        ensures
            plan_view(r) == match derived_view(pool) {
                None => Err::<Seq<Directive>, ProgramError>(ProgramError::InvalidSeeds),
                Some((_, bump)) => Ok::<Seq<Directive>, ProgramError>(
                    self.swap_plan(amount_out, bump),
                ),
            },
    {
        let bump: u8 = match pool {
            Some((_, bump)) => bump,
            None => { return Err(ProgramError::InvalidSeeds); },
        };
        let accounts = &self.accounts;
        let signer = SignerSeeds::Pool {
            token_a_mint: accounts.token_a_mint.key,
            token_b_mint: accounts.token_b_mint.key,
            bump,
        };
        let mut plan: Vec<Directive> = Vec::new();
        if self.data.swap_direction {
            plan.push(
                Directive::Transfer {
                    from: accounts.user_token_a.key,
                    to: accounts.token_a_vault.key,
                    authority: accounts.user.key,
                    amount: self.data.amount_in,
                    signer: SignerSeeds::Unsigned,
                },
            );
            plan.push(
                Directive::Transfer {
                    from: accounts.token_b_vault.key,
                    to: accounts.user_token_b.key,
                    authority: accounts.pool.key,
                    amount: amount_out,
                    signer,
                },
            );
        } else {
            plan.push(
                Directive::Transfer {
                    from: accounts.user_token_b.key,
                    to: accounts.token_b_vault.key,
                    authority: accounts.user.key,
                    amount: self.data.amount_in,
                    signer: SignerSeeds::Unsigned,
                },
            );
            plan.push(
                Directive::Transfer {
                    from: accounts.token_a_vault.key,
                    to: accounts.user_token_a.key,
                    authority: accounts.pool.key,
                    amount: amount_out,
                    signer,
                },
            );
        }
        assert(plan@ =~= self.swap_plan(amount_out, bump));
        Ok(plan)
    }

    /// Plans the swap against derivations already made.
    pub fn process_with(
        &self,
        token_a_vault: &TokenAccountState,
        token_b_vault: &TokenAccountState,
        pool_data: &[u8],
        derived: &SwapAddresses,
    ) -> (r: Result<Vec<Directive>, ProgramError>)
        ensures
            plan_view(r) == self.spec_process(*token_a_vault, *token_b_vault, pool_data@, derived@),
    {
        let amount_out: u64 = self.amount_out(token_a_vault, token_b_vault, pool_data)?;
        self.plan(amount_out, derived.pool)
    }

    /// Plans the swap from the state of the two vaults and the data of the
    /// pool account as the ledger holds them now.
    pub fn process(
        &self,
        token_a_vault: &TokenAccountState,
        token_b_vault: &TokenAccountState,
        pool_data: &[u8],
    ) -> (r: Result<Vec<Directive>, ProgramError>)
        ensures
            plan_view(r) == self.spec_process(
                *token_a_vault,
                *token_b_vault,
                pool_data@,
                self.accounts.derived(),
            ),
    {
        let amount_out: u64 = self.amount_out(token_a_vault, token_b_vault, pool_data)?;
        let pool = find_pool_address(
            &self.accounts.token_a_mint.key,
            &self.accounts.token_b_mint.key,
        );
        self.plan(amount_out, pool)
    }
}

/// Swap never commits a swap of nothing: the payload that asks for one is
/// refused, and so is a request of one, whatever the vaults hold, whatever
/// the pool's data are and whatever the derivation yields.
pub proof fn lemma_swap_of_nothing_rejected(
    request: Swap,
    token_a_vault: TokenAccountState,
    token_b_vault: TokenAccountState,
    pool_data: Seq<u8>,
    derived: SwapAddressesView,
    data: Seq<u8>,
)
    ensures
        request.data.amount_in == 0 ==> request.paid_out(token_a_vault, token_b_vault, pool_data)
            is Err && request.spec_process(token_a_vault, token_b_vault, pool_data, derived)
            is Err,
        u64_le(data, 0) == 0 ==> SwapData::spec_try_from(data) is Err,
        data.len() >= SwapData::LEN && u64_le(data, 0) == 0 ==> SwapData::spec_try_from(data)
            == rejection::<SwapData>(PinocchioError::InvalidAmount),
{
}

} // verus!

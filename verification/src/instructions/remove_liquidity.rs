//! RemoveLiquidity: redeems liquidity tokens for a share of both reserves.

use vstd::prelude::*;
use crate::bytes::{read_u64_le, u64_le};
use crate::engine::{quote_withdrawal, withdrawal_quote};
use crate::error::ProgramError;
use crate::instructions::helper::{
    after, associated_token_check, expect_mint_authority, expect_vault, mint_authority_check,
    mint_check, signer_check, vault_check, AssociatedTokenAccount, AssociatedTokenAccountCheck,
    InOrder, MintInterface, SignerAccount,
};
use crate::ledger::{
    plan_view, AccountView, Directive, MintState, SignerSeeds, TokenAccountState,
};
use crate::pubkey::{
    associated_token_address, derived_view, find_pool_address, pool_address, Derived, DerivedView,
};

verus! {

/// The accounts of RemoveLiquidity, in the order in which the caller
/// supplies them. A twelfth slot follows them; it is reserved and not read.
#[derive(Clone, Copy, Debug, PartialEq, Eq)]
pub struct RemoveLiquidityAccounts {
    pub user: AccountView,
    pub pool: AccountView,
    pub lp_mint: AccountView,
    pub token_a_vault: AccountView,
    pub token_b_vault: AccountView,
    pub user_token_a: AccountView,
    pub user_token_b: AccountView,
    pub user_lp_token: AccountView,
    pub token_a_mint: AccountView,
    pub token_b_mint: AccountView,
    pub token_program: AccountView,
}

/// The payload of RemoveLiquidity.
#[derive(Clone, Copy, Debug, PartialEq, Eq)]
pub struct RemoveLiquidityData {
    /// The number of liquidity tokens to redeem.
    pub lp_tokens: u64,
    /// The least amount of asset A the caller accepts.
    pub min_amount_a: u64,
    /// The least amount of asset B the caller accepts.
    pub min_amount_b: u64,
}

/// A validated RemoveLiquidity request.
#[derive(Clone, Copy, Debug, PartialEq, Eq)]
pub struct RemoveLiquidity {
    pub accounts: RemoveLiquidityAccounts,
    pub data: RemoveLiquidityData,
}

/// What the derivations that RemoveLiquidity makes yield.
#[derive(Clone, Copy, Debug, PartialEq, Eq)]
pub struct RemoveLiquidityAddresses {
    /// The associated address of the pool for asset A.
    pub token_a_vault: Derived,
    /// The associated address of the pool for asset B.
    pub token_b_vault: Derived,
    /// The associated address of the caller for asset A.
    pub user_token_a: Derived,
    /// The associated address of the caller for asset B.
    pub user_token_b: Derived,
    /// The associated address of the caller for the liquidity token.
    pub user_lp_token: Derived,
    /// The pool address, derived from the two mints.
    pub pool: Derived,
}

/// [`RemoveLiquidityAddresses`] with each address as a list of bytes.
pub struct RemoveLiquidityAddressesView {
    pub token_a_vault: DerivedView,
    pub token_b_vault: DerivedView,
    pub user_token_a: DerivedView,
    pub user_token_b: DerivedView,
    pub user_lp_token: DerivedView,
    pub pool: DerivedView,
}

impl View for RemoveLiquidityAddresses {
    type V = RemoveLiquidityAddressesView;

    open spec fn view(&self) -> RemoveLiquidityAddressesView {
        RemoveLiquidityAddressesView {
            token_a_vault: derived_view(self.token_a_vault),
            token_b_vault: derived_view(self.token_b_vault),
            user_token_a: derived_view(self.user_token_a),
            user_token_b: derived_view(self.user_token_b),
            user_lp_token: derived_view(self.user_lp_token),
            pool: derived_view(self.pool),
        }
    }
}

impl RemoveLiquidityAccounts {
    /// The number of account slots of RemoveLiquidity.
    pub const COUNT: usize = 12;

    /// The accounts by their positions.
    pub open spec fn by_position(accounts: Seq<AccountView>) -> Self {
        RemoveLiquidityAccounts {
            user: accounts[0],
            pool: accounts[1],
            lp_mint: accounts[2],
            token_a_vault: accounts[3],
            token_b_vault: accounts[4],
            user_token_a: accounts[5],
            user_token_b: accounts[6],
            user_lp_token: accounts[7],
            token_a_mint: accounts[8],
            token_b_mint: accounts[9],
            token_program: accounts[10],
        }
    }

    /// What the runtime derives for these accounts.
    pub open spec fn derived(self) -> RemoveLiquidityAddressesView {
        RemoveLiquidityAddressesView {
            token_a_vault: associated_token_address(self.pool.key, self.token_a_mint.key),
            token_b_vault: associated_token_address(self.pool.key, self.token_b_mint.key),
            user_token_a: associated_token_address(self.user.key, self.token_a_mint.key),
            user_token_b: associated_token_address(self.user.key, self.token_b_mint.key),
            user_lp_token: associated_token_address(self.user.key, self.lp_mint.key),
            pool: pool_address(self.token_a_mint.key, self.token_b_mint.key),
        }
    }

    /// The binding of the accounts, given what the derivations yield:
    /// exactly twelve slots, a signing user, two well-formed mints, the two
    /// vaults at the pool's associated addresses and the caller's three token
    /// accounts at the caller's.
    pub open spec fn spec_try_from(
        accounts: Seq<AccountView>,
        derived: RemoveLiquidityAddressesView,
    ) -> Result<Self, ProgramError> {
        let bound = Self::by_position(accounts);
        if accounts.len() != Self::COUNT {
            Err(ProgramError::NotEnoughAccountKeys)
        } else {
            after(
                signer_check(bound.user)
                    .followed_by(mint_check(bound.token_a_mint))
                    .followed_by(mint_check(bound.token_b_mint))
                    .followed_by(associated_token_check(bound.token_a_vault, derived.token_a_vault))
                    .followed_by(associated_token_check(bound.token_b_vault, derived.token_b_vault))
                    .followed_by(associated_token_check(bound.user_token_a, derived.user_token_a))
                    .followed_by(associated_token_check(bound.user_token_b, derived.user_token_b))
                    .followed_by(associated_token_check(bound.user_lp_token, derived.user_lp_token)),
                Ok(bound),
            )
        }
    }

    fn positions(accounts: &[AccountView]) -> (bound: Self)
        requires
            accounts@.len() == Self::COUNT,
        ensures
            bound == Self::by_position(accounts@),
    {
        RemoveLiquidityAccounts {
            user: accounts[0],
            pool: accounts[1],
            lp_mint: accounts[2],
            token_a_vault: accounts[3],
            token_b_vault: accounts[4],
            user_token_a: accounts[5],
            user_token_b: accounts[6],
            user_lp_token: accounts[7],
            token_a_mint: accounts[8],
            token_b_mint: accounts[9],
            token_program: accounts[10],
        }
    }

    /// Binds and validates the accounts of RemoveLiquidity against
    /// derivations already made.
    pub fn try_from_with(accounts: &[AccountView], derived: &RemoveLiquidityAddresses) -> (r: Result<
        Self,
        ProgramError,
    >)
        ensures
            r == Self::spec_try_from(accounts@, derived@),
    {
        if accounts.len() != Self::COUNT {
            return Err(ProgramError::NotEnoughAccountKeys);
        }
        let bound = Self::positions(accounts);
        SignerAccount::check(&bound.user)?;
        MintInterface::check(&bound.token_a_mint)?;
        MintInterface::check(&bound.token_b_mint)?;
        AssociatedTokenAccount::check_with(&bound.token_a_vault, derived.token_a_vault)?;
        AssociatedTokenAccount::check_with(&bound.token_b_vault, derived.token_b_vault)?;
        AssociatedTokenAccount::check_with(&bound.user_token_a, derived.user_token_a)?;
        AssociatedTokenAccount::check_with(&bound.user_token_b, derived.user_token_b)?;
        AssociatedTokenAccount::check_with(&bound.user_lp_token, derived.user_lp_token)?;
        Ok(bound)
    }

    /// Binds and validates the accounts of RemoveLiquidity.
    pub fn try_from(accounts: &[AccountView]) -> (r: Result<Self, ProgramError>)
        ensures
            r == Self::spec_try_from(accounts@, Self::by_position(accounts@).derived()),
    {
        if accounts.len() != Self::COUNT {
            return Err(ProgramError::NotEnoughAccountKeys);
        }
        let bound = Self::positions(accounts);
        SignerAccount::check(&bound.user)?;
        MintInterface::check(&bound.token_a_mint)?;
        MintInterface::check(&bound.token_b_mint)?;
        AssociatedTokenAccount::check(&bound.token_a_vault, &bound.pool, &bound.token_a_mint)?;
        AssociatedTokenAccount::check(&bound.token_b_vault, &bound.pool, &bound.token_b_mint)?;
        AssociatedTokenAccount::check(&bound.user_token_a, &bound.user, &bound.token_a_mint)?;
        AssociatedTokenAccount::check(&bound.user_token_b, &bound.user, &bound.token_b_mint)?;
        AssociatedTokenAccount::check(&bound.user_lp_token, &bound.user, &bound.lp_mint)?;
        Ok(bound)
    }
}

impl RemoveLiquidityData {
    /// The length of the payload in bytes.
    pub const LEN: usize = 24;

    /// The payload that `data` holds: three little-endian amounts.
    pub open spec fn spec_try_from(data: Seq<u8>) -> Result<Self, ProgramError> {
        if data.len() < Self::LEN {
            Err(ProgramError::InvalidInstructionData)
        } else {
            Ok(
                RemoveLiquidityData {
                    lp_tokens: u64_le(data, 0),
                    min_amount_a: u64_le(data, 8),
                    min_amount_b: u64_le(data, 16),
                },
            )
        }
    }

    /// Decodes the payload of RemoveLiquidity.
    pub fn try_from(data: &[u8]) -> (r: Result<Self, ProgramError>)
        ensures
            r == Self::spec_try_from(data@),
    {
        if data.len() < Self::LEN {
            return Err(ProgramError::InvalidInstructionData);
        }
        let lp_tokens: u64 = read_u64_le(data, 0);
        let min_amount_a: u64 = read_u64_le(data, 8);
        let min_amount_b: u64 = read_u64_le(data, 16);
        Ok(RemoveLiquidityData { lp_tokens, min_amount_a, min_amount_b })
    }
}

impl RemoveLiquidity {
    /// The first byte of a RemoveLiquidity instruction.
    pub const DISCRIMINATOR: u8 = 2;

    /// The validation of a RemoveLiquidity instruction, given what the
    /// derivations yield. The payload is decoded before any account is
    /// looked at.
    pub open spec fn spec_try_from(
        accounts: Seq<AccountView>,
        data: Seq<u8>,
        derived: RemoveLiquidityAddressesView,
    ) -> Result<Self, ProgramError> {
        match RemoveLiquidityData::spec_try_from(data) {
            Err(e) => Err(e),
            Ok(payload) => match RemoveLiquidityAccounts::spec_try_from(accounts, derived) {
                Err(e) => Err(e),
                Ok(bound) => Ok(RemoveLiquidity { accounts: bound, data: payload }),
            },
        }
    }

    /// The validation of a RemoveLiquidity instruction with the addresses
    /// that the runtime derives.
    pub open spec fn validated(accounts: Seq<AccountView>, data: Seq<u8>) -> Result<
        Self,
        ProgramError,
    > {
        Self::spec_try_from(
            accounts,
            data,
            RemoveLiquidityAccounts::by_position(accounts).derived(),
        )
    }

    /// Validates a RemoveLiquidity instruction against derivations already
    /// made.
    pub fn try_from_with(
        accounts: &[AccountView],
        data: &[u8],
        derived: &RemoveLiquidityAddresses,
    ) -> (r: Result<Self, ProgramError>)
        ensures
            r == Self::spec_try_from(accounts@, data@, derived@),
    {
        let payload = RemoveLiquidityData::try_from(data)?;
        let bound = RemoveLiquidityAccounts::try_from_with(accounts, derived)?;
        Ok(RemoveLiquidity { accounts: bound, data: payload })
    }

    /// Validates a RemoveLiquidity instruction: the payload and the
    /// accounts.
    pub fn try_from(accounts: &[AccountView], data: &[u8]) -> (r: Result<Self, ProgramError>)
        ensures
            r == Self::validated(accounts@, data@),
    {
        let payload = RemoveLiquidityData::try_from(data)?;
        let bound = RemoveLiquidityAccounts::try_from(accounts)?;
        Ok(RemoveLiquidity { accounts: bound, data: payload })
    }

    /// The seeds with which the program signs for the pool, given its bump.
    pub open spec fn pool_signer(self, bump: u8) -> SignerSeeds {
        SignerSeeds::Pool {
            token_a_mint: self.accounts.token_a_mint.key,
            token_b_mint: self.accounts.token_b_mint.key,
            bump,
        }
    }

    /// The directives of a redemption that pays out `amount_a` and
    /// `amount_b`: the burn of the caller's liquidity tokens, then each asset
    /// from its vault to the caller, signed for the pool.
    pub open spec fn withdrawal_plan(self, amount_a: u64, amount_b: u64, bump: u8) -> Seq<
        Directive,
    > {
        seq![
            Directive::Burn {
                mint: self.accounts.lp_mint.key,
                account: self.accounts.user_lp_token.key,
                authority: self.accounts.user.key,
                amount: self.data.lp_tokens,
            },
            Directive::Transfer {
                from: self.accounts.token_a_vault.key,
                to: self.accounts.user_token_a.key,
                authority: self.accounts.pool.key,
                amount: amount_a,
                signer: self.pool_signer(bump),
            },
            Directive::Transfer {
                from: self.accounts.token_b_vault.key,
                to: self.accounts.user_token_b.key,
                authority: self.accounts.pool.key,
                amount: amount_b,
                signer: self.pool_signer(bump),
            },
        ]
    }

    /// The amounts that the redemption pays out, given the state of the two
    /// vaults and of the LP mint: both vaults must belong to the pool and
    /// hold their assets, and the pool must be the authority of the LP mint.
    pub open spec fn paid_out(
        self,
        token_a_vault: TokenAccountState,
        token_b_vault: TokenAccountState,
        lp_mint: MintState,
    ) -> Result<(u64, u64), ProgramError> {
        after(
            vault_check(token_a_vault, self.accounts.pool.key, self.accounts.token_a_mint.key)
                .followed_by(
                    vault_check(token_b_vault, self.accounts.pool.key, self.accounts.token_b_mint.key),
                )
                .followed_by(mint_authority_check(lp_mint, self.accounts.pool.key)),
            withdrawal_quote(
                self.data.lp_tokens,
                self.data.min_amount_a,
                self.data.min_amount_b,
                token_a_vault.amount,
                token_b_vault.amount,
                lp_mint.supply,
            ),
        )
    }

    /// The outcome of the redemption, given what the derivation of the
    /// pool's address yields: its directives, or why it is refused.
    pub open spec fn spec_process(
        self,
        token_a_vault: TokenAccountState,
        token_b_vault: TokenAccountState,
        lp_mint: MintState,
        derived: RemoveLiquidityAddressesView,
    ) -> Result<Seq<Directive>, ProgramError> {
        match self.paid_out(token_a_vault, token_b_vault, lp_mint) {
            Err(e) => Err(e),
            Ok((amount_a, amount_b)) => match derived.pool {
                None => Err(ProgramError::InvalidSeeds),
                Some((_, bump)) => Ok(self.withdrawal_plan(amount_a, amount_b, bump)),
            },
        }
    }

    fn amounts(
        &self,
        token_a_vault: &TokenAccountState,
        token_b_vault: &TokenAccountState,
        lp_mint: &MintState,
    ) -> (r: Result<(u64, u64), ProgramError>)
        ensures
            r == self.paid_out(*token_a_vault, *token_b_vault, *lp_mint),
    {
        let accounts = &self.accounts;
        expect_vault(token_a_vault, &accounts.pool.key, &accounts.token_a_mint.key)?;
        expect_vault(token_b_vault, &accounts.pool.key, &accounts.token_b_mint.key)?;
        expect_mint_authority(lp_mint, &accounts.pool.key)?;
        quote_withdrawal(
            self.data.lp_tokens,
            self.data.min_amount_a,
            self.data.min_amount_b,
            token_a_vault.amount,
            token_b_vault.amount,
            lp_mint.supply,
        )
    }

    fn plan(&self, amount_a: u64, amount_b: u64, pool: Derived) -> (r: Result<
        Vec<Directive>,
        ProgramError,
    >)
        ensures
            plan_view(r) == match derived_view(pool) {
                None => Err::<Seq<Directive>, ProgramError>(ProgramError::InvalidSeeds),
                Some((_, bump)) => Ok::<Seq<Directive>, ProgramError>(
                    self.withdrawal_plan(amount_a, amount_b, bump),
                ),
            },
    {
        let bump: u8 = match pool {
            Some((_, bump)) => bump,
            None => { return Err(ProgramError::InvalidSeeds); },
        };
        let accounts = &self.accounts;
        let signer = SignerSeeds::Pool {
            token_a_mint: accounts.token_a_mint.key,
            token_b_mint: accounts.token_b_mint.key,
            bump,
        };
        let mut plan: Vec<Directive> = Vec::new();
        plan.push(
            Directive::Burn {
                mint: accounts.lp_mint.key,
                account: accounts.user_lp_token.key,
                authority: accounts.user.key,
                amount: self.data.lp_tokens,
            },
        );
        plan.push(
            Directive::Transfer {
                from: accounts.token_a_vault.key,
                to: accounts.user_token_a.key,
                authority: accounts.pool.key,
                amount: amount_a,
                signer,
            },
        );
        plan.push(
            Directive::Transfer {
                from: accounts.token_b_vault.key,
                to: accounts.user_token_b.key,
                authority: accounts.pool.key,
                amount: amount_b,
                signer,
            },
        );
        assert(plan@ =~= self.withdrawal_plan(amount_a, amount_b, bump));
        Ok(plan)
    }

    /// Plans the redemption against derivations already made.
    pub fn process_with(
        &self,
        token_a_vault: &TokenAccountState,
        token_b_vault: &TokenAccountState,
        lp_mint: &MintState,
        derived: &RemoveLiquidityAddresses,
    ) -> (r: Result<Vec<Directive>, ProgramError>)
        ensures
            plan_view(r) == self.spec_process(*token_a_vault, *token_b_vault, *lp_mint, derived@),
    {
        let (amount_a, amount_b) = self.amounts(token_a_vault, token_b_vault, lp_mint)?;
        self.plan(amount_a, amount_b, derived.pool)
    }

    /// Plans the redemption from the state of the two vaults and of the LP
    /// mint as the ledger holds them now.
    pub fn process(
        &self,
        token_a_vault: &TokenAccountState,
        token_b_vault: &TokenAccountState,
        lp_mint: &MintState,
    ) -> (r: Result<Vec<Directive>, ProgramError>)
        ensures
            plan_view(r) == self.spec_process(
                *token_a_vault,
                *token_b_vault,
                *lp_mint,
                self.accounts.derived(),
            ),
    {
        let (amount_a, amount_b) = self.amounts(token_a_vault, token_b_vault, lp_mint)?;
        let pool = find_pool_address(
            &self.accounts.token_a_mint.key,
            &self.accounts.token_b_mint.key,
        );
        self.plan(amount_a, amount_b, pool)
    }
}

/// RemoveLiquidity never redeems the whole supply or more: whatever the
/// vaults hold and whatever the derivation yields, such a request is refused.
pub proof fn lemma_full_redemption_rejected(
    request: RemoveLiquidity,
    token_a_vault: TokenAccountState,
    token_b_vault: TokenAccountState,
    lp_mint: MintState,
    derived: RemoveLiquidityAddressesView,
)
    requires
        request.data.lp_tokens >= lp_mint.supply,
    ensures
        request.spec_process(token_a_vault, token_b_vault, lp_mint, derived) is Err,
        request.paid_out(token_a_vault, token_b_vault, lp_mint) is Err,
{
}

} // verus!

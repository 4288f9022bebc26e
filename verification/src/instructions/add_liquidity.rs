//! AddLiquidity: deposits both assets into a pool and mints liquidity tokens.

use vstd::prelude::*;
use crate::bytes::{read_u64_le, u64_le};
use crate::engine::{deposit_quote, quote_deposit, rejection};
use crate::error::{PinocchioError, ProgramError};
use crate::instructions::helper::{
    address_check, after, associated_token_check, creation_if_needed, distinct_mints_check,
    expect_address, expect_distinct_mints, expect_mint_authority, expect_vault,
    mint_authority_check, mint_check, optional, passed, signer_check, vault_check,
    AssociatedTokenAccount, AssociatedTokenAccountCheck, AssociatedTokenAccountInit, InOrder,
    MintInterface, SignerAccount,
};
use crate::ledger::{
    plan_view, AccountView, Directive, MintState, SignerSeeds, TokenAccountState,
};
use crate::pubkey::{
    associated_token_address, derived_view, find_lp_mint_address, find_pool_address,
    lp_mint_address, pool_address, pool_seeds, Derived, DerivedView,
};

verus! {

/// The accounts of AddLiquidity, in the order in which the caller supplies
/// them. A fourteenth slot follows them; it is reserved and not read.
#[derive(Clone, Copy, Debug, PartialEq, Eq)]
pub struct AddLiquidityAccounts {
    pub user: AccountView,
    pub pool: AccountView,
    pub lp_mint: AccountView,
    pub token_a_vault: AccountView,
    pub token_b_vault: AccountView,
    pub user_token_a: AccountView,
    pub user_token_b: AccountView,
    pub user_lp_token: AccountView,
    pub token_a_mint: AccountView,
    pub token_b_mint: AccountView,
    pub token_program: AccountView,
    pub associated_token_program: AccountView,
    pub system_program: AccountView,
}

/// The payload of AddLiquidity.
#[derive(Clone, Copy, Debug, PartialEq, Eq)]
pub struct AddLiquidityData {
    /// The amount of asset A to deposit; not zero.
    pub amount_a: u64,
    /// The amount of asset B to deposit; not zero.
    pub amount_b: u64,
    /// The least number of liquidity tokens the caller accepts.
    pub min_lp_amount: u64,
}

/// A validated AddLiquidity request.
#[derive(Clone, Copy, Debug, PartialEq, Eq)]
pub struct AddLiquidity {
    pub accounts: AddLiquidityAccounts,
    pub data: AddLiquidityData,
    /// The bump of the pool's address.
    pub pool_bump: u8,
    /// The bump of the LP mint's address.
    pub lp_mint_bump: u8,
}

/// What the derivations that AddLiquidity makes yield.
#[derive(Clone, Copy, Debug, PartialEq, Eq)]
pub struct AddLiquidityAddresses {
    /// The associated address of the pool for asset A.
    pub token_a_vault: Derived,
    /// The associated address of the pool for asset B.
    pub token_b_vault: Derived,
    /// The LP-mint address, derived from the address of the pool account.
    pub lp_mint: Derived,
    /// The pool address, derived from the two mints.
    pub pool: Derived,
    /// The associated address of the caller for asset A.
    pub user_token_a: Derived,
    /// The associated address of the caller for asset B.
    pub user_token_b: Derived,
    /// The associated address of the caller for the liquidity token.
    pub user_lp_token: Derived,
}

/// [`AddLiquidityAddresses`] with each address as a list of bytes.
pub struct AddLiquidityAddressesView {
    pub token_a_vault: DerivedView,
    pub token_b_vault: DerivedView,
    pub lp_mint: DerivedView,
    pub pool: DerivedView,
    pub user_token_a: DerivedView,
    pub user_token_b: DerivedView,
    pub user_lp_token: DerivedView,
}

impl View for AddLiquidityAddresses {
    type V = AddLiquidityAddressesView;

    open spec fn view(&self) -> AddLiquidityAddressesView {
        AddLiquidityAddressesView {
            token_a_vault: derived_view(self.token_a_vault),
            token_b_vault: derived_view(self.token_b_vault),
            lp_mint: derived_view(self.lp_mint),
            pool: derived_view(self.pool),
            user_token_a: derived_view(self.user_token_a),
            user_token_b: derived_view(self.user_token_b),
            user_lp_token: derived_view(self.user_lp_token),
        }
    }
}

impl AddLiquidityAccounts {
    /// The number of account slots of AddLiquidity.
    pub const COUNT: usize = 14;

    /// The accounts by their positions.
    pub open spec fn by_position(accounts: Seq<AccountView>) -> Self {
        AddLiquidityAccounts {
            user: accounts[0],
            pool: accounts[1],
            lp_mint: accounts[2],
            token_a_vault: accounts[3],
            token_b_vault: accounts[4],
            user_token_a: accounts[5],
            user_token_b: accounts[6],
            user_lp_token: accounts[7],
            token_a_mint: accounts[8],
            token_b_mint: accounts[9],
            token_program: accounts[10],
            associated_token_program: accounts[11],
            system_program: accounts[12],
        }
    }

    /// What the runtime derives for these accounts.
    pub open spec fn derived(self) -> AddLiquidityAddressesView {
        AddLiquidityAddressesView {
            token_a_vault: associated_token_address(self.pool.key, self.token_a_mint.key),
            token_b_vault: associated_token_address(self.pool.key, self.token_b_mint.key),
            lp_mint: lp_mint_address(self.pool.key),
            pool: pool_address(self.token_a_mint.key, self.token_b_mint.key),
            user_token_a: associated_token_address(self.user.key, self.token_a_mint.key),
            user_token_b: associated_token_address(self.user.key, self.token_b_mint.key),
            user_lp_token: associated_token_address(self.user.key, self.lp_mint.key),
        }
    }

    /// The binding of the accounts, given what the derivations yield:
    /// exactly fourteen slots, a signing user, two well-formed mints, the
    /// two vaults at the pool's associated addresses, the LP mint and the
    /// pool at their derived addresses, and two distinct mints.
    pub open spec fn spec_try_from(
        accounts: Seq<AccountView>,
        derived: AddLiquidityAddressesView,
    ) -> Result<Self, ProgramError> {
        let bound = Self::by_position(accounts);
        if accounts.len() != Self::COUNT {
            Err(ProgramError::NotEnoughAccountKeys)
        } else {
            after(
                signer_check(bound.user)
                    .followed_by(mint_check(bound.token_a_mint))
                    .followed_by(mint_check(bound.token_b_mint))
                    .followed_by(associated_token_check(bound.token_a_vault, derived.token_a_vault))
                    .followed_by(associated_token_check(bound.token_b_vault, derived.token_b_vault))
                    .followed_by(passed(address_check(bound.lp_mint.key, derived.lp_mint)))
                    .followed_by(passed(address_check(bound.pool.key, derived.pool)))
                    .followed_by(
                        distinct_mints_check(bound.token_a_mint.key, bound.token_b_mint.key),
                    ),
                Ok(bound),
            )
        }
    }

    fn positions(accounts: &[AccountView]) -> (bound: Self)
        requires
            accounts@.len() == Self::COUNT,
        ensures
            bound == Self::by_position(accounts@),
    {
        AddLiquidityAccounts {
            user: accounts[0],
            pool: accounts[1],
            lp_mint: accounts[2],
            token_a_vault: accounts[3],
            token_b_vault: accounts[4],
            user_token_a: accounts[5],
            user_token_b: accounts[6],
            user_lp_token: accounts[7],
            token_a_mint: accounts[8],
            token_b_mint: accounts[9],
            token_program: accounts[10],
            associated_token_program: accounts[11],
            system_program: accounts[12],
        }
    }

    /// Binds and validates the accounts of AddLiquidity against derivations
    /// already made.
    pub fn try_from_with(accounts: &[AccountView], derived: &AddLiquidityAddresses) -> (r: Result<
        Self,
        ProgramError,
    >)
        ensures
            r == Self::spec_try_from(accounts@, derived@),
    {
        if accounts.len() != Self::COUNT {
            return Err(ProgramError::NotEnoughAccountKeys);
        }
        let bound = Self::positions(accounts);
        SignerAccount::check(&bound.user)?;
        MintInterface::check(&bound.token_a_mint)?;
        MintInterface::check(&bound.token_b_mint)?;
        AssociatedTokenAccount::check_with(&bound.token_a_vault, derived.token_a_vault)?;
        AssociatedTokenAccount::check_with(&bound.token_b_vault, derived.token_b_vault)?;
        expect_address(&bound.lp_mint.key, derived.lp_mint)?;
        expect_address(&bound.pool.key, derived.pool)?;
        expect_distinct_mints(&bound.token_a_mint.key, &bound.token_b_mint.key)?;
        Ok(bound)
    }

    /// Binds and validates the accounts of AddLiquidity.
    pub fn try_from(accounts: &[AccountView]) -> (r: Result<Self, ProgramError>)
        ensures
            r == Self::spec_try_from(accounts@, Self::by_position(accounts@).derived()),
    {
        if accounts.len() != Self::COUNT {
            return Err(ProgramError::NotEnoughAccountKeys);
        }
        let bound = Self::positions(accounts);
        SignerAccount::check(&bound.user)?;
        MintInterface::check(&bound.token_a_mint)?;
        MintInterface::check(&bound.token_b_mint)?;
        AssociatedTokenAccount::check(&bound.token_a_vault, &bound.pool, &bound.token_a_mint)?;
        AssociatedTokenAccount::check(&bound.token_b_vault, &bound.pool, &bound.token_b_mint)?;
        expect_address(&bound.lp_mint.key, find_lp_mint_address(&bound.pool.key))?;
        expect_address(
            &bound.pool.key,
            find_pool_address(&bound.token_a_mint.key, &bound.token_b_mint.key),
        )?;
        expect_distinct_mints(&bound.token_a_mint.key, &bound.token_b_mint.key)?;
        Ok(bound)
    }
}

impl AddLiquidityData {
    /// The length of the payload in bytes.
    pub const LEN: usize = 24;

    /// The payload that `data` holds: three little-endian amounts, of which
    /// the first two are not zero.
    pub open spec fn spec_try_from(data: Seq<u8>) -> Result<Self, ProgramError> {
        if data.len() < Self::LEN {
            Err(ProgramError::InvalidInstructionData)
        } else if u64_le(data, 0) == 0 || u64_le(data, 8) == 0 {
            rejection(PinocchioError::InvalidAmount)
        } else {
            Ok(
                AddLiquidityData {
                    amount_a: u64_le(data, 0),
                    amount_b: u64_le(data, 8),
                    min_lp_amount: u64_le(data, 16),
                },
            )
        }
    }

    /// Decodes and validates the payload of AddLiquidity.
    pub fn try_from(data: &[u8]) -> (r: Result<Self, ProgramError>)
        ensures
            r == Self::spec_try_from(data@),
    {
        if data.len() < Self::LEN {
            return Err(ProgramError::InvalidInstructionData);
        }
        let amount_a: u64 = read_u64_le(data, 0);
        let amount_b: u64 = read_u64_le(data, 8);
        let min_lp_amount: u64 = read_u64_le(data, 16);
        if amount_a == 0 || amount_b == 0 {
            return Err(ProgramError::from(PinocchioError::InvalidAmount));
        }
        Ok(AddLiquidityData { amount_a, amount_b, min_lp_amount })
    }
}

impl AddLiquidity {
    /// The first byte of an AddLiquidity instruction.
    pub const DISCRIMINATOR: u8 = 1;

    /// The request made of bound accounts, a decoded payload and the bumps
    /// of the derivations of the pool and LP-mint addresses.
    pub open spec fn assembled(
        accounts: AddLiquidityAccounts,
        data: AddLiquidityData,
        lp_mint: DerivedView,
        pool: DerivedView,
    ) -> Result<Self, ProgramError> {
        match (pool, lp_mint) {
            (Some((_, pool_bump)), Some((_, lp_mint_bump))) => Ok(
                AddLiquidity { accounts, data, pool_bump, lp_mint_bump },
            ),
            _ => Err(ProgramError::InvalidSeeds),
        }
    }

    /// The validation of an AddLiquidity instruction, given what the
    /// derivations yield. A payload that is too short is refused before any
    /// account is looked at; the accounts are bound before the payload is
    /// decoded.
    pub open spec fn spec_try_from(
        accounts: Seq<AccountView>,
        data: Seq<u8>,
        derived: AddLiquidityAddressesView,
    ) -> Result<Self, ProgramError> {
        if data.len() < AddLiquidityData::LEN {
            Err(ProgramError::InvalidInstructionData)
        } else {
            match AddLiquidityAccounts::spec_try_from(accounts, derived) {
                Err(e) => Err(e),
                Ok(bound) => match AddLiquidityData::spec_try_from(data) {
                    Err(e) => Err(e),
                    Ok(payload) => Self::assembled(bound, payload, derived.lp_mint, derived.pool),
                },
            }
        }
    }

    /// The validation of an AddLiquidity instruction with the addresses that
    /// the runtime derives.
    pub open spec fn validated(accounts: Seq<AccountView>, data: Seq<u8>) -> Result<
        Self,
        ProgramError,
    > {
        Self::spec_try_from(accounts, data, AddLiquidityAccounts::by_position(accounts).derived())
    }

    fn assemble(
        accounts: AddLiquidityAccounts,
        data: AddLiquidityData,
        lp_mint: Derived,
        pool: Derived,
    ) -> (r: Result<Self, ProgramError>)
        ensures
            r == Self::assembled(accounts, data, derived_view(lp_mint), derived_view(pool)),
    {
        let pool_bump: u8 = match pool {
            Some((_, bump)) => bump,
            None => { return Err(ProgramError::InvalidSeeds); },
        };
        let lp_mint_bump: u8 = match lp_mint {
            Some((_, bump)) => bump,
            None => { return Err(ProgramError::InvalidSeeds); },
        };
        Ok(AddLiquidity { accounts, data, pool_bump, lp_mint_bump })
    }

    /// Validates an AddLiquidity instruction against derivations already
    /// made.
    pub fn try_from_with(
        accounts: &[AccountView],
        data: &[u8],
        derived: &AddLiquidityAddresses,
    ) -> (r: Result<Self, ProgramError>)
        ensures
            r == Self::spec_try_from(accounts@, data@, derived@),
    {
        if data.len() < AddLiquidityData::LEN {
            return Err(ProgramError::InvalidInstructionData);
        }
        let bound = AddLiquidityAccounts::try_from_with(accounts, derived)?;
        let payload = AddLiquidityData::try_from(data)?;
        Self::assemble(bound, payload, derived.lp_mint, derived.pool)
    }

    /// Validates an AddLiquidity instruction: the accounts, the payload, and
    /// the bumps of the pool and LP-mint addresses.
    pub fn try_from(accounts: &[AccountView], data: &[u8]) -> (r: Result<Self, ProgramError>)
        ensures
            r == Self::validated(accounts@, data@),
    {
        if data.len() < AddLiquidityData::LEN {
            return Err(ProgramError::InvalidInstructionData);
        }
        let bound = AddLiquidityAccounts::try_from(accounts)?;
        let payload = AddLiquidityData::try_from(data)?;
        let pool = find_pool_address(&bound.token_a_mint.key, &bound.token_b_mint.key);
        let lp_mint = find_lp_mint_address(&bound.pool.key);
        Self::assemble(bound, payload, lp_mint, pool)
    }

    /// Whether the caller's token account for `mint` has to be created.
    pub open spec fn user_account_creation(
        self,
        account: AccountView,
        mint: AccountView,
        derived: DerivedView,
    ) -> Result<Option<Directive>, ProgramError> {
        creation_if_needed(
            account,
            mint,
            self.accounts.user,
            self.accounts.user,
            self.accounts.system_program,
            self.accounts.token_program,
            derived,
        )
    }

    /// The caller's token accounts to create before the deposit, given what
    /// the derivations yield: those for asset A, asset B and the liquidity
    /// token that do not pass the associated-account check, in this order.
    pub open spec fn setup_plan(self, derived: AddLiquidityAddressesView) -> Result<
        Seq<Directive>,
        ProgramError,
    > {
        match self.user_account_creation(
            self.accounts.user_token_a,
            self.accounts.token_a_mint,
            derived.user_token_a,
        ) {
            Err(e) => Err(e),
            Ok(for_a) => match self.user_account_creation(
                self.accounts.user_token_b,
                self.accounts.token_b_mint,
                derived.user_token_b,
            ) {
                Err(e) => Err(e),
                Ok(for_b) => match self.user_account_creation(
                    self.accounts.user_lp_token,
                    self.accounts.lp_mint,
                    derived.user_lp_token,
                ) {
                    Err(e) => Err(e),
                    Ok(for_lp) => Ok(optional(for_a) + optional(for_b) + optional(for_lp)),
                },
            },
        }
    }

    /// Plans the creation of the caller's token accounts against derivations
    /// already made.
    pub fn setup_with(&self, derived: &AddLiquidityAddresses) -> (r: Result<
        Vec<Directive>,
        ProgramError,
    >)
        ensures
            plan_view(r) == self.setup_plan(derived@),
    {
        let accounts = &self.accounts;
        let for_a = AssociatedTokenAccount::init_if_needed_with(
            &accounts.user_token_a,
            &accounts.token_a_mint,
            &accounts.user,
            &accounts.user,
            &accounts.system_program,
            &accounts.token_program,
            derived.user_token_a,
        )?;
        let for_b = AssociatedTokenAccount::init_if_needed_with(
            &accounts.user_token_b,
            &accounts.token_b_mint,
            &accounts.user,
            &accounts.user,
            &accounts.system_program,
            &accounts.token_program,
            derived.user_token_b,
        )?;
        let for_lp = AssociatedTokenAccount::init_if_needed_with(
            &accounts.user_lp_token,
            &accounts.lp_mint,
            &accounts.user,
            &accounts.user,
            &accounts.system_program,
            &accounts.token_program,
            derived.user_lp_token,
        )?;
        Ok(collect(for_a, for_b, for_lp))
    }

    /// Plans the creation of the caller's token accounts.
    pub fn setup(&self) -> (r: Result<Vec<Directive>, ProgramError>)
        ensures
            plan_view(r) == self.setup_plan(self.accounts.derived()),
    {
        let accounts = &self.accounts;
        let for_a = AssociatedTokenAccount::init_if_needed(
            &accounts.user_token_a,
            &accounts.token_a_mint,
            &accounts.user,
            &accounts.user,
            &accounts.system_program,
            &accounts.token_program,
        )?;
        let for_b = AssociatedTokenAccount::init_if_needed(
            &accounts.user_token_b,
            &accounts.token_b_mint,
            &accounts.user,
            &accounts.user,
            &accounts.system_program,
            &accounts.token_program,
        )?;
        let for_lp = AssociatedTokenAccount::init_if_needed(
            &accounts.user_lp_token,
            &accounts.lp_mint,
            &accounts.user,
            &accounts.user,
            &accounts.system_program,
            &accounts.token_program,
        )?;
        Ok(collect(for_a, for_b, for_lp))
    }

    /// The seeds with which the program signs for the pool, the only
    /// authority of the LP mint.
    pub open spec fn pool_signer(self) -> SignerSeeds {
        SignerSeeds::Pool {
            token_a_mint: self.accounts.token_a_mint.key,
            token_b_mint: self.accounts.token_b_mint.key,
            bump: self.pool_bump,
        }
    }

    /// The directives of a deposit that mints `minted` liquidity tokens:
    /// asset A into its vault and asset B into its vault, on the caller's
    /// authority, then the mint, signed for the pool.
    pub open spec fn deposit_plan(self, minted: u64) -> Seq<Directive> {
        seq![
            Directive::Transfer {
                from: self.accounts.user_token_a.key,
                to: self.accounts.token_a_vault.key,
                authority: self.accounts.user.key,
                amount: self.data.amount_a,
                signer: SignerSeeds::Unsigned,
            },
            Directive::Transfer {
                from: self.accounts.user_token_b.key,
                to: self.accounts.token_b_vault.key,
                authority: self.accounts.user.key,
                amount: self.data.amount_b,
                signer: SignerSeeds::Unsigned,
            },
            Directive::MintTo {
                mint: self.accounts.lp_mint.key,
                account: self.accounts.user_lp_token.key,
                mint_authority: self.accounts.pool.key,
                amount: minted,
                signer: self.pool_signer(),
            },
        ]
    }

    /// The liquidity tokens that the deposit mints, given the state of the
    /// two vaults and of the LP mint: both vaults must belong to the pool and
    /// hold their assets, and the pool must be the authority of the LP mint.
    pub open spec fn minted(
        self,
        token_a_vault: TokenAccountState,
        token_b_vault: TokenAccountState,
        lp_mint: MintState,
    ) -> Result<u64, ProgramError> {
        after(
            vault_check(token_a_vault, self.accounts.pool.key, self.accounts.token_a_mint.key)
                .followed_by(
                    vault_check(token_b_vault, self.accounts.pool.key, self.accounts.token_b_mint.key),
                )
                .followed_by(mint_authority_check(lp_mint, self.accounts.pool.key)),
            deposit_quote(
                self.data.amount_a,
                self.data.amount_b,
                self.data.min_lp_amount,
                token_a_vault.amount,
                token_b_vault.amount,
                lp_mint.supply,
            ),
        )
    }

    /// The outcome of the deposit: its directives, or why it is refused.
    pub open spec fn spec_process(
        self,
        token_a_vault: TokenAccountState,
        token_b_vault: TokenAccountState,
        lp_mint: MintState,
    ) -> Result<Seq<Directive>, ProgramError> {
        match self.minted(token_a_vault, token_b_vault, lp_mint) {
            Err(e) => Err(e),
            Ok(minted) => Ok(self.deposit_plan(minted)),
        }
    }

    /// Plans the deposit from the state of the two vaults and of the LP mint
    /// as the ledger holds them now.
    pub fn process(
        &self,
        token_a_vault: &TokenAccountState,
        token_b_vault: &TokenAccountState,
        lp_mint: &MintState,
    ) -> (r: Result<Vec<Directive>, ProgramError>)
        ensures
            plan_view(r) == self.spec_process(*token_a_vault, *token_b_vault, *lp_mint),
    {
        let accounts = &self.accounts;
        expect_vault(token_a_vault, &accounts.pool.key, &accounts.token_a_mint.key)?;
        expect_vault(token_b_vault, &accounts.pool.key, &accounts.token_b_mint.key)?;
        expect_mint_authority(lp_mint, &accounts.pool.key)?;
        let minted: u64 = quote_deposit(
            self.data.amount_a,
            self.data.amount_b,
            self.data.min_lp_amount,
            token_a_vault.amount,
            token_b_vault.amount,
            lp_mint.supply,
        )?;
        let mut plan: Vec<Directive> = Vec::new();
        plan.push(
            Directive::Transfer {
                from: accounts.user_token_a.key,
                to: accounts.token_a_vault.key,
                authority: accounts.user.key,
                amount: self.data.amount_a,
                signer: SignerSeeds::Unsigned,
            },
        );
        plan.push(
            Directive::Transfer {
                from: accounts.user_token_b.key,
                to: accounts.token_b_vault.key,
                authority: accounts.user.key,
                amount: self.data.amount_b,
                signer: SignerSeeds::Unsigned,
            },
        );
        plan.push(
            Directive::MintTo {
                mint: accounts.lp_mint.key,
                account: accounts.user_lp_token.key,
                mint_authority: accounts.pool.key,
                amount: minted,
                signer: SignerSeeds::Pool {
                    token_a_mint: accounts.token_a_mint.key,
                    token_b_mint: accounts.token_b_mint.key,
                    bump: self.pool_bump,
                },
            },
        );
        assert(plan@ =~= self.deposit_plan(minted));
        Ok(plan)
    }
}

fn collect(
    for_a: Option<Directive>,
    for_b: Option<Directive>,
    for_lp: Option<Directive>,
) -> (plan: Vec<Directive>)
    ensures
        plan@ == optional(for_a) + optional(for_b) + optional(for_lp),
{
    let mut plan: Vec<Directive> = Vec::new();
    if let Some(directive) = for_a {
        plan.push(directive);
    }
    if let Some(directive) = for_b {
        plan.push(directive);
    }
    if let Some(directive) = for_lp {
        plan.push(directive);
    }
    assert(plan@ =~= optional(for_a) + optional(for_b) + optional(for_lp));
    plan
}

/// A validated AddLiquidity request names a pool and an LP mint at their
/// derived addresses, two vaults at the pool's associated addresses and two
/// distinct mints, carries the bumps of the two derivations, and deposits
/// something of both assets.
pub proof fn lemma_bound_accounts_are_canonical(
    accounts: Seq<AccountView>,
    data: Seq<u8>,
    derived: AddLiquidityAddressesView,
)
    requires
        AddLiquidity::spec_try_from(accounts, data, derived) is Ok,
    ensures
        ({
            let request = AddLiquidity::spec_try_from(accounts, data, derived)->Ok_0;
            &&& request.accounts == AddLiquidityAccounts::by_position(accounts)
            &&& request.accounts.user.is_signer
            &&& request.accounts.token_a_mint.key != request.accounts.token_b_mint.key
            &&& derived.pool == Some((request.accounts.pool.key@, request.pool_bump))
            &&& derived.lp_mint == Some((request.accounts.lp_mint.key@, request.lp_mint_bump))
            &&& derived.token_a_vault matches Some((address, _)) && address
                == request.accounts.token_a_vault.key@
            &&& derived.token_b_vault matches Some((address, _)) && address
                == request.accounts.token_b_vault.key@
            &&& request.data.amount_a > 0 && request.data.amount_b > 0
        }),
{
}

/// The mint of a deposit is authorized by the pool's seeds alone: the third
/// and last directive mints to the caller on the authority of the pool, and
/// is signed with the seeds of the pool's address followed by the bump that
/// the request carries. For a validated request that bump is the one of the
/// derivation, and the pool account is at the derived address.
pub proof fn lemma_mint_is_signed_for_the_pool(
    accounts: Seq<AccountView>,
    data: Seq<u8>,
    derived: AddLiquidityAddressesView,
    token_a_vault: TokenAccountState,
    token_b_vault: TokenAccountState,
    lp_mint: MintState,
)
    requires
        AddLiquidity::spec_try_from(accounts, data, derived) is Ok,
    ensures
        ({
            let request = AddLiquidity::spec_try_from(accounts, data, derived)->Ok_0;
            let mints = (request.accounts.token_a_mint.key, request.accounts.token_b_mint.key);
            &&& derived.pool == Some((request.accounts.pool.key@, request.pool_bump))
            &&& request.pool_signer().seeds() == pool_seeds(mints.0, mints.1).push(
                seq![request.pool_bump],
            )
            &&& request.spec_process(token_a_vault, token_b_vault, lp_mint) matches Ok(plan) ==> {
                &&& plan.len() == 3
                &&& plan[2] matches Directive::MintTo { mint, account, mint_authority, signer, .. }
                &&& mint == request.accounts.lp_mint.key
                &&& account == request.accounts.user_lp_token.key
                &&& mint_authority == request.accounts.pool.key
                &&& signer == request.pool_signer()
            }
        }),
{
}

/// A pool is bound to its mints in their order, as far as the derivation
/// tells the two orders apart: where the address derived for the mints as
/// the accounts name them is not the address of the pool account, the
/// accounts are refused. So are the accounts of a pool that name its two
/// mints in exchanged order, wherever the exchanged pair derives another
/// address than the pool's.
pub proof fn lemma_pool_is_bound_to_ordered_mints(
    accounts: Seq<AccountView>,
    derived: AddLiquidityAddressesView,
)
    requires
        derived.pool matches Some((address, _)) ==> address != AddLiquidityAccounts::by_position(
            accounts,
        ).pool.key@,
    ensures
        AddLiquidityAccounts::spec_try_from(accounts, derived) is Err,
{
}

} // verus!

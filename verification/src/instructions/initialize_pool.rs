//! Initialize: creates a pool for an ordered pair of distinct mints.

use vstd::prelude::*;
use crate::bytes::{read_u16_le, u16_le};
use crate::engine::{rejection, FEE_DENOMINATOR};
use crate::error::{PinocchioError, ProgramError};
use crate::instructions::helper::{
    after, create_account_directive, create_associated_directive, distinct_mints_check,
    expect_distinct_mints, mint_check, signer_check, AssociatedTokenAccount,
    AssociatedTokenAccountInit, InOrder, MintInterface, ProgramAccount, ProgramAccountInit,
    SignerAccount, MINT_LEN,
};
use crate::ledger::{AccountView, Directive, SignerSeeds};
use crate::pubkey::{
    derived_view, find_lp_mint_address, find_pool_address, lp_mint_address, pool_address, Derived,
    DerivedView,
};
use crate::states::Pool;

verus! {

/// The accounts of Initialize, in the order in which the caller supplies
/// them. A thirteenth slot follows them; it is reserved and not read.
#[derive(Clone, Copy, Debug, PartialEq, Eq)]
pub struct InitializePoolAccounts {
    pub authority: AccountView,
    pub pool: AccountView,
    pub token_a_mint: AccountView,
    pub token_b_mint: AccountView,
    pub token_a_vault: AccountView,
    pub token_b_vault: AccountView,
    pub lp_mint: AccountView,
    pub token_a_program: AccountView,
    pub token_b_program: AccountView,
    pub token_program: AccountView,
    pub system_program: AccountView,
    pub associated_token_program: AccountView,
}

/// The payload of Initialize.
#[derive(Clone, Copy, Debug, PartialEq, Eq)]
pub struct InitializePoolData {
    /// The swap fee in basis points, at most 10000.
    pub fee_rate: u16,
}

/// A validated Initialize request.
#[derive(Clone, Copy, Debug, PartialEq, Eq)]
pub struct InitializePool {
    pub accounts: InitializePoolAccounts,
    pub data: InitializePoolData,
    /// The bump of the pool address derived from the two mints.
    pub pool_bump: u8,
    /// The bump of the LP-mint address derived from the pool's address.
    pub lp_mint_bump: u8,
}

/// What the derivations that Initialize makes yield.
#[derive(Clone, Copy, Debug, PartialEq, Eq)]
pub struct InitializePoolAddresses {
    /// The pool address, derived from the two mints.
    pub pool: Derived,
    /// The LP-mint address, derived from the address of the pool account.
    pub lp_mint: Derived,
}

/// [`InitializePoolAddresses`] with each address as a list of bytes.
pub struct InitializePoolAddressesView {
    pub pool: DerivedView,
    pub lp_mint: DerivedView,
}

impl View for InitializePoolAddresses {
    type V = InitializePoolAddressesView;

    open spec fn view(&self) -> InitializePoolAddressesView {
        InitializePoolAddressesView {
            pool: derived_view(self.pool),
            lp_mint: derived_view(self.lp_mint),
        }
    }
}

impl InitializePoolAccounts {
    /// The number of account slots of Initialize.
    pub const COUNT: usize = 13;

    /// The accounts by their positions.
    pub open spec fn by_position(accounts: Seq<AccountView>) -> Self {
        InitializePoolAccounts {
            authority: accounts[0],
            pool: accounts[1],
            token_a_mint: accounts[2],
            token_b_mint: accounts[3],
            token_a_vault: accounts[4],
            token_b_vault: accounts[5],
            lp_mint: accounts[6],
            token_a_program: accounts[7],
            token_b_program: accounts[8],
            token_program: accounts[9],
            system_program: accounts[10],
            associated_token_program: accounts[11],
        }
    }

    /// What the runtime derives for these accounts.
    pub open spec fn derived(self) -> InitializePoolAddressesView {
        InitializePoolAddressesView {
            pool: pool_address(self.token_a_mint.key, self.token_b_mint.key),
            lp_mint: lp_mint_address(self.pool.key),
        }
    }

    /// The binding of the accounts: exactly thirteen slots, a signing
    /// authority, two well-formed and distinct mints.
    pub open spec fn spec_try_from(accounts: Seq<AccountView>) -> Result<Self, ProgramError> {
        let bound = Self::by_position(accounts);
        if accounts.len() != Self::COUNT {
            Err(ProgramError::NotEnoughAccountKeys)
        } else {
            after(
                signer_check(bound.authority)
                    .followed_by(mint_check(bound.token_a_mint))
                    .followed_by(mint_check(bound.token_b_mint))
                    .followed_by(
                        distinct_mints_check(bound.token_a_mint.key, bound.token_b_mint.key),
                    ),
                Ok(bound),
            )
        }
    }

    /// Binds and validates the accounts of Initialize.
    pub fn try_from(accounts: &[AccountView]) -> (r: Result<Self, ProgramError>)
        ensures
            r == Self::spec_try_from(accounts@),
    {
        if accounts.len() != Self::COUNT {
            return Err(ProgramError::NotEnoughAccountKeys);
        }
        let bound = InitializePoolAccounts {
            authority: accounts[0],
            pool: accounts[1],
            token_a_mint: accounts[2],
            token_b_mint: accounts[3],
            token_a_vault: accounts[4],
            token_b_vault: accounts[5],
            lp_mint: accounts[6],
            token_a_program: accounts[7],
            token_b_program: accounts[8],
            token_program: accounts[9],
            system_program: accounts[10],
            associated_token_program: accounts[11],
        };
        SignerAccount::check(&bound.authority)?;
        MintInterface::check(&bound.token_a_mint)?;
        MintInterface::check(&bound.token_b_mint)?;
        expect_distinct_mints(&bound.token_a_mint.key, &bound.token_b_mint.key)?;
        Ok(bound)
    }
}

impl InitializePoolData {
    /// The length of the payload in bytes.
    pub const LEN: usize = 2;

    /// The payload that `data` holds: a little-endian fee rate of at most
    /// 10000 basis points.
    pub open spec fn spec_try_from(data: Seq<u8>) -> Result<Self, ProgramError> {
        if data.len() < Self::LEN {
            Err(ProgramError::InvalidInstructionData)
        } else if u16_le(data, 0) > FEE_DENOMINATOR {
            rejection(PinocchioError::InvalidFeeRate)
        } else {
            Ok(InitializePoolData { fee_rate: u16_le(data, 0) })
        }
    }

    /// Decodes and validates the payload of Initialize.
    pub fn try_from(data: &[u8]) -> (r: Result<Self, ProgramError>)
        ensures
            r == Self::spec_try_from(data@),
    {
        if data.len() < Self::LEN {
            return Err(ProgramError::InvalidInstructionData);
        }
        let fee_rate: u16 = read_u16_le(data, 0);
        if fee_rate > FEE_DENOMINATOR {
            return Err(ProgramError::from(PinocchioError::InvalidFeeRate));
        }
        Ok(InitializePoolData { fee_rate })
    }
}

impl InitializePool {
    /// The first byte of an Initialize instruction.
    pub const DISCRIMINATOR: u8 = 0;

    /// The request made of bound accounts, a decoded payload and the bumps
    /// of the two derivations. A derivation that found no address is
    /// refused.
    pub open spec fn assembled(
        accounts: InitializePoolAccounts,
        data: InitializePoolData,
        derived: InitializePoolAddressesView,
    ) -> Result<Self, ProgramError> {
        match (derived.pool, derived.lp_mint) {
            (Some((_, pool_bump)), Some((_, lp_mint_bump))) => Ok(
                InitializePool { accounts, data, pool_bump, lp_mint_bump },
            ),
            _ => Err(ProgramError::InvalidSeeds),
        }
    }

    /// The validation of an Initialize instruction, given what the
    /// derivations yield. A payload that is too short is refused before any
    /// account is looked at; the accounts are bound before the payload is
    /// decoded.
    pub open spec fn spec_try_from(
        accounts: Seq<AccountView>,
        data: Seq<u8>,
        derived: InitializePoolAddressesView,
    ) -> Result<Self, ProgramError> {
        if data.len() < InitializePoolData::LEN {
            Err(ProgramError::InvalidInstructionData)
        } else {
            match InitializePoolAccounts::spec_try_from(accounts) {
                Err(e) => Err(e),
                Ok(bound) => match InitializePoolData::spec_try_from(data) {
                    Err(e) => Err(e),
                    Ok(payload) => Self::assembled(bound, payload, derived),
                },
            }
        }
    }

    /// The validation of an Initialize instruction with the addresses that
    /// the runtime derives.
    pub open spec fn validated(accounts: Seq<AccountView>, data: Seq<u8>) -> Result<
        Self,
        ProgramError,
    > {
        Self::spec_try_from(accounts, data, InitializePoolAccounts::by_position(accounts).derived())
    }

    fn assemble(
        accounts: InitializePoolAccounts,
        data: InitializePoolData,
        derived: &InitializePoolAddresses,
    ) -> (r: Result<Self, ProgramError>)
        ensures
            r == Self::assembled(accounts, data, derived@),
    {
        let pool_bump: u8 = match derived.pool {
            Some((_, bump)) => bump,
            None => { return Err(ProgramError::InvalidSeeds); },
        };
        let lp_mint_bump: u8 = match derived.lp_mint {
            Some((_, bump)) => bump,
            None => { return Err(ProgramError::InvalidSeeds); },
        };
        Ok(InitializePool { accounts, data, pool_bump, lp_mint_bump })
    }

    /// Validates an Initialize instruction against derivations already made.
    pub fn try_from_with(
        accounts: &[AccountView],
        data: &[u8],
        derived: &InitializePoolAddresses,
    ) -> (r: Result<Self, ProgramError>)
        ensures
            r == Self::spec_try_from(accounts@, data@, derived@),
    {
        if data.len() < InitializePoolData::LEN {
            return Err(ProgramError::InvalidInstructionData);
        }
        let bound = InitializePoolAccounts::try_from(accounts)?;
        let payload = InitializePoolData::try_from(data)?;
        Self::assemble(bound, payload, derived)
    }

    /// Validates an Initialize instruction: the accounts, the payload, and
    /// the bumps of the pool address derived from the two mints and of the
    /// LP-mint address derived from the pool's address.
    pub fn try_from(accounts: &[AccountView], data: &[u8]) -> (r: Result<Self, ProgramError>)
        ensures
            r == Self::validated(accounts@, data@),
    {
        if data.len() < InitializePoolData::LEN {
            return Err(ProgramError::InvalidInstructionData);
        }
        let bound = InitializePoolAccounts::try_from(accounts)?;
        let payload = InitializePoolData::try_from(data)?;
        let derived = InitializePoolAddresses {
            pool: find_pool_address(&bound.token_a_mint.key, &bound.token_b_mint.key),
            lp_mint: find_lp_mint_address(&bound.pool.key),
        };
        Self::assemble(bound, payload, &derived)
    }

    /// The seeds with which the program signs for the pool's address.
    pub open spec fn pool_signer(self) -> SignerSeeds {
        SignerSeeds::Pool {
            token_a_mint: self.accounts.token_a_mint.key,
            token_b_mint: self.accounts.token_b_mint.key,
            bump: self.pool_bump,
        }
    }

    /// The seeds with which the program signs for the LP mint's address.
    pub open spec fn lp_mint_signer(self) -> SignerSeeds {
        SignerSeeds::LpMint { pool: self.accounts.pool.key, bump: self.lp_mint_bump }
    }

    /// The accounts to create before the record is written: the pool
    /// record, the LP mint and the two vaults, in this order. The authority
    /// pays for all four; the vaults are the pool's associated token
    /// accounts.
    pub open spec fn setup_plan(self) -> Seq<Directive> {
        seq![
            create_account_directive(
                self.accounts.authority,
                self.accounts.pool,
                self.pool_signer(),
                Pool::LEN,
            ),
            create_account_directive(
                self.accounts.authority,
                self.accounts.lp_mint,
                self.lp_mint_signer(),
                MINT_LEN,
            ),
            create_associated_directive(
                self.accounts.token_a_vault,
                self.accounts.token_a_mint,
                self.accounts.authority,
                self.accounts.pool,
                self.accounts.system_program,
                self.accounts.token_program,
            ),
            create_associated_directive(
                self.accounts.token_b_vault,
                self.accounts.token_b_mint,
                self.accounts.authority,
                self.accounts.pool,
                self.accounts.system_program,
                self.accounts.token_program,
            ),
        ]
    }

    /// The record of the new pool: the validated inputs and the bumps,
    /// verbatim.
    pub open spec fn record(self) -> Pool {
        Pool {
            authority: self.accounts.authority.key,
            token_a_mint: self.accounts.token_a_mint.key,
            token_b_mint: self.accounts.token_b_mint.key,
            token_a_vault: self.accounts.token_a_vault.key,
            token_b_vault: self.accounts.token_b_vault.key,
            lp_mint: self.accounts.lp_mint.key,
            fee_rate: self.data.fee_rate,
            bump: self.pool_bump,
            lp_mint_bump: self.lp_mint_bump,
        }
    }

    /// Plans the creation of the pool's accounts.
    pub fn setup(&self) -> (plan: Vec<Directive>)
        ensures
            plan@ == self.setup_plan(),
    {
        let accounts = &self.accounts;
        let pool_signer = SignerSeeds::Pool {
            token_a_mint: accounts.token_a_mint.key,
            token_b_mint: accounts.token_b_mint.key,
            bump: self.pool_bump,
        };
        let lp_mint_signer = SignerSeeds::LpMint {
            pool: accounts.pool.key,
            bump: self.lp_mint_bump,
        };
        let mut plan: Vec<Directive> = Vec::new();
        plan.push(ProgramAccount::init(&accounts.authority, &accounts.pool, pool_signer, Pool::LEN));
        plan.push(
            ProgramAccount::init(&accounts.authority, &accounts.lp_mint, lp_mint_signer, MINT_LEN),
        );
        plan.push(
            AssociatedTokenAccount::init(
                &accounts.token_a_vault,
                &accounts.token_a_mint,
                &accounts.authority,
                &accounts.pool,
                &accounts.system_program,
                &accounts.token_program,
            ),
        );
        plan.push(
            AssociatedTokenAccount::init(
                &accounts.token_b_vault,
                &accounts.token_b_mint,
                &accounts.authority,
                &accounts.pool,
                &accounts.system_program,
                &accounts.token_program,
            ),
        );
        assert(plan@ =~= self.setup_plan());
        plan
    }

    /// Writes the record of the new pool over the first 196 bytes of the
    /// pool account's data. Data shorter than a record is refused, unchanged.
    pub fn process(&self, pool_data: &mut Vec<u8>) -> (r: Result<(), ProgramError>)
        ensures
            old(pool_data)@.len() < Pool::LEN ==> r == Err::<(), ProgramError>(
                ProgramError::InvalidAccountData,
            ) && final(pool_data)@ == old(pool_data)@,
            old(pool_data)@.len() >= Pool::LEN ==> r == Ok::<(), ProgramError>(())
                && final(pool_data)@ == self.record().encoding() + old(pool_data)@.subrange(
                Pool::LEN as int,
                old(pool_data)@.len() as int,
            ),
    {
        let mut pool = Pool::load_mut(pool_data.as_slice())?;
        pool.set_inner_full(
            self.accounts.authority.key,
            self.accounts.token_a_mint.key,
            self.accounts.token_b_mint.key,
            self.accounts.token_a_vault.key,
            self.accounts.token_b_vault.key,
            self.accounts.lp_mint.key,
            self.data.fee_rate,
            self.pool_bump,
            self.lp_mint_bump,
        );
        pool.store(pool_data)
    }
}

/// Initialize accepts a payload of two bytes or more exactly when its fee
/// rate is between 0 and 10000, and refuses any other fee rate as invalid.
pub proof fn lemma_fee_rate_accepted(data: Seq<u8>)
    requires
        data.len() >= InitializePoolData::LEN,
    ensures
        InitializePoolData::spec_try_from(data) is Ok <==> 0 <= u16_le(data, 0) <= 10000,
        InitializePoolData::spec_try_from(data) matches Ok(payload) ==> payload.fee_rate == u16_le(
            data,
            0,
        ),
        u16_le(data, 0) > 10000 ==> InitializePoolData::spec_try_from(data) == rejection::<
            InitializePoolData,
        >(PinocchioError::InvalidFeeRate),
{
}

/// Initialize never binds a pool whose two mints are the same account: it
/// refuses them, and with `IdenticalMints` where the checks before pass.
pub proof fn lemma_identical_mints_rejected(accounts: Seq<AccountView>)
    requires
        accounts[2].key == accounts[3].key,
    ensures
        InitializePoolAccounts::spec_try_from(accounts) is Err,
        accounts.len() == InitializePoolAccounts::COUNT && accounts[0].is_signer
            && accounts[2].data_len == MINT_LEN && accounts[3].data_len == MINT_LEN
            ==> InitializePoolAccounts::spec_try_from(accounts) == rejection::<
            InitializePoolAccounts,
        >(PinocchioError::IdenticalMints),
{
}

/// The record of a validated Initialize request is well formed: its mints
/// differ and its fee is at most the whole. Its bumps are those of the two
/// derivations, so where the pool account and the LP mint are at the
/// addresses that the runtime derives, the record is stored where its mints
/// say.
pub proof fn lemma_initialized_record(
    accounts: Seq<AccountView>,
    data: Seq<u8>,
    derived: InitializePoolAddressesView,
)
    requires
        InitializePool::spec_try_from(accounts, data, derived) is Ok,
    ensures
        ({
            let request = InitializePool::spec_try_from(accounts, data, derived)->Ok_0;
            &&& request.record().wf()
            &&& request.accounts == InitializePoolAccounts::by_position(accounts)
            &&& request.data.fee_rate == u16_le(data, 0)
            &&& derived.pool matches Some((_, bump)) && bump == request.record().bump
            &&& derived.lp_mint matches Some((_, bump)) && bump == request.record().lp_mint_bump
            &&& derived == request.accounts.derived() && (derived.pool matches Some((address, _))
                && address == request.accounts.pool.key@) && (derived.lp_mint matches Some(
                (address, _),
            ) && address == request.accounts.lp_mint.key@) ==> request.record().stored_at(
                request.accounts.pool.key,
            )
        }),
{
}

} // verus!

//! The account validators and the directives that create accounts. Every
//! instruction binds its accounts through these checks, in a fixed order,
//! before it computes anything.

use vstd::prelude::*;
use crate::engine::rejection;
use crate::error::{PinocchioError, ProgramError};
use crate::ledger::{AccountView, Directive, MintState, SignerSeeds, TokenAccountState};
use crate::pubkey::{
    associated_token_address, derived_view, find_associated_token_address, keys_equal,
    lemma_key_is_its_bytes, Derived, DerivedView, Pubkey, ID, TOKEN_PROGRAM_ID,
};

verus! {

/// The length of a mint's data in bytes.
pub const MINT_LEN: usize = 82;

/// The length of a token account's data in bytes.
pub const TOKEN_ACCOUNT_LEN: usize = 165;

/// The signer check: the account must have signed the transaction.
pub open spec fn signer_check(account: AccountView) -> Result<(), ProgramError> {
    if account.is_signer {
        Ok(())
    } else {
        rejection(PinocchioError::Unauthorized)
    }
}

/// The mint check: the account's data must have the length of a mint.
pub open spec fn mint_check(account: AccountView) -> Result<(), ProgramError> {
    if account.data_len == MINT_LEN {
        Ok(())
    } else {
        Err(ProgramError::InvalidAccountData)
    }
}

/// The token-account check: the account must be owned by the token program
/// and its data must have the length of a token account.
pub open spec fn token_account_check(account: AccountView) -> Result<(), ProgramError> {
    if account.owner != TOKEN_PROGRAM_ID {
        Err(ProgramError::IllegalOwner)
    } else if account.data_len != TOKEN_ACCOUNT_LEN {
        Err(ProgramError::InvalidAccountData)
    } else {
        Ok(())
    }
}

/// The address check: `key` must be the derived address. It yields the bump
/// of the derivation.
pub open spec fn address_check(key: Pubkey, derived: DerivedView) -> Result<u8, ProgramError> {
    match derived {
        None => Err(ProgramError::InvalidSeeds),
        Some((address, bump)) => if address == key@ {
            Ok(bump)
        } else {
            Err(ProgramError::InvalidAccountData)
        },
    }
}

/// The associated-account check: a token account at the address derived for
/// its owner and mint.
pub open spec fn associated_token_check(account: AccountView, derived: DerivedView) -> Result<
    (),
    ProgramError,
> {
    after(token_account_check(account), passed(address_check(account.key, derived)))
}

/// The identical-mint check: the two assets of a pool must differ.
pub open spec fn distinct_mints_check(token_a_mint: Pubkey, token_b_mint: Pubkey) -> Result<
    (),
    ProgramError,
> {
    if token_a_mint == token_b_mint {
        rejection(PinocchioError::IdenticalMints)
    } else {
        Ok(())
    }
}

/// The outcome `rest` of what follows a check: the check's own error where
/// it fails.
pub open spec fn after<T>(check: Result<(), ProgramError>, rest: Result<T, ProgramError>) -> Result<
    T,
    ProgramError,
> {
    match check {
        Err(e) => Err(e),
        Ok(_) => rest,
    }
}

/// Checks made in order: a chain of checks fails with the first error.
pub trait InOrder {
    /// This check, and `next` where this one passes.
    spec fn followed_by(self, next: Result<(), ProgramError>) -> Result<(), ProgramError>;
}

impl InOrder for Result<(), ProgramError> {
    open spec fn followed_by(self, next: Result<(), ProgramError>) -> Result<(), ProgramError> {
        after(self, next)
    }
}

/// A check that passed, whatever it yielded.
pub open spec fn passed<T>(check: Result<T, ProgramError>) -> Result<(), ProgramError> {
    match check {
        Err(e) => Err(e),
        Ok(_) => Ok(()),
    }
}

/// The vault check: the vault must belong to the pool and hold the asset.
pub open spec fn vault_check(vault: TokenAccountState, pool: Pubkey, mint: Pubkey) -> Result<
    (),
    ProgramError,
> {
    if vault.owner != pool || vault.mint != mint {
        Err(ProgramError::InvalidAccountData)
    } else {
        Ok(())
    }
}

/// The LP-mint check: only the pool may mint liquidity tokens.
pub open spec fn mint_authority_check(lp_mint: MintState, pool: Pubkey) -> Result<(), ProgramError> {
    if lp_mint.mint_authority != Some(pool) {
        Err(ProgramError::InvalidAccountData)
    } else {
        Ok(())
    }
}

/// The directives of a decision: none or one.
pub open spec fn optional(directive: Option<Directive>) -> Seq<Directive> {
    match directive {
        Some(d) => seq![d],
        None => Seq::empty(),
    }
}

/// The directive that creates a program-owned account at a derived address.
pub open spec fn create_account_directive(
    payer: AccountView,
    account: AccountView,
    seeds: SignerSeeds,
    space: usize,
) -> Directive {
    Directive::CreateAccount {
        from: payer.key,
        to: account.key,
        owner: ID,
        space: space as u64,
        signer: seeds,
    }
}

/// The directive that creates an associated token account.
pub open spec fn create_associated_directive(
    ata: AccountView,
    mint: AccountView,
    authority: AccountView,
    owner: AccountView,
    system_program: AccountView,
    token_program: AccountView,
) -> Directive {
    Directive::CreateAssociatedTokenAccount {
        funding_account: authority.key,
        account: ata.key,
        wallet: owner.key,
        mint: mint.key,
        system_program: system_program.key,
        token_program: token_program.key,
    }
}

/// Whether an associated token account has to be created first: `None`
/// where the account passes the associated-account check, the directive
/// that creates it where it does not. A derivation that finds no address is
/// an error.
pub open spec fn creation_if_needed(
    ata: AccountView,
    mint: AccountView,
    authority: AccountView,
    owner: AccountView,
    system_program: AccountView,
    token_program: AccountView,
    derived: DerivedView,
) -> Result<Option<Directive>, ProgramError> {
    let create = create_associated_directive(
        ata,
        mint,
        authority,
        owner,
        system_program,
        token_program,
    );
    if token_account_check(ata) is Err {
        Ok(Some(create))
    } else {
        match derived {
            None => Err(ProgramError::InvalidSeeds),
            Some((address, _)) => if address == ata.key@ {
                Ok(None)
            } else {
                Ok(Some(create))
            },
        }
    }
}

/// Checks that `key` is the derived address and yields the bump.
pub fn expect_address(key: &Pubkey, derived: Derived) -> (r: Result<u8, ProgramError>)
    ensures
        r == address_check(*key, derived_view(derived)),
{
    match derived {
        None => Err(ProgramError::InvalidSeeds),
        Some((address, bump)) => {
            proof {
                lemma_key_is_its_bytes(address, *key);
            }
            if keys_equal(&address, key) {
                Ok(bump)
            } else {
                Err(ProgramError::InvalidAccountData)
            }
        },
    }
}

/// Checks that the two assets of a pool differ.
pub fn expect_distinct_mints(token_a_mint: &Pubkey, token_b_mint: &Pubkey) -> (r: Result<
    (),
    ProgramError,
>)
    ensures
        r == distinct_mints_check(*token_a_mint, *token_b_mint),
{
    if keys_equal(token_a_mint, token_b_mint) {
        return Err(ProgramError::from(PinocchioError::IdenticalMints));
    }
    Ok(())
}

/// Checks that `vault` belongs to `pool` and holds `mint`.
pub fn expect_vault(vault: &TokenAccountState, pool: &Pubkey, mint: &Pubkey) -> (r: Result<
    (),
    ProgramError,
>)
    ensures
        r == vault_check(*vault, *pool, *mint),
{
    if !keys_equal(&vault.owner, pool) || !keys_equal(&vault.mint, mint) {
        return Err(ProgramError::InvalidAccountData);
    }
    Ok(())
}

/// Checks that `pool` is the mint authority of `lp_mint`.
pub fn expect_mint_authority(lp_mint: &MintState, pool: &Pubkey) -> (r: Result<(), ProgramError>)
    ensures
        r == mint_authority_check(*lp_mint, *pool),
{
    match lp_mint.mint_authority {
        Some(authority) => {
            if keys_equal(&authority, pool) {
                Ok(())
            } else {
                Err(ProgramError::InvalidAccountData)
            }
        },
        None => Err(ProgramError::InvalidAccountData),
    }
}

/// The signer check.
pub struct SignerAccount;

/// The mint check.
pub struct MintInterface;

/// A check of one account on its own.
pub trait AccountCheck {
    /// What the check decides of an account.
    spec fn spec_check(account: AccountView) -> Result<(), ProgramError>;

    /// Checks the account.
    fn check(account: &AccountView) -> (r: Result<(), ProgramError>)
        ensures
            r == Self::spec_check(*account),
    ;
}

/// The creation of an account that the program owns.
pub trait ProgramAccountInit {
    /// The directive that creates the account.
    spec fn spec_init(
        payer: AccountView,
        account: AccountView,
        seeds: SignerSeeds,
        space: usize,
    ) -> Directive;

    /// The directive that creates `account` with `space` bytes, paid for by
    /// `payer` and signed for with `seeds`.
    fn init(payer: &AccountView, account: &AccountView, seeds: SignerSeeds, space: usize) -> (r:
        Directive)
        ensures
            r == Self::spec_init(*payer, *account, seeds, space),
    ;
}

/// The check of an account against the owner and mint it is associated
/// with.
pub trait AssociatedTokenAccountCheck {
    /// What the check decides of an account.
    spec fn spec_check(account: AccountView, authority: AccountView, mint: AccountView) -> Result<
        (),
        ProgramError,
    >;

    /// Checks that `account` is the token account of `authority` for
    /// `mint`.
    fn check(account: &AccountView, authority: &AccountView, mint: &AccountView) -> (r: Result<
        (),
        ProgramError,
    >)
        ensures
            r == Self::spec_check(*account, *authority, *mint),
    ;
}

/// The creation of an associated token account.
pub trait AssociatedTokenAccountInit {
    /// The directive that creates the account.
    spec fn spec_init(
        ata: AccountView,
        mint: AccountView,
        authority: AccountView,
        owner: AccountView,
        system_program: AccountView,
        token_program: AccountView,
    ) -> Directive;

    /// Whether the account has to be created first, and by which directive.
    spec fn spec_init_if_needed(
        ata: AccountView,
        mint: AccountView,
        authority: AccountView,
        owner: AccountView,
        system_program: AccountView,
        token_program: AccountView,
    ) -> Result<Option<Directive>, ProgramError>;

    /// The directive that creates the associated token account `ata` of
    /// `owner` for `mint`, paid for by `authority`.
    fn init(
        ata: &AccountView,
        mint: &AccountView,
        authority: &AccountView,
        owner: &AccountView,
        system_program: &AccountView,
        token_program: &AccountView,
    ) -> (r: Directive)
        ensures
            r == Self::spec_init(
                *ata,
                *mint,
                *authority,
                *owner,
                *system_program,
                *token_program,
            ),
    ;

    /// Decides whether `ata` has to be created.
    fn init_if_needed(
        ata: &AccountView,
        mint: &AccountView,
        authority: &AccountView,
        owner: &AccountView,
        system_program: &AccountView,
        token_program: &AccountView,
    ) -> (r: Result<Option<Directive>, ProgramError>)
        ensures
            r == Self::spec_init_if_needed(
                *ata,
                *mint,
                *authority,
                *owner,
                *system_program,
                *token_program,
            ),
    ;
}

/// Creates the accounts that the program owns.
pub struct ProgramAccount;

/// Checks token accounts.
pub struct TokenAccount;

/// Checks and creates associated token accounts.
pub struct AssociatedTokenAccount;

impl SignerAccount {
    /// The signer check: refuses an account that has not signed.
    pub fn check(account: &AccountView) -> (r: Result<(), ProgramError>)
        ensures
            r == signer_check(*account),
    {
        if !account.is_signer {
            return Err(ProgramError::from(PinocchioError::Unauthorized));
        }
        Ok(())
    }
}

impl MintInterface {
    /// The mint check: refuses an account whose data is not as long as a
    /// mint.
    pub fn check(account: &AccountView) -> (r: Result<(), ProgramError>)
        ensures
            r == mint_check(*account),
    {
        if account.data_len != MINT_LEN {
            return Err(ProgramError::InvalidAccountData);
        }
        Ok(())
    }
}

impl ProgramAccountInit for ProgramAccount {
    /// The account is created under this program.
    open spec fn spec_init(
        payer: AccountView,
        account: AccountView,
        seeds: SignerSeeds,
        space: usize,
    ) -> Directive {
        create_account_directive(payer, account, seeds, space)
    }

    fn init(payer: &AccountView, account: &AccountView, seeds: SignerSeeds, space: usize) -> (r:
        Directive) {
        Directive::CreateAccount {
            from: payer.key,
            to: account.key,
            owner: ID,
            space: space as u64,
            signer: seeds,
        }
    }
}

impl AccountCheck for TokenAccount {
    /// The token-account check: an account that the token program does not
    /// own is refused, then one whose data is not as long as a token
    /// account.
    open spec fn spec_check(account: AccountView) -> Result<(), ProgramError> {
        token_account_check(account)
    }

    fn check(account: &AccountView) -> (r: Result<(), ProgramError>) {
        if !keys_equal(&account.owner, &TOKEN_PROGRAM_ID) {
            return Err(ProgramError::IllegalOwner);
        }
        if account.data_len != TOKEN_ACCOUNT_LEN {
            return Err(ProgramError::InvalidAccountData);
        }
        Ok(())
    }
}

impl AssociatedTokenAccount {
    /// The associated-account check against a derivation already made.
    pub fn check_with(account: &AccountView, derived: Derived) -> (r: Result<(), ProgramError>)
        ensures
            r == associated_token_check(*account, derived_view(derived)),
    {
        TokenAccount::check(account)?;
        match expect_address(&account.key, derived) {
            Ok(_) => Ok(()),
            Err(e) => Err(e),
        }
    }

    /// Decides against a derivation already made whether `ata` has to be
    /// created.
    pub fn init_if_needed_with(
        ata: &AccountView,
        mint: &AccountView,
        authority: &AccountView,
        owner: &AccountView,
        system_program: &AccountView,
        token_program: &AccountView,
        derived: Derived,
    ) -> (r: Result<Option<Directive>, ProgramError>)
        ensures
            r == creation_if_needed(
                *ata,
                *mint,
                *authority,
                *owner,
                *system_program,
                *token_program,
                derived_view(derived),
            ),
    {
        if TokenAccount::check(ata).is_err() {
            return Ok(Some(Self::init(ata, mint, authority, owner, system_program, token_program)));
        }
        match derived {
            None => Err(ProgramError::InvalidSeeds),
            Some((address, _)) => {
                proof {
                    lemma_key_is_its_bytes(address, ata.key);
                }
                if keys_equal(&address, &ata.key) {
                    Ok(None)
                } else {
                    Ok(Some(Self::init(ata, mint, authority, owner, system_program, token_program)))
                }
            },
        }
    }
}

impl AssociatedTokenAccountCheck for AssociatedTokenAccount {
    /// The associated-account check: `account` must be the token account at
    /// the address that the runtime derives for `authority` and `mint`.
    open spec fn spec_check(account: AccountView, authority: AccountView, mint: AccountView) -> Result<
        (),
        ProgramError,
    > {
        associated_token_check(account, associated_token_address(authority.key, mint.key))
    }

    fn check(account: &AccountView, authority: &AccountView, mint: &AccountView) -> (r: Result<
        (),
        ProgramError,
    >) {
        TokenAccount::check(account)?;
        let derived = find_associated_token_address(&authority.key, &mint.key);
        match expect_address(&account.key, derived) {
            Ok(_) => Ok(()),
            Err(e) => Err(e),
        }
    }
}

impl AssociatedTokenAccountInit for AssociatedTokenAccount {
    open spec fn spec_init(
        ata: AccountView,
        mint: AccountView,
        authority: AccountView,
        owner: AccountView,
        system_program: AccountView,
        token_program: AccountView,
    ) -> Directive {
        create_associated_directive(ata, mint, authority, owner, system_program, token_program)
    }

    /// `ata` has to be created unless it passes the associated-account
    /// check for `authority` and `mint`.
    open spec fn spec_init_if_needed(
        ata: AccountView,
        mint: AccountView,
        authority: AccountView,
        owner: AccountView,
        system_program: AccountView,
        token_program: AccountView,
    ) -> Result<Option<Directive>, ProgramError> {
        creation_if_needed(
            ata,
            mint,
            authority,
            owner,
            system_program,
            token_program,
            associated_token_address(authority.key, mint.key),
        )
    }

    fn init(
        ata: &AccountView,
        mint: &AccountView,
        authority: &AccountView,
        owner: &AccountView,
        system_program: &AccountView,
        token_program: &AccountView,
    ) -> (r: Directive) {
        Directive::CreateAssociatedTokenAccount {
            funding_account: authority.key,
            account: ata.key,
            wallet: owner.key,
            mint: mint.key,
            system_program: system_program.key,
            token_program: token_program.key,
        }
    }

    fn init_if_needed(
        ata: &AccountView,
        mint: &AccountView,
        authority: &AccountView,
        owner: &AccountView,
        system_program: &AccountView,
        token_program: &AccountView,
    ) -> (r: Result<Option<Directive>, ProgramError>) {
        if TokenAccount::check(ata).is_err() {
            return Ok(Some(Self::init(ata, mint, authority, owner, system_program, token_program)));
        }
        let derived = find_associated_token_address(&authority.key, &mint.key);
        Self::init_if_needed_with(
            ata,
            mint,
            authority,
            owner,
            system_program,
            token_program,
            derived,
        )
    }
}

} // verus!

use pinocchio_amm::instructions::helper::{
    expect_address, expect_distinct_mints, expect_mint_authority, expect_vault, MINT_LEN,
    TOKEN_ACCOUNT_LEN,
};
use pinocchio_amm::pubkey::TOKEN_PROGRAM_ID;
use pinocchio_amm::{
    AccountCheck, AccountView, AssociatedTokenAccount, AssociatedTokenAccountCheck,
    AssociatedTokenAccountInit, Directive, MintInterface, MintState, PinocchioError,
    ProgramAccount, ProgramAccountInit, ProgramError, Pubkey, SignerAccount, SignerSeeds,
    TokenAccount, TokenAccountState, ID,
};

fn key(tag: u8) -> Pubkey {
    [tag; 32]
}

fn account(tag: u8) -> AccountView {
    AccountView { key: key(tag), owner: key(0xee), is_signer: false, data_len: 0 }
}

fn token_account(tag: u8) -> AccountView {
    AccountView {
        key: key(tag),
        owner: pinocchio_token::ID,
        is_signer: false,
        data_len: pinocchio_token::state::TokenAccount::LEN,
    }
}

#[test]
fn record_lengths_are_those_of_the_token_program() {
    assert_eq!(MINT_LEN, pinocchio_token::state::Mint::LEN);
    assert_eq!(TOKEN_ACCOUNT_LEN, pinocchio_token::state::TokenAccount::LEN);
    assert_eq!(MINT_LEN, 82);
    assert_eq!(TOKEN_ACCOUNT_LEN, 165);
}

#[test]
fn signer_check_wants_a_signature() {
    let mut user = account(1);
    assert_eq!(SignerAccount::check(&user), Err(ProgramError::from(PinocchioError::Unauthorized)));
    user.is_signer = true;
    assert_eq!(SignerAccount::check(&user), Ok(()));
}

#[test]
fn mint_check_wants_the_length_of_a_mint() {
    let mut mint = account(1);
    for len in [0usize, 81, 83, 165] {
        mint.data_len = len;
        assert_eq!(MintInterface::check(&mint), Err(ProgramError::InvalidAccountData));
    }
    mint.data_len = 82;
    assert_eq!(MintInterface::check(&mint), Ok(()));
}

#[test]
fn token_account_check_wants_owner_and_length() {
    let mut vault = token_account(1);
    assert_eq!(TokenAccount::check(&vault), Ok(()));
    vault.data_len = 164;
    assert_eq!(TokenAccount::check(&vault), Err(ProgramError::InvalidAccountData));
    vault.owner = ID;
    assert_eq!(TokenAccount::check(&vault), Err(ProgramError::IllegalOwner));
    vault.data_len = 165;
    assert_eq!(TokenAccount::check(&vault), Err(ProgramError::IllegalOwner));
    vault.owner = TOKEN_PROGRAM_ID;
    assert_eq!(TokenAccount::check(&vault), Ok(()));
}

#[test]
fn address_check_yields_the_bump() {
    assert_eq!(expect_address(&key(5), Some((key(5), 254))), Ok(254));
    assert_eq!(expect_address(&key(5), Some((key(5), 0))), Ok(0));
    assert_eq!(expect_address(&key(5), Some((key(6), 254))), Err(ProgramError::InvalidAccountData));
    assert_eq!(expect_address(&key(5), None), Err(ProgramError::InvalidSeeds));
}

#[test]
fn distinct_mints_check_refuses_the_same_mint() {
    assert_eq!(expect_distinct_mints(&key(1), &key(2)), Ok(()));
    assert_eq!(
        expect_distinct_mints(&key(1), &key(1)),
        Err(ProgramError::from(PinocchioError::IdenticalMints))
    );
}

#[test]
fn vault_check_wants_the_pool_and_the_asset() {
    let vault = TokenAccountState { mint: key(1), owner: key(2), amount: 5 };
    assert_eq!(expect_vault(&vault, &key(2), &key(1)), Ok(()));
    assert_eq!(expect_vault(&vault, &key(3), &key(1)), Err(ProgramError::InvalidAccountData));
    assert_eq!(expect_vault(&vault, &key(2), &key(3)), Err(ProgramError::InvalidAccountData));
}

#[test]
fn mint_authority_check_wants_the_pool() {
    let owned = MintState { mint_authority: Some(key(2)), supply: 0 };
    let fixed = MintState { mint_authority: None, supply: 0 };
    assert_eq!(expect_mint_authority(&owned, &key(2)), Ok(()));
    assert_eq!(expect_mint_authority(&owned, &key(3)), Err(ProgramError::InvalidAccountData));
    assert_eq!(expect_mint_authority(&fixed, &key(2)), Err(ProgramError::InvalidAccountData));
}

#[test]
fn associated_check_against_a_derivation() {
    let vault = token_account(7);
    assert_eq!(AssociatedTokenAccount::check_with(&vault, Some((key(7), 255))), Ok(()));
    assert_eq!(
        AssociatedTokenAccount::check_with(&vault, Some((key(8), 255))),
        Err(ProgramError::InvalidAccountData)
    );
    assert_eq!(AssociatedTokenAccount::check_with(&vault, None), Err(ProgramError::InvalidSeeds));
    // The token-account check comes first.
    let stranger = account(7);
    assert_eq!(
        AssociatedTokenAccount::check_with(&stranger, Some((key(7), 255))),
        Err(ProgramError::IllegalOwner)
    );
    assert_eq!(
        AssociatedTokenAccount::check_with(&stranger, None),
        Err(ProgramError::IllegalOwner)
    );
}

#[test]
fn associated_check_derives_only_for_a_token_account() {
    let owner = account(1);
    let mint = account(2);
    assert_eq!(
        AssociatedTokenAccount::check(&account(7), &owner, &mint),
        Err(ProgramError::IllegalOwner)
    );
    // Away from the ledger's runtime no address can be derived.
    assert_eq!(
        AssociatedTokenAccount::check(&token_account(7), &owner, &mint),
        Err(ProgramError::InvalidSeeds)
    );
}

#[test]
fn program_account_is_created_under_this_program() {
    let seeds = SignerSeeds::Pool { token_a_mint: key(3), token_b_mint: key(4), bump: 9 };
    assert_eq!(
        ProgramAccount::init(&account(1), &account(2), seeds, 196),
        Directive::CreateAccount {
            from: key(1),
            to: key(2),
            owner: ID,
            space: 196,
            signer: seeds,
        }
    );
}

#[test]
fn associated_account_creation_names_its_parties() {
    let directive = AssociatedTokenAccount::init(
        &account(1),
        &account(2),
        &account(3),
        &account(4),
        &account(5),
        &account(6),
    );
    assert_eq!(
        directive,
        Directive::CreateAssociatedTokenAccount {
            funding_account: key(3),
            account: key(1),
            wallet: key(4),
            mint: key(2),
            system_program: key(5),
            token_program: key(6),
        }
    );
}

#[test]
fn associated_account_is_created_only_if_needed() {
    let mint = account(2);
    let user = account(3);
    let system = account(5);
    let token = account(6);
    let existing = token_account(1);
    let create = |ata: &AccountView| {
        AssociatedTokenAccount::init(ata, &mint, &user, &user, &system, &token)
    };
    let decide = |ata: &AccountView, derived| {
        AssociatedTokenAccount::init_if_needed_with(
            ata, &mint, &user, &user, &system, &token, derived,
        )
    };
    // At its derived address: nothing to do.
    assert_eq!(decide(&existing, Some((key(1), 255))), Ok(None));
    // A token account elsewhere: create the right one.
    assert_eq!(decide(&existing, Some((key(9), 255))), Ok(Some(create(&existing))));
    // No token account yet: create it, whatever the derivation.
    let missing = account(1);
    assert_eq!(decide(&missing, Some((key(1), 255))), Ok(Some(create(&missing))));
    assert_eq!(decide(&missing, None), Ok(Some(create(&missing))));
    // A token account, but no derivation to hold it against.
    assert_eq!(decide(&existing, None), Err(ProgramError::InvalidSeeds));
}

#[test]
fn associated_account_decision_derives_only_for_a_token_account() {
    let mint = account(2);
    let user = account(3);
    let system = account(5);
    let token = account(6);
    let missing = account(1);
    assert_eq!(
        AssociatedTokenAccount::init_if_needed(&missing, &mint, &user, &user, &system, &token),
        Ok(Some(AssociatedTokenAccount::init(&missing, &mint, &user, &user, &system, &token)))
    );
    assert_eq!(
        AssociatedTokenAccount::init_if_needed(
            &token_account(1),
            &mint,
            &user,
            &user,
            &system,
            &token
        ),
        Err(ProgramError::InvalidSeeds)
    );
}

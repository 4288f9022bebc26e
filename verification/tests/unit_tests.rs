use pinocchio_amm::engine::quote_deposit;
use pinocchio_amm::math::integer_sqrt;
use pinocchio_amm::pubkey::{
    find_associated_token_address, find_lp_mint_address, find_pool_address,
};
use pinocchio_amm::{
    process_instruction, AddLiquidityData, InitializePoolData, Instruction, PinocchioError, Pool,
    ProgramError, Pubkey, ID,
};

pub const PROGRAM: Pubkey = ID;

pub const PAYER: Pubkey =
    pinocchio_pubkey::from_str("Bv1vrbzogVpKNW2iRYJXLRUEVv6gD8xd9gid1Yh6hoiQ");

/// A key that holds `tag` in every byte: the keys of one test differ by tag.
fn key(tag: u8) -> Pubkey {
    [tag; 32]
}

#[test]
fn test_initialize_pool_complete() {
    let token_program = pinocchio_token::ID;
    let associated_token_program = pinocchio_associated_token_account::ID;

    let token_a_mint = key(1);
    let token_b_mint = key(2);

    let (pool_pda, pool_bump) = (key(3), 254u8);
    let (lp_mint_pda, lp_mint_bump) = (key(4), 253u8);

    let token_a_vault = key(5);
    let token_b_vault = key(6);

    let fee_rate: u16 = 30;
    let mut instruction_data = vec![0];
    instruction_data.extend_from_slice(&fee_rate.to_le_bytes());

    assert_eq!(instruction_data.len(), 3);
    assert_eq!(instruction_data[0], 0);
    assert_eq!(u16::from_le_bytes([instruction_data[1], instruction_data[2]]), fee_rate);

    assert!(fee_rate <= 10000);

    let addresses = vec![
        pool_pda, lp_mint_pda, token_a_vault, token_b_vault,
        token_a_mint, token_b_mint, token_program, associated_token_program
    ];

    for i in 0..addresses.len() {
        for j in (i+1)..addresses.len() {
            assert_ne!(addresses[i], addresses[j],
                "Addresses at indices {} and {} should be different", i, j);
        }
    }

    let mut pool_data = vec![0u8; Pool::LEN];
    let mut pool = Pool::load_mut(&pool_data).expect("Should load pool");

    pool.set_inner_full(
        PAYER,
        token_a_mint,
        token_b_mint,
        token_a_vault,
        token_b_vault,
        lp_mint_pda,
        fee_rate,
        pool_bump,
        lp_mint_bump,
    );

    assert_eq!(pool.authority, PAYER);
    assert_eq!(pool.token_a_mint, token_a_mint);
    assert_eq!(pool.token_b_mint, token_b_mint);
    assert_eq!(pool.token_a_vault, token_a_vault);
    assert_eq!(pool.token_b_vault, token_b_vault);
    assert_eq!(pool.lp_mint, lp_mint_pda);
    assert_eq!(pool.fee_rate, fee_rate);
    assert_eq!(pool.bump, pool_bump);
    assert_eq!(pool.lp_mint_bump, lp_mint_bump);

    // The record reaches the account's data and is read back from it.
    assert_eq!(pool.store(&mut pool_data), Ok(()));
    assert_eq!(Pool::load_mut(&pool_data), Ok(pool));
    assert_eq!(PROGRAM, ID);
}

#[test]
fn test_initialize_pool_data_parsing() {
    let fee_rate: u16 = 30; // 0.3%
    let mut instruction_data = vec![0];
    instruction_data.extend_from_slice(&fee_rate.to_le_bytes());

    assert_eq!(instruction_data.len(), 3);
    assert_eq!(instruction_data[0], 0);
    assert_eq!(u16::from_le_bytes([instruction_data[1], instruction_data[2]]), fee_rate);

    assert_eq!(
        InitializePoolData::try_from(&instruction_data[1..]),
        Ok(InitializePoolData { fee_rate })
    );
}

#[test]
fn test_pool_pda_generation() {
    let token_a_mint = key(1);
    let token_b_mint = key(2);

    let pool = find_pool_address(&token_a_mint, &token_b_mint);
    let lp_mint = pool.and_then(|(pool_pda, _pool_bump)| find_lp_mint_address(&pool_pda));

    // Wherever the runtime derives the two addresses, they differ from
    // each other and from the mints.
    if let Some((pool_pda, _pool_bump)) = pool {
        if let Some((lp_mint_pda, _lp_mint_bump)) = lp_mint {
            assert_ne!(pool_pda, lp_mint_pda);
        }
        assert_ne!(pool_pda, token_a_mint);
        assert_ne!(pool_pda, token_b_mint);
    }
    assert_eq!(pool, find_pool_address(&token_a_mint, &token_b_mint));
}

#[test]
fn test_pool_state_size() {
    // Pool should contain:
    // - authority: Pubkey (32 bytes)
    // - token_a_mint: Pubkey (32 bytes)
    // - token_b_mint: Pubkey (32 bytes)
    // - token_a_vault: Pubkey (32 bytes)
    // - token_b_vault: Pubkey (32 bytes)
    // - lp_mint: Pubkey (32 bytes)
    // - fee_rate: u16 (2 bytes)
    // - bump: u8 (1 byte)
    // - lp_mint_bump: u8 (1 byte)
    // Total: 6*32 + 2 + 1 + 1 = 196 bytes

    assert_eq!(Pool::LEN, 196);

    let pool = Pool::load_mut(&[0u8; 196]).expect("Should load pool");
    assert_eq!(pool.to_bytes().len(), Pool::LEN);
}

#[test]
fn test_associated_token_addresses() {
    let token_mint = key(1);
    let owner = key(2);

    let ata = find_associated_token_address(&owner, &token_mint);

    let ata2 = find_associated_token_address(&owner, &token_mint);

    assert_eq!(ata, ata2);
    if let Some((ata, _bump)) = ata {
        assert_ne!(ata, owner);
        assert_ne!(ata, token_mint);
    }
}

#[test]
fn test_fee_rate_validation() {
    for fee_rate in [0u16, 30u16, 100u16, 1000u16, 10000u16] {
        let mut instruction_data = vec![0]; // discriminator
        instruction_data.extend_from_slice(&fee_rate.to_le_bytes());

        assert_eq!(u16::from_le_bytes([instruction_data[1], instruction_data[2]]), fee_rate);

        assert_eq!(
            InitializePoolData::try_from(&instruction_data[1..]),
            Ok(InitializePoolData { fee_rate })
        );
    }

    let invalid_fee_rate: u16 = 10001;
    let mut instruction_data = vec![0];
    instruction_data.extend_from_slice(&invalid_fee_rate.to_le_bytes());

    assert_eq!(u16::from_le_bytes([instruction_data[1], instruction_data[2]]), invalid_fee_rate);
    assert!(invalid_fee_rate > 10000);

    assert_eq!(
        InitializePoolData::try_from(&instruction_data[1..]),
        Err(ProgramError::from(PinocchioError::InvalidFeeRate))
    );
}

#[test]
fn test_add_liquidity_complete() {
    let token_program = pinocchio_token::ID;
    let associated_token_program = pinocchio_associated_token_account::ID;
    let system_program = pinocchio_system::ID;

    let token_a_mint = key(1);
    let token_b_mint = key(2);

    let user = key(3);

    let pool_pda = key(4);
    let lp_mint_pda = key(5);

    let token_a_vault = key(6);
    let token_b_vault = key(8);

    let user_token_a = key(9);
    let user_token_b = key(10);
    let user_lp_token = key(11);

    let amount_a: u64 = 1000000;
    let amount_b: u64 = 2000000;
    let min_lp_amount: u64 = 1400000;

    let mut instruction_data = vec![1];
    instruction_data.extend_from_slice(&amount_a.to_le_bytes());
    instruction_data.extend_from_slice(&amount_b.to_le_bytes());
    instruction_data.extend_from_slice(&min_lp_amount.to_le_bytes());

    assert_eq!(instruction_data.len(), 25);
    assert_eq!(instruction_data[0], 1);

    let parsed_amount_a = u64::from_le_bytes([
        instruction_data[1], instruction_data[2], instruction_data[3], instruction_data[4],
        instruction_data[5], instruction_data[6], instruction_data[7], instruction_data[8],
    ]);
    let parsed_amount_b = u64::from_le_bytes([
        instruction_data[9], instruction_data[10], instruction_data[11], instruction_data[12],
        instruction_data[13], instruction_data[14], instruction_data[15], instruction_data[16],
    ]);
    let parsed_min_lp = u64::from_le_bytes([
        instruction_data[17], instruction_data[18], instruction_data[19], instruction_data[20],
        instruction_data[21], instruction_data[22], instruction_data[23], instruction_data[24],
    ]);

    assert_eq!(parsed_amount_a, amount_a);
    assert_eq!(parsed_amount_b, amount_b);
    assert_eq!(parsed_min_lp, min_lp_amount);

    assert!(amount_a > 0);
    assert!(amount_b > 0);

    let product = (amount_a as f64) * (amount_b as f64);
    let geometric_mean = product.sqrt() as u64;
    assert!(geometric_mean >= 1000);
    assert!(geometric_mean >= min_lp_amount);

    // The first deposit mints the same geometric mean.
    assert_eq!(quote_deposit(amount_a, amount_b, min_lp_amount, 0, 0, 0), Ok(geometric_mean));
    assert_eq!(geometric_mean, 1414213);

    let addresses = vec![
        pool_pda, lp_mint_pda, token_a_vault, token_b_vault,
        user_token_a, user_token_b, user_lp_token,
        token_a_mint, token_b_mint, user,
        token_program, associated_token_program, system_program
    ];

    for i in 0..addresses.len() {
        for j in (i+1)..addresses.len() {
            assert_ne!(addresses[i], addresses[j],
                "Addresses at indices {} and {} should be different", i, j);
        }
    }

    assert_ne!(token_a_mint, token_b_mint);
    assert_ne!(token_a_vault, token_b_vault);
    assert_ne!(user_token_a, user_token_b);

    // Deriving twice from the same mints gives the same outcome.
    let derived = find_pool_address(&token_a_mint, &token_b_mint);
    let derived2 = find_pool_address(&token_a_mint, &token_b_mint);
    assert_eq!(derived, derived2);
}

#[test]
fn test_add_liquidity_data_parsing() {
    let test_cases = vec![
        (1000u64, 2000u64, 1400u64),     // Basic case
        (1u64, 1u64, 1u64),              // Minimum amounts
        (u64::MAX/2, u64::MAX/2, 1000u64), // Large amounts
        (1000000000u64, 500000000u64, 700000000u64), // Realistic amounts
    ];

    for (amount_a, amount_b, min_lp_amount) in test_cases {
        let mut instruction_data = vec![1]; // discriminator
        instruction_data.extend_from_slice(&amount_a.to_le_bytes());
        instruction_data.extend_from_slice(&amount_b.to_le_bytes());
        instruction_data.extend_from_slice(&min_lp_amount.to_le_bytes());

        // Verify instruction data format
        assert_eq!(instruction_data.len(), 25);
        assert_eq!(instruction_data[0], 1);

        // Parse back and verify
        let parsed_amount_a = u64::from_le_bytes([
            instruction_data[1], instruction_data[2], instruction_data[3], instruction_data[4],
            instruction_data[5], instruction_data[6], instruction_data[7], instruction_data[8],
        ]);
        let parsed_amount_b = u64::from_le_bytes([
            instruction_data[9], instruction_data[10], instruction_data[11], instruction_data[12],
            instruction_data[13], instruction_data[14], instruction_data[15], instruction_data[16],
        ]);
        let parsed_min_lp = u64::from_le_bytes([
            instruction_data[17], instruction_data[18], instruction_data[19], instruction_data[20],
            instruction_data[21], instruction_data[22], instruction_data[23], instruction_data[24],
        ]);

        assert_eq!(parsed_amount_a, amount_a);
        assert_eq!(parsed_amount_b, amount_b);
        assert_eq!(parsed_min_lp, min_lp_amount);

        assert_eq!(
            AddLiquidityData::try_from(&instruction_data[1..]),
            Ok(AddLiquidityData { amount_a, amount_b, min_lp_amount })
        );
    }
}

#[test]
fn test_add_liquidity_geometric_mean_calculation() {
    let test_cases = vec![
        (1000000u64, 1000000u64, 1000000u64),    // Perfect square
        (4000000u64, 1000000u64, 2000000u64),    // 4:1 ratio
        (9000000u64, 4000000u64, 6000000u64),    // 9:4 ratio
        (1600000000u64, 900000000u64, 1200000000u64), // Large amounts
    ];

    for (amount_a, amount_b, expected_approx) in test_cases {
        let product = (amount_a as f64) * (amount_b as f64);
        let geometric_mean = product.sqrt() as u64;

        let tolerance = expected_approx / 100;
        assert!(
            geometric_mean >= expected_approx.saturating_sub(tolerance) &&
            geometric_mean <= expected_approx.saturating_add(tolerance),
            "Geometric mean {} not within tolerance of expected {}",
            geometric_mean, expected_approx
        );

        assert!(geometric_mean >= 1000, "Geometric mean {} below minimum 1000", geometric_mean);

        // The integer square root gives each of these exactly.
        assert_eq!(integer_sqrt((amount_a as u128) * (amount_b as u128)), expected_approx);
        assert_eq!(quote_deposit(amount_a, amount_b, 0, 0, 0, 0), Ok(expected_approx));
    }

}

#[test]
fn test_add_liquidity_edge_cases() {

    let amount_a = 1u64;
    let amount_b = 1u64;
    let min_lp_amount = 1u64;

    let mut instruction_data = vec![1];
    instruction_data.extend_from_slice(&amount_a.to_le_bytes());
    instruction_data.extend_from_slice(&amount_b.to_le_bytes());
    instruction_data.extend_from_slice(&min_lp_amount.to_le_bytes());

    assert_eq!(instruction_data.len(), 25);

    let product = (amount_a as f64) * (amount_b as f64);
    let geometric_mean = product.sqrt() as u64;
    assert_eq!(geometric_mean, 1);

    // A first deposit that would mint 1 is below the minimum liquidity.
    assert_eq!(integer_sqrt(1), 1);
    assert_eq!(
        quote_deposit(amount_a, amount_b, min_lp_amount, 0, 0, 0),
        Err(ProgramError::from(PinocchioError::InsufficientLiquidity))
    );

    let short_data = vec![1, 0, 0, 0];
    assert_eq!(short_data.len(), 4);
    assert!(short_data.len() < 25);

    // The short payload is refused, whatever the accounts are.
    assert_eq!(
        AddLiquidityData::try_from(&short_data[1..]),
        Err(ProgramError::InvalidInstructionData)
    );
    assert_eq!(process_instruction(&[], &short_data), Err(ProgramError::InvalidInstructionData));

    let zero_amount_a = 0u64;
    let zero_amount_b = 1000u64;
    let mut zero_instruction_data = vec![1];
    zero_instruction_data.extend_from_slice(&zero_amount_a.to_le_bytes());
    zero_instruction_data.extend_from_slice(&zero_amount_b.to_le_bytes());
    zero_instruction_data.extend_from_slice(&min_lp_amount.to_le_bytes());

    let parsed_zero_a = u64::from_le_bytes([
        zero_instruction_data[1], zero_instruction_data[2], zero_instruction_data[3], zero_instruction_data[4],
        zero_instruction_data[5], zero_instruction_data[6], zero_instruction_data[7], zero_instruction_data[8],
    ]);
    assert_eq!(parsed_zero_a, 0);

    // A deposit of nothing of one asset is refused.
    assert_eq!(
        AddLiquidityData::try_from(&zero_instruction_data[1..]),
        Err(ProgramError::from(PinocchioError::InvalidAmount))
    );
    let refused: Result<Instruction, ProgramError> = process_instruction(&[], &zero_instruction_data);
    assert_eq!(refused, Err(ProgramError::NotEnoughAccountKeys));
}

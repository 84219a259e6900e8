use star_fee_distribution::DepositParams;
use star_fee_distribution::DepositorRecord;
use star_fee_distribution::DistributionConfig;
use star_fee_distribution::ErrorCode;
use star_fee_distribution::FeeDistributionParams;
use star_fee_distribution::HonoraryPositionConfig;
use star_fee_distribution::InitializeDistributionConfigParams;
use star_fee_distribution::VaultStats;
use star_fee_distribution::WithdrawParams;
use star_fee_distribution::deposit;
use star_fee_distribution::distribute_fees;
use star_fee_distribution::evaluate_claimed_fees;
use star_fee_distribution::initialize_distribution_config;
use star_fee_distribution::query_depositor;
use star_fee_distribution::query_vault;
use star_fee_distribution::validate_deposit_amounts;
use star_fee_distribution::validate_quote_only_fee_configuration;
use star_fee_distribution::validate_withdrawal_amounts;
use star_fee_distribution::withdraw;

fn config_params() -> InitializeDistributionConfigParams {
    InitializeDistributionConfigParams {
        y0_allocation: 1000,
        investor_fee_share_bps: 5000,
        min_payout_lamports: 25,
        daily_cap_lamports: 0,
        creator_wallet: 7,
        quote_mint: 9,
    }
}

fn wide_position() -> HonoraryPositionConfig {
    HonoraryPositionConfig {
        base_weight_bps: 0,
        quote_weight_bps: 10000,
        lower_tick: -443636,
        upper_tick: 443636,
        fee_tier: 3000,
    }
}

#[test]
fn config_initialization_keeps_its_parameters() {
    let config = initialize_distribution_config(config_params()).unwrap();
    assert_eq!(config.y0_allocation, 1000);
    assert_eq!(config.investor_fee_share_bps, 5000);
    assert_eq!(config.min_payout_lamports, 25);
    assert_eq!(config.daily_cap_lamports, 0);
    assert_eq!(config.creator_wallet, 7);
    assert_eq!(config.quote_mint, 9);
}

#[test]
fn config_zero_min_payout_selects_the_default() {
    let mut params = config_params();
    params.min_payout_lamports = 0;
    let config = initialize_distribution_config(params).unwrap();
    assert_eq!(config.min_payout_lamports, 10_000);
}

#[test]
fn config_rejects_each_invalid_parameter() {
    let mut p = config_params();
    p.y0_allocation = 0;
    assert_eq!(initialize_distribution_config(p), Err(ErrorCode::InvalidY0Allocation));
    let mut p = config_params();
    p.investor_fee_share_bps = 10001;
    assert_eq!(initialize_distribution_config(p), Err(ErrorCode::InvalidDepositAmount));
    let mut p = config_params();
    p.creator_wallet = 0;
    assert_eq!(initialize_distribution_config(p), Err(ErrorCode::CreatorWalletNotProvided));
    let mut p = config_params();
    p.quote_mint = 0;
    assert_eq!(initialize_distribution_config(p), Err(ErrorCode::InvalidPosition));
    // the boundary share of exactly 100% is accepted
    let mut p = config_params();
    p.investor_fee_share_bps = 10000;
    assert!(initialize_distribution_config(p).is_ok());
}

#[test]
fn deposit_validation_enforces_the_amount_policy() {
    let ok = DepositParams { sol_amount: 1_000_000, usdc_amount: 0 };
    assert!(validate_deposit_amounts(&ok).is_ok());
    let nothing = DepositParams { sol_amount: 0, usdc_amount: 0 };
    assert_eq!(validate_deposit_amounts(&nothing), Err(ErrorCode::InvalidDepositAmount));
    let sol_too_small = DepositParams { sol_amount: 999_999, usdc_amount: 0 };
    assert_eq!(validate_deposit_amounts(&sol_too_small), Err(ErrorCode::InvalidDepositAmount));
    let usdc_too_small = DepositParams { sol_amount: 0, usdc_amount: 999 };
    assert_eq!(validate_deposit_amounts(&usdc_too_small), Err(ErrorCode::InvalidDepositAmount));
    let sol_too_large = DepositParams { sol_amount: 1_000_000_000_001, usdc_amount: 0 };
    assert_eq!(validate_deposit_amounts(&sol_too_large), Err(ErrorCode::InvalidDepositAmount));
    let usdc_too_large = DepositParams { sol_amount: 0, usdc_amount: 1_000_000_000_001 };
    assert_eq!(validate_deposit_amounts(&usdc_too_large), Err(ErrorCode::InvalidDepositAmount));
}

#[test]
fn deposit_credits_record_and_vault() {
    let mut record = DepositorRecord::new(42, 100);
    let mut stats = VaultStats::new();
    let params = DepositParams { sol_amount: 2_000_000, usdc_amount: 5_000 };
    let ev = deposit(&mut record, &mut stats, params, 150).unwrap();
    assert_eq!(ev.investor, 42);
    assert_eq!(ev.total_sol_deposited, 2_000_000);
    assert_eq!(ev.total_usdc_deposited, 5_000);
    assert_eq!(ev.current_sol_balance, 2_000_000);
    assert_eq!(ev.current_usdc_balance, 5_000);
    assert_eq!(ev.deposit_count, 1);
    assert_eq!(ev.timestamp, 150);
    assert_eq!(record.first_deposit_timestamp, 150);
    assert_eq!(record.last_activity_timestamp, 150);
    assert_eq!(stats.current_total_sol, 2_000_000);
    assert_eq!(stats.current_total_usdc, 5_000);
    // the first deposit counts a new depositor; the second does not
    assert_eq!(stats.depositor_count, 1);
    assert!(deposit(&mut record, &mut stats, params, 200).is_ok());
    assert_eq!(stats.depositor_count, 1);
    assert_eq!(record.deposit_count, 2);
    assert_eq!(record.first_deposit_timestamp, 150);
    assert_eq!(record.last_activity_timestamp, 200);
}

#[test]
fn deposit_overflow_leaves_both_records_unchanged() {
    let mut record = DepositorRecord::new(42, 100);
    record.total_sol_deposited = u64::MAX;
    let mut stats = VaultStats::new();
    let record_before = record;
    let stats_before = stats;
    let params = DepositParams { sol_amount: 2_000_000, usdc_amount: 0 };
    assert_eq!(deposit(&mut record, &mut stats, params, 150), Err(ErrorCode::MathOverflow));
    assert_eq!(record, record_before);
    assert_eq!(stats, stats_before);
}

#[test]
fn withdrawal_validation_checks_amounts_and_vault_balances() {
    let nothing = WithdrawParams { sol_amount: 0, usdc_amount: 0 };
    assert_eq!(
        validate_withdrawal_amounts(&nothing, 0, 0),
        Err(ErrorCode::InvalidDepositAmount)
    );
    let too_small = WithdrawParams { sol_amount: 999_999, usdc_amount: 0 };
    assert_eq!(
        validate_withdrawal_amounts(&too_small, u64::MAX, u64::MAX),
        Err(ErrorCode::InvalidDepositAmount)
    );
    let uncovered = WithdrawParams { sol_amount: 2_000_000, usdc_amount: 0 };
    assert_eq!(
        validate_withdrawal_amounts(&uncovered, 1_999_999, 0),
        Err(ErrorCode::InsufficientTokenBalance)
    );
    assert!(validate_withdrawal_amounts(&uncovered, 2_000_000, 0).is_ok());
}

#[test]
fn withdraw_debits_record_and_vault() {
    let mut record = DepositorRecord::new(42, 100);
    let mut stats = VaultStats::new();
    let put = DepositParams { sol_amount: 5_000_000, usdc_amount: 9_000 };
    assert!(deposit(&mut record, &mut stats, put, 100).is_ok());
    let take = WithdrawParams { sol_amount: 2_000_000, usdc_amount: 4_000 };
    let ev = withdraw(&mut record, &mut stats, take, 5_000_000, 9_000, 200).unwrap();
    assert_eq!(ev.total_sol_withdrawn, 2_000_000);
    assert_eq!(ev.total_usdc_withdrawn, 4_000);
    assert_eq!(ev.current_sol_balance, 3_000_000);
    assert_eq!(ev.current_usdc_balance, 5_000);
    assert_eq!(ev.withdrawal_count, 1);
    assert_eq!(stats.current_total_sol, 3_000_000);
    assert_eq!(stats.current_total_usdc, 5_000);
    assert_eq!(stats.total_sol_withdrawn, 2_000_000);
}

#[test]
fn withdraw_beyond_own_balance_fails_cleanly() {
    let mut record = DepositorRecord::new(42, 100);
    let mut stats = VaultStats::new();
    let put = DepositParams { sol_amount: 5_000_000, usdc_amount: 0 };
    assert!(deposit(&mut record, &mut stats, put, 100).is_ok());
    let record_before = record;
    let stats_before = stats;
    // the vault holds more than this investor does
    let take = WithdrawParams { sol_amount: 6_000_000, usdc_amount: 0 };
    let r = withdraw(&mut record, &mut stats, take, 10_000_000, 0, 200);
    assert_eq!(r, Err(ErrorCode::InsufficientBalance));
    assert_eq!(record, record_before);
    assert_eq!(stats, stats_before);
}

#[test]
fn share_percentage_takes_the_stronger_position() {
    let mut record = DepositorRecord::new(42, 100);
    record.total_sol_deposited = 100;
    record.total_usdc_deposited = 900;
    // SOL weight 100/1000 = 1000 bps, USDC weight 900/1000 = 9000 bps
    assert_eq!(record.calculate_share_percentage(1000, 1000), Ok(9000));
    // empty vault: no share
    assert_eq!(record.calculate_share_percentage(0, 0), Ok(0));
    // weights above 100% are capped
    record.total_sol_deposited = 5000;
    assert_eq!(record.calculate_share_percentage(1000, 0), Ok(10000));
}

#[test]
fn queries_snapshot_the_records() {
    let mut record = DepositorRecord::new(42, 100);
    let mut stats = VaultStats::new();
    let put = DepositParams { sol_amount: 2_000_000, usdc_amount: 5_000 };
    assert!(deposit(&mut record, &mut stats, put, 100).is_ok());
    let info = query_depositor(&record, &stats).unwrap();
    assert_eq!(info.investor, 42);
    assert_eq!(info.total_sol_deposited, 2_000_000);
    assert_eq!(info.current_usdc_balance, 5_000);
    // the investor holds the whole vault
    assert_eq!(info.sol_share_percentage, 10000);
    assert_eq!(info.usdc_share_percentage, 10000);
    assert_eq!(info.deposit_count, 1);
    let vault = query_vault(&stats).unwrap();
    assert_eq!(vault.total_sol_deposited, 2_000_000);
    assert_eq!(vault.current_total_usdc, 5_000);
    assert_eq!(vault.depositor_count, 1);
    assert!(stats.has_deposits());
    assert!(record.has_deposits());
    assert_eq!(record.get_total_deposit_value(), 2_000_000);
    assert_eq!(stats.get_current_sol_balance(), 2_000_000);
    assert_eq!(stats.get_current_usdc_balance(), 5_000);
    assert_eq!(stats.get_total_deposit_value(), 2_000_000);
}

#[test]
fn quote_only_position_validation_accepts_the_wide_range() {
    assert!(validate_quote_only_fee_configuration(&wide_position()).is_ok());
}

#[test]
fn quote_only_position_validation_rejects_each_violation() {
    let mut c = wide_position();
    c.base_weight_bps = 1;
    assert_eq!(
        validate_quote_only_fee_configuration(&c),
        Err(ErrorCode::BaseWeightMustBeZero)
    );
    let mut c = wide_position();
    c.quote_weight_bps = 9999;
    assert_eq!(
        validate_quote_only_fee_configuration(&c),
        Err(ErrorCode::QuoteWeightMustBe10000)
    );
    let mut c = wide_position();
    c.lower_tick = -443635;
    assert_eq!(validate_quote_only_fee_configuration(&c), Err(ErrorCode::LowerTickTooHigh));
    let mut c = wide_position();
    c.upper_tick = 443635;
    assert_eq!(validate_quote_only_fee_configuration(&c), Err(ErrorCode::UpperTickTooLow));
    let mut c = wide_position();
    c.fee_tier = 200;
    assert_eq!(validate_quote_only_fee_configuration(&c), Err(ErrorCode::InvalidFeeTier));
    // the extreme ticks still validate: the range check works in 64 bits
    let mut c = wide_position();
    c.lower_tick = i32::MIN;
    c.upper_tick = i32::MAX;
    assert!(validate_quote_only_fee_configuration(&c).is_ok());
}

#[test]
fn claimed_fees_must_be_quote_only() {
    // only the quote vault grew: the claim is accepted
    assert_eq!(evaluate_claimed_fees(500, 500, 1000, 1800), Ok((0, 800)));
    // any base growth aborts
    assert_eq!(evaluate_claimed_fees(500, 501, 1000, 1800), Err(ErrorCode::BaseFeesDetected));
    // a shrinking balance counts as zero claimed
    assert_eq!(evaluate_claimed_fees(500, 400, 1800, 1000), Ok((0, 0)));
}

#[test]
fn fee_forwarding_resolves_zero_to_the_whole_balance() {
    let all = FeeDistributionParams { base_amount: 0, quote_amount: 0 };
    assert_eq!(distribute_fees(all, 300, 700), Ok((300, 700)));
    let some = FeeDistributionParams { base_amount: 100, quote_amount: 200 };
    assert_eq!(distribute_fees(some, 300, 700), Ok((100, 200)));
    let beyond = FeeDistributionParams { base_amount: 301, quote_amount: 0 };
    assert_eq!(distribute_fees(beyond, 300, 700), Err(ErrorCode::InsufficientTokenBalance));
    let beyond_quote = FeeDistributionParams { base_amount: 0, quote_amount: 701 };
    assert_eq!(
        distribute_fees(beyond_quote, 300, 700),
        Err(ErrorCode::InsufficientTokenBalance)
    );
}

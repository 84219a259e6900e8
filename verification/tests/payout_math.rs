use star_fee_distribution::CrankState;
use star_fee_distribution::DistributionConfig;
use star_fee_distribution::DistributionParams;
use star_fee_distribution::ErrorCode;
use star_fee_distribution::InvestorDistributionParams;
use star_fee_distribution::calculate_investor_payout;
use star_fee_distribution::compute_fee_split;
use star_fee_distribution::crank_fee_distribution;
use star_fee_distribution::distribute_to_investor;
use star_fee_distribution::route_creator_remainder;

#[test]
fn even_split_pays_exactly_pro_rata() {
    // balances [100, 300, 600] of a locked total of 1000, pool 1000:
    // 1000 divides evenly, so the payouts are exact
    let total_locked = 1000;
    let pool = 1000;
    assert_eq!(calculate_investor_payout(100, total_locked, pool, 1), Ok((100, 0)));
    assert_eq!(calculate_investor_payout(300, total_locked, pool, 1), Ok((300, 0)));
    assert_eq!(calculate_investor_payout(600, total_locked, pool, 1), Ok((600, 0)));
}

#[test]
fn uneven_split_rounds_down_and_leaves_a_residue() {
    // balances [1, 1, 1] of a locked total of 3, pool 100:
    // weight = floor(1 * 10000 / 3) = 3333 bps each,
    // payout = floor(100 * 3333 / 10000) = 33 each, residue 100 - 99 = 1
    let mut paid: u64 = 0;
    for _ in 0..3 {
        let (payout, dust) = calculate_investor_payout(1, 3, 100, 1).unwrap();
        assert_eq!(payout, 33);
        assert_eq!(dust, 0);
        paid += payout;
    }
    assert_eq!(paid, 99);
    assert_eq!(100 - paid, 1);
}

#[test]
fn payout_below_minimum_becomes_dust_in_full() {
    // raw payout 33 under a minimum of 50: suppressed to zero, all dust
    assert_eq!(calculate_investor_payout(1, 3, 100, 50), Ok((0, 33)));
    // exactly at the minimum: paid in full
    assert_eq!(calculate_investor_payout(1, 3, 100, 33), Ok((33, 0)));
}

#[test]
fn zero_locked_total_pays_nothing() {
    assert_eq!(calculate_investor_payout(100, 0, 1000, 0), Ok((0, 0)));
}

#[test]
fn payout_overflow_is_an_arithmetic_failure() {
    // weight = u64::MAX * 10000 does not fit u64 against a total of 1
    let r = calculate_investor_payout(u64::MAX, 1, 1000, 1);
    assert_eq!(r, Err(ErrorCode::MathOverflow));
}

#[test]
fn fee_split_follows_the_locked_fraction() {
    // locked 500 of Y0 1000: f_locked 5000 bps; ceiling 3000 binds
    let fs = compute_fee_split(500, 1000, 3000, 2000).unwrap();
    assert_eq!(fs.f_locked_bps, 5000);
    assert_eq!(fs.eligible_investor_share_bps, 3000);
    assert_eq!(fs.investor_fee_quote, 600);
    // locked 100 of Y0 1000: f_locked 1000 bps binds instead
    let fs2 = compute_fee_split(100, 1000, 3000, 2000).unwrap();
    assert_eq!(fs2.f_locked_bps, 1000);
    assert_eq!(fs2.eligible_investor_share_bps, 1000);
    assert_eq!(fs2.investor_fee_quote, 200);
}

#[test]
fn fee_split_with_zero_allocation_yields_nothing() {
    let fs = compute_fee_split(500, 0, 3000, 2000).unwrap();
    assert_eq!(fs.f_locked_bps, 0);
    assert_eq!(fs.eligible_investor_share_bps, 0);
    assert_eq!(fs.investor_fee_quote, 0);
}

#[test]
fn fee_split_caps_the_pool_by_the_available_fees() {
    // fully locked and a 100% ceiling: the whole balance is eligible
    let fs = compute_fee_split(1000, 1000, 10000, 12345).unwrap();
    assert_eq!(fs.eligible_investor_share_bps, 10000);
    assert_eq!(fs.investor_fee_quote, 12345);
}

#[test]
fn a_full_day_conserves_the_opening_balance() {
    // conservation scenario: quote_open 100, three equal investors, no cap.
    // paid 33 + 33 + 33 = 99; the creator remainder 1 closes the books:
    // payouts + remainder == quote_open and dust is preserved in carry-over.
    let mut s = CrankState::new();
    let config = DistributionConfig {
        y0_allocation: 3,
        investor_fee_share_bps: 10000,
        min_payout_lamports: 1,
        daily_cap_lamports: 0,
        creator_wallet: 7,
        quote_mint: 9,
    };
    let quote_open: u64 = 100;
    let p = DistributionParams { page_index: 0, investors_count: 3, is_final_page: true };
    let record = crank_fee_distribution(&mut s, &config, 0, quote_open, 3, 9, p, 1000).unwrap();
    assert_eq!(record.total_distributable, 100);
    let params = InvestorDistributionParams { total_investor_fee: record.total_distributable };
    let mut vault = quote_open;
    let mut paid: u64 = 0;
    let mut dust: u64 = 0;
    for investor in 1..4u64 {
        let ev = distribute_to_investor(&mut s, &config, investor, 1, 3, params, 1001).unwrap();
        vault -= ev.actual_payout;
        paid += ev.actual_payout;
        dust += ev.dust;
    }
    let closed = route_creator_remainder(&mut s, &config, vault, 55, 1002).unwrap();
    assert_eq!(paid, 99);
    assert_eq!(dust, 0);
    assert_eq!(closed.creator_remainder, 1);
    assert_eq!(paid + dust + closed.creator_remainder, quote_open);
    assert_eq!(s.carry_over, 0);
    assert_eq!(s.daily_distributed, paid);
}

#[test]
fn a_dusty_day_preserves_every_suppressed_payout() {
    // the same three investors under a dust threshold of 50: nothing is
    // paid, each computed 33 is carried over, and the whole opening
    // balance goes to the creator
    let mut s = CrankState::new();
    let config = DistributionConfig {
        y0_allocation: 3,
        investor_fee_share_bps: 10000,
        min_payout_lamports: 50,
        daily_cap_lamports: 0,
        creator_wallet: 7,
        quote_mint: 9,
    };
    let quote_open: u64 = 100;
    let p = DistributionParams { page_index: 0, investors_count: 3, is_final_page: true };
    let record = crank_fee_distribution(&mut s, &config, 0, quote_open, 3, 9, p, 1000).unwrap();
    let params = InvestorDistributionParams { total_investor_fee: record.total_distributable };
    let mut vault = quote_open;
    for investor in 1..4u64 {
        let ev = distribute_to_investor(&mut s, &config, investor, 1, 3, params, 1001).unwrap();
        assert_eq!(ev.actual_payout, 0);
        assert_eq!(ev.dust, 33);
        vault -= ev.actual_payout;
    }
    assert_eq!(s.daily_distributed, 0);
    assert_eq!(s.carry_over, 99);
    let closed = route_creator_remainder(&mut s, &config, vault, 55, 1002).unwrap();
    assert_eq!(closed.creator_remainder, quote_open);
    assert_eq!(closed.final_carry_over, 99);
}

use waglayla_coinbase::coinbase::CoinbaseManager;
use waglayla_coinbase::subsidy::build_subsidy_by_month_table;

const SECONDS_PER_MONTH: u64 = 2629800;
const SOMPI_PER_WAGLAYLA: u64 = 100_000_000;

/// A manager with the legacy 1-BPS properties.
fn create_legacy_manager() -> CoinbaseManager {
    CoinbaseManager::new(150, 204, 7889400, 50000000000, 1000, 0)
}

/// A manager with a 10-BPS target time, as the scaled test network runs.
fn create_high_bps_manager() -> CoinbaseManager {
    CoinbaseManager::new(150, 204, 7889400, 50000000000, 100, 0)
}

#[test]
fn calc_high_bps_total_rewards_delta() {
    let legacy_cbm = create_legacy_manager();
    let pre_deflationary_rewards =
        legacy_cbm.pre_deflationary_phase_base_subsidy() * legacy_cbm.deflationary_phase_daa_score();
    let master = build_subsidy_by_month_table();
    let total_rewards: u64 =
        pre_deflationary_rewards + master.iter().map(|x| x * SECONDS_PER_MONTH).sum::<u64>();
    let testnet_11_bps: u64 = 10;
    let total_high_bps_rewards_rounded_up: u64 = pre_deflationary_rewards
        + master
            .iter()
            .map(|x| ((x + testnet_11_bps - 1) / testnet_11_bps * testnet_11_bps) * SECONDS_PER_MONTH)
            .sum::<u64>();

    let cbm = create_high_bps_manager();
    let total_high_bps_rewards: u64 = pre_deflationary_rewards
        + cbm.subsidy_table().iter().map(|x| x * cbm.blocks_per_month()).sum::<u64>();
    assert_eq!(
        total_high_bps_rewards_rounded_up, total_high_bps_rewards,
        "subsidy adjusted to bps must be rounded up"
    );

    let delta = total_high_bps_rewards as i64 - total_rewards as i64;

    println!("Total rewards: {} sompi => {} WALA", total_rewards, total_rewards / SOMPI_PER_WAGLAYLA);
    println!(
        "Total high bps rewards: {} sompi => {} WALA",
        total_high_bps_rewards,
        total_high_bps_rewards / SOMPI_PER_WAGLAYLA
    );
    println!("Delta: {} sompi => {} WALA", delta, delta / SOMPI_PER_WAGLAYLA as i64);
}

#[test]
fn subsidy_by_month_table_test() {
    let cbm = create_legacy_manager();
    let master = build_subsidy_by_month_table();
    cbm.subsidy_table().iter().enumerate().for_each(|(i, x)| {
        let expected = if i < master.len() { master[i] } else { 0 };
        assert_eq!(expected, *x, "for 1 BPS, const table and precomputed values must match");
    });

    for bps in [1u64, 2, 4, 5, 10, 20] {
        let cbm = CoinbaseManager::new(150, 204, 7889400, 50000000000, 1000 / bps, 0);
        assert_eq!(cbm.bps(), bps);
        cbm.subsidy_table().iter().enumerate().for_each(|(i, x)| {
            let m = if i < master.len() { master[i] } else { 0 };
            assert_eq!(
                (m + cbm.bps() - 1) / cbm.bps(),
                *x,
                "{}: locally computed and precomputed values must match",
                bps
            );
        });
    }
}

#[test]
fn subsidy_phase_boundaries() {
    // A 1-BPS manager whose deflationary phase starts at 15_778_800.
    let cbm = CoinbaseManager::new(150, 204, 15778800, 50000000000, 1000, 0);
    assert_eq!(cbm.calc_block_subsidy(0), 50000000000);
    assert_eq!(cbm.calc_block_subsidy(15778799), 50000000000);
    assert_eq!(cbm.calc_block_subsidy(15778800), 45625737738);
    // Twelve months in, the schedule has divided by three.
    assert_eq!(cbm.calc_block_subsidy(15778800 + 12 * SECONDS_PER_MONTH), 15208579246);
    assert_eq!(cbm.legacy_calc_block_subsidy(15778799), 50000000000);
    assert_eq!(cbm.legacy_calc_block_subsidy(15778800), 45625737738);
    assert_eq!(cbm.legacy_calc_block_subsidy(15778800 + 12 * SECONDS_PER_MONTH), 15208579246);
}

#[test]
fn subsidy_depletion() {
    let cbm = create_legacy_manager();
    let blocks_per_month = cbm.blocks_per_month();
    let deflationary = cbm.deflationary_phase_daa_score();
    // The last month the master table pays anything is month 268.
    assert_eq!(cbm.calc_block_subsidy(deflationary + 268 * blocks_per_month), 1);
    // From month 269 on the subsidy is depleted.
    assert_eq!(cbm.calc_block_subsidy(deflationary + 269 * blocks_per_month), 0);
    assert_eq!(cbm.calc_block_subsidy(deflationary + 366 * blocks_per_month), 0);
    assert_eq!(cbm.calc_block_subsidy(u64::MAX), 0);

    // The scaled schedules deplete at the same month.
    let cbm = create_high_bps_manager();
    let blocks_per_month = cbm.blocks_per_month();
    assert_eq!(blocks_per_month, SECONDS_PER_MONTH * 10);
    let deflationary = cbm.deflationary_phase_daa_score();
    assert_eq!(cbm.calc_block_subsidy(deflationary + 268 * blocks_per_month), 1);
    assert_eq!(cbm.calc_block_subsidy(deflationary + 269 * blocks_per_month), 0);
}

#[test]
fn subsidy_at_thousand_bps() {
    // The fastest rate one millisecond per block allows.
    let cbm = CoinbaseManager::new(150, 204, 7889400, 50000000000, 1, 0);
    assert_eq!(cbm.bps(), 1000);
    assert_eq!(cbm.blocks_per_month(), SECONDS_PER_MONTH * 1000);
    // Ceiling division: 45625737738 / 1000 rounds up to 45625738.
    assert_eq!(cbm.subsidy_table()[0], 45625738);
    assert_eq!(cbm.calc_block_subsidy(7889400), 45625738);
}

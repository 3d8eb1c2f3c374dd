use launchpad::collect::{collect_handler, CollectArgs};
use launchpad::create_pool::{create_pool_handler, CreatePoolArgs};
use launchpad::errors::LaunchpadErrorCode;
use launchpad::grid::{set_bit, test_bit};
use launchpad::initialize::{initialize_handler, InitLaunchpadArgs};
use launchpad::mine::{mine_handler, MineArgs};
use launchpad::oracle::{classify, draw, StepStatus};
use launchpad::state::{AllocationType, GameInfo, GameStatus, Identity, Launchpad, Pool};
use launchpad::update::{update_handler, UpdateArgs};
use launchpad::update_pool::{update_pool_handler, UpdatePoolArgs};

fn id(b: u8) -> Identity {
    Identity { bytes: [b; 32] }
}

fn pool(gold: u8, bomb: u8, funding: u64, pct: u64, value: u64) -> Pool {
    Pool {
        pool_id: 0,
        owner: id(1),
        token_mint: id(2),
        token_amount: funding,
        available_token_amount: funding,
        icon_url: String::from("icon"),
        web_site: String::from("site"),
        gogr_ext: 0,
        gold_grid: gold,
        bomb_grid: bomb,
        cooldown_duration: 10,
        allocation_value: value,
        allocation_percentage: pct,
        vrf_count: 0,
        game_count: 0,
    }
}

fn session() -> GameInfo {
    GameInfo {
        user: id(7),
        pool_id: 0,
        game_counter: 0,
        step: 0,
        token_amount: 0,
        game_status: GameStatus::Idle,
        mined_empty_grid: 0,
        mined_gold_grid: 0,
        grid_info: 0,
        grid_gold_info: 0,
        exploded_grid: 0,
        cooldown_timestamp: 0,
    }
}

fn registry() -> Launchpad {
    initialize_handler(InitLaunchpadArgs {
        gogr_mint: id(9),
        gogr_fee: 10,
        gogr_receiver: id(8),
        manager: id(5),
        burn_rate: 30,
    })
}

fn create_args(gold: u8, bomb: u8, pct: u64, extra: u64, funding: u64) -> CreatePoolArgs {
    CreatePoolArgs {
        icon_url: String::from("icon"),
        web_site: String::from("site"),
        gold_grid: gold,
        bomb_grid: bomb,
        cooldown_duration: 10,
        allocation_value: 50,
        allocation_percentage: pct,
        gogr_ext: extra,
        token_amount: funding,
    }
}

fn step(x: u8, y: u8, s: u8) -> MineArgs {
    MineArgs { pool_id: 0, pos_x: x, pos_y: y, step: s }
}

#[test]
fn classify_boundaries_are_inclusive() {
    assert_eq!(classify(10, 3, 2, 13), StepStatus::Empty);
    assert_eq!(classify(10, 3, 2, 3), StepStatus::Empty);
    assert_eq!(classify(10, 3, 2, 14), StepStatus::Gold);
    assert_eq!(classify(10, 3, 2, 15), StepStatus::Gold);
    assert_eq!(classify(10, 3, 2, 16), StepStatus::Exploded);
    assert_eq!(classify(10, 3, 2, 29), StepStatus::Exploded);
}

#[test]
fn classify_same_inputs_same_outcome() {
    for r in 0..200u64 {
        assert_eq!(classify(37, 20, 5, r), classify(37, 20, 5, r));
    }
}

#[test]
fn reward_flat_allocation() {
    assert_eq!(pool(5, 1, 1000, 0, 50).get_reward_amt(), 50);
    assert_eq!(pool(5, 1, 0, 0, 50).get_reward_amt(), 50);
}

#[test]
fn reward_percentage_allocation() {
    assert_eq!(pool(5, 1, 1000, 2500, 300).get_reward_amt(), 250);
    assert_eq!(pool(5, 1, 1000, 2500, 50).get_reward_amt(), 50);
    assert_eq!(pool(5, 1, 999, 1, 300).get_reward_amt(), 0);
    assert_eq!(pool(5, 1, 12345, 100, 1000).get_reward_amt(), 123);
}

#[test]
fn reward_never_exceeds_allocation_value() {
    for pct in [1u64, 10, 500, 5000, 9999] {
        for avail in [0u64, 1, 1000, 1_000_000, u64::MAX] {
            let p = pool(5, 1, avail, pct, 777);
            assert!(p.get_reward_amt() <= 777);
        }
    }
}

#[test]
fn total_grid_is_hundred() {
    assert_eq!(pool(5, 1, 1, 0, 1).total_grid(), 100);
}

#[test]
fn vrf_counter_wraps_before_overflow() {
    let mut p = pool(5, 1, 1000, 0, 50);
    p.vrf_count = u32::MAX - 1;
    let r = p.get_vrf(42);
    assert_eq!(p.vrf_count, 0);
    assert_eq!(r, draw(42, 0, 1000));
    let r2 = p.get_vrf(42);
    assert_eq!(p.vrf_count, 1);
    assert_eq!(r2, draw(42, 1, 1000));
    assert_ne!(r, r2);
}

#[test]
fn draw_is_repeatable() {
    assert_eq!(draw(1_700_000_000, 3, 1000), draw(1_700_000_000, 3, 1000));
    assert_ne!(draw(1_700_000_000, 3, 1000), draw(1_700_000_001, 3, 1000));
}

#[test]
fn bit_codec_sets_and_tests() {
    let m = set_bit(0, 37);
    assert_eq!(m, 1u128 << 37);
    assert!(test_bit(m, 37));
    assert!(!test_bit(m, 36));
    let m2 = set_bit(m, 99);
    assert!(test_bit(m2, 99) && test_bit(m2, 37));
}

#[test]
fn origin_counts_as_mined() {
    let g = session();
    assert!(g.get_grid_mined(0, 0));
    assert!(!g.get_grid_mined(0, 1));
    assert!(!g.get_grid_mined(9, 9));
}

#[test]
fn set_grid_mined_marks_masks() {
    let mut g = session();
    g.set_grid_mined(1, 2, StepStatus::Gold);
    assert_eq!(g.grid_info, 1u128 << 12);
    assert_eq!(g.grid_gold_info, 1u128 << 12);
    g.set_grid_mined(9, 9, StepStatus::Exploded);
    assert_eq!(g.grid_info, (1u128 << 12) | (1u128 << 99));
    assert_eq!(g.grid_gold_info, 1u128 << 12);
    assert_eq!(g.exploded_grid, 99);
    g.set_grid_mined(0, 3, StepStatus::Empty);
    assert!(g.get_grid_mined(0, 3));
    assert_eq!(g.grid_gold_info, 1u128 << 12);
}

#[test]
fn isolated_cell_is_rejected() {
    let g = session();
    for x in 0..10u8 {
        for y in 0..10u8 {
            let r = g.check_grid(x, y);
            let beside_origin = (x == 0 && y == 1) || (x == 1 && y == 0);
            if (x == 0 && y == 0) || beside_origin {
                assert_eq!(r, Ok(()));
            } else {
                assert_eq!(r, Err(LaunchpadErrorCode::GameStepPosErr));
            }
        }
    }
}

#[test]
fn adjacent_cell_is_accepted() {
    let mut g = session();
    g.set_grid_mined(4, 4, StepStatus::Empty);
    assert_eq!(g.check_grid(3, 4), Ok(()));
    assert_eq!(g.check_grid(5, 4), Ok(()));
    assert_eq!(g.check_grid(4, 3), Ok(()));
    assert_eq!(g.check_grid(4, 5), Ok(()));
    assert_eq!(g.check_grid(5, 5), Err(LaunchpadErrorCode::GameStepPosErr));
    assert_eq!(g.check_grid(4, 4), Err(LaunchpadErrorCode::GameStepPosErr));
}

#[test]
fn cell_off_grid_is_rejected() {
    let mut g = session();
    g.set_grid_mined(9, 0, StepStatus::Empty);
    assert_eq!(g.check_grid(10, 0), Err(LaunchpadErrorCode::GameStepPosErr));
    assert_eq!(g.check_grid(0, 10), Err(LaunchpadErrorCode::GameStepPosErr));
    assert_eq!(g.check_grid(255, 255), Err(LaunchpadErrorCode::GameStepPosErr));
}

#[test]
fn origin_revealed_once_per_round() {
    let mut g = session();
    assert_eq!(g.check_grid(0, 0), Ok(()));
    g.set_grid_mined(0, 0, StepStatus::Empty);
    assert_eq!(g.check_grid(0, 0), Err(LaunchpadErrorCode::GameStepPosErr));
}

#[test]
fn handle_vrf_empty_gold_and_bomb() {
    let p = pool(5, 3, 1000, 0, 50);
    // 100 cells left, 92 empty, 5 gold
    let mut g = session();
    assert_eq!(g.handle_vrf(&p, 92, 1000), Ok(StepStatus::Empty));
    assert_eq!(g.mined_empty_grid, 1);
    assert_eq!(g.game_status, GameStatus::Working);
    // 99 cells left, 91 empty, 5 gold
    assert_eq!(g.handle_vrf(&p, 92, 1000), Ok(StepStatus::Gold));
    assert_eq!(g.mined_gold_grid, 1);
    assert_eq!(g.token_amount, 50);
    // 98 cells left, 91 empty, 4 gold: 96 and 97 are bombs
    assert_eq!(g.handle_vrf(&p, 96, 1000), Ok(StepStatus::Exploded));
    assert_eq!(g.game_status, GameStatus::Exploded);
    assert_eq!(g.cooldown_timestamp, 1600);
    assert_eq!(g.mined_empty_grid, 1);
    assert_eq!(g.mined_gold_grid, 1);
}

#[test]
fn handle_vrf_rejects_exhausted_composition() {
    let p = pool(5, 94, 1000, 0, 50);
    let mut g = session();
    g.mined_empty_grid = 2;
    let before = g;
    assert_eq!(g.handle_vrf(&p, 0, 1000), Err(LaunchpadErrorCode::GameGridErr));
    assert_eq!(g.mined_empty_grid, before.mined_empty_grid);
}

#[test]
fn clear_data_resets_round() {
    let mut g = session();
    g.game_counter = 3;
    g.step = 4;
    g.token_amount = 90;
    g.game_status = GameStatus::Collected;
    g.mined_empty_grid = 2;
    g.mined_gold_grid = 1;
    g.grid_info = 7;
    g.grid_gold_info = 2;
    g.exploded_grid = 5;
    g.cooldown_timestamp = 100;
    g.clear_data();
    assert_eq!(g.game_counter, 3);
    assert_eq!(g.step, 0);
    assert_eq!(g.token_amount, 0);
    assert_eq!(g.game_status, GameStatus::Idle);
    assert_eq!(g.mined_empty_grid + g.mined_gold_grid, 0);
    assert_eq!(g.grid_info | g.grid_gold_info, 0);
    assert_eq!(g.exploded_grid, 0);
    assert_eq!(g.cooldown_timestamp, 0);
}

#[test]
fn first_step_at_origin_succeeds() {
    let mut lp = registry();
    let (mut p, _) = create_pool_handler(&mut lp, id(1), id(2), create_args(5, 1, 0, 0, 1000)).unwrap();
    assert_eq!(p.allocation_value, 50);
    let mut g = session();
    assert_eq!(mine_handler(&mut p, &mut g, step(0, 0, 1), 1_700_000_000), Ok(()));
    assert_eq!(g.step, 1);
    assert_eq!(p.vrf_count, 1);
    assert_eq!(g.grid_info, 1);
    let outcomes = g.mined_empty_grid as u32 + g.mined_gold_grid as u32;
    match g.game_status {
        GameStatus::Working => assert_eq!(outcomes, 1),
        GameStatus::Exploded => assert_eq!(outcomes, 0),
        _ => panic!("unexpected status"),
    }
    if g.mined_gold_grid == 1 {
        assert_eq!(g.token_amount, 50);
        assert_eq!(g.grid_gold_info, 1);
    }
}

#[test]
fn steps_follow_in_sequence() {
    let mut p = pool(1, 1, 1000, 0, 50);
    let mut g = session();
    let mut now: u32 = 1000;
    assert_eq!(mine_handler(&mut p, &mut g, step(0, 1, 1), now), Ok(()));
    if g.game_status != GameStatus::Working {
        return;
    }
    assert_eq!(mine_handler(&mut p, &mut g, step(0, 2, 3), now), Err(LaunchpadErrorCode::GameStepPosErr));
    assert_eq!(mine_handler(&mut p, &mut g, step(0, 1, 2), now), Err(LaunchpadErrorCode::GameStepPosErr));
    assert_eq!(mine_handler(&mut p, &mut g, step(5, 5, 2), now), Err(LaunchpadErrorCode::GameStepPosErr));
    now += 1;
    assert_eq!(mine_handler(&mut p, &mut g, step(0, 2, 2), now), Ok(()));
    assert!(g.get_grid_mined(0, 1) && g.get_grid_mined(0, 2));
}

#[test]
fn no_restart_while_working() {
    let mut p = pool(5, 1, 1000, 0, 50);
    let mut g = session();
    g.game_status = GameStatus::Working;
    g.step = 3;
    let before = g;
    assert_eq!(mine_handler(&mut p, &mut g, step(0, 1, 1), 5), Err(LaunchpadErrorCode::GameStatusErr));
    assert_eq!(g.step, before.step);
    assert_eq!(p.vrf_count, 0);
    g.game_counter = 2;
    assert_eq!(mine_handler(&mut p, &mut g, step(0, 1, 1), 5), Err(LaunchpadErrorCode::GameStatusErr));
}

#[test]
fn continue_needs_working_status() {
    let mut p = pool(5, 1, 1000, 0, 50);
    let mut g = session();
    g.game_status = GameStatus::Collected;
    g.game_counter = 1;
    g.step = 2;
    assert_eq!(mine_handler(&mut p, &mut g, step(0, 1, 3), 5), Err(LaunchpadErrorCode::GameStatusErr));
}

#[test]
fn depleted_pool_rejects_mining() {
    let mut p = pool(5, 1, 1000, 0, 50);
    p.available_token_amount = 0;
    let mut g = session();
    assert_eq!(mine_handler(&mut p, &mut g, step(0, 0, 1), 5), Err(LaunchpadErrorCode::PoolEndedErr));
}

#[test]
fn cooldown_blocks_new_round_until_expiry() {
    let t: u32 = 1_700_000_000;
    let mut p = pool(5, 1, 1000, 0, 50);
    let mut g = session();
    g.game_counter = 1;
    g.game_status = GameStatus::Collected;
    g.step = 6;
    g.token_amount = 100;
    g.mined_empty_grid = 4;
    g.mined_gold_grid = 2;
    g.grid_info = 0b1111110;
    g.grid_gold_info = 0b110;
    g.cooldown_timestamp = t + 600;
    assert_eq!(mine_handler(&mut p, &mut g, step(0, 0, 1), t + 599), Err(LaunchpadErrorCode::UserCoolDownPosErr));
    assert_eq!(g.step, 6);
    assert_eq!(mine_handler(&mut p, &mut g, step(0, 0, 1), t + 600), Ok(()));
    assert_eq!(g.step, 1);
    assert_eq!(g.grid_info, 1);
    assert_eq!(g.game_counter, if g.game_status == GameStatus::Exploded { 2 } else { 1 });
    assert!(g.mined_empty_grid + g.mined_gold_grid <= 1);
    assert!(g.token_amount == 0 || g.token_amount == 50);
    if g.game_status == GameStatus::Working {
        assert_eq!(g.cooldown_timestamp, 0);
    }
}

#[test]
fn bomb_ends_round_and_counts_it() {
    let mut p = pool(1, 98, 1000, 0, 50);
    let mut g = session();
    let mut exploded = false;
    let mut now: u32 = 10;
    while !exploded && now < 2000 {
        let mut trial_pool = p.clone();
        let mut trial = g;
        assert_eq!(mine_handler(&mut trial_pool, &mut trial, step(1, 0, 1), now), Ok(()));
        if trial.game_status == GameStatus::Exploded {
            exploded = true;
            assert_eq!(trial.exploded_grid, 10);
            assert_eq!(trial.game_counter, 1);
            assert_eq!(trial_pool.game_count, 1);
            assert_eq!(trial.cooldown_timestamp, now + 600);
            p = trial_pool;
            g = trial;
        }
        now += 1;
    }
    assert!(exploded);
    assert_eq!(mine_handler(&mut p, &mut g, step(0, 1, 2), now), Err(LaunchpadErrorCode::GameStatusErr));
}

#[test]
fn collect_pays_accrued_reward() {
    let mut p = pool(5, 1, 1000, 0, 50);
    let mut g = session();
    g.game_status = GameStatus::Working;
    g.token_amount = 150;
    assert_eq!(collect_handler(&mut p, &mut g, CollectArgs { pool_id: 0 }, 100), Ok(150));
    assert_eq!(p.available_token_amount, 850);
    assert_eq!(p.token_amount, 1000);
    assert_eq!(p.game_count, 1);
    assert_eq!(g.game_status, GameStatus::Collected);
    assert_eq!(g.game_counter, 1);
    assert_eq!(g.cooldown_timestamp, 700);
}

#[test]
fn collect_shortfall_is_forfeited() {
    let mut p = pool(5, 1, 1000, 0, 50);
    p.available_token_amount = 40;
    let mut g = session();
    g.game_status = GameStatus::Working;
    g.token_amount = 150;
    assert_eq!(collect_handler(&mut p, &mut g, CollectArgs { pool_id: 0 }, 100), Ok(40));
    assert_eq!(p.available_token_amount, 0);
    assert_eq!(g.game_status, GameStatus::Collected);
}

#[test]
fn collect_rejections() {
    let mut p = pool(5, 1, 1000, 0, 50);
    let mut g = session();
    g.token_amount = 10;
    assert_eq!(collect_handler(&mut p, &mut g, CollectArgs { pool_id: 0 }, 1), Err(LaunchpadErrorCode::GameStatusErr));
    g.game_status = GameStatus::Working;
    g.token_amount = 0;
    assert_eq!(collect_handler(&mut p, &mut g, CollectArgs { pool_id: 0 }, 1), Err(LaunchpadErrorCode::TokenAmtErr));
    g.token_amount = 10;
    g.game_counter = u32::MAX;
    assert_eq!(collect_handler(&mut p, &mut g, CollectArgs { pool_id: 0 }, 1), Err(LaunchpadErrorCode::ArithmeticOverflow));
    assert_eq!(p.available_token_amount, 1000);
    assert_eq!(g.game_status, GameStatus::Working);
}

#[test]
fn create_pool_with_fee_skim() {
    let mut lp = registry();
    let (p, f) = create_pool_handler(&mut lp, id(1), id(2), create_args(5, 1, 0, 90, 1000)).unwrap();
    assert_eq!(p.pool_id, 0);
    assert_eq!(lp.last_pool_id, 1);
    assert_eq!(p.token_amount, 1000);
    assert_eq!(p.available_token_amount, 1000);
    assert_eq!(p.gogr_ext, 100);
    assert_eq!(f.gogr_burn, 30);
    assert_eq!(f.gogr_transfer, 70);
    assert_eq!(f.pool_token_transfer, 1000);
    let (p2, _) = create_pool_handler(&mut lp, id(1), id(3), create_args(5, 1, 0, 0, 1)).unwrap();
    assert_eq!(p2.pool_id, 1);
    assert_eq!(lp.last_pool_id, 2);
}

#[test]
fn create_pool_in_fee_token_skims_nothing() {
    let mut lp = registry();
    let (p, f) = create_pool_handler(&mut lp, id(1), id(9), create_args(5, 1, 0, 90, 1000)).unwrap();
    assert_eq!(p.gogr_ext, 0);
    assert_eq!(f.gogr_burn, 0);
    assert_eq!(f.gogr_transfer, 0);
}

#[test]
fn create_pool_rejections() {
    let mut lp = registry();
    assert_eq!(create_pool_handler(&mut lp, id(1), id(2), create_args(5, 1, 10000, 0, 1)).unwrap_err(), LaunchpadErrorCode::ParamErr);
    assert_eq!(create_pool_handler(&mut lp, id(1), id(2), create_args(0, 0, 0, 0, 1)).unwrap_err(), LaunchpadErrorCode::GameGridErr);
    assert_eq!(create_pool_handler(&mut lp, id(1), id(2), create_args(50, 50, 0, 0, 1)).unwrap_err(), LaunchpadErrorCode::GameGridErr);
    assert_eq!(create_pool_handler(&mut lp, id(1), id(2), create_args(200, 200, 0, 0, 1)).unwrap_err(), LaunchpadErrorCode::GameGridErr);
    assert_eq!(create_pool_handler(&mut lp, id(1), id(2), create_args(5, 1, 0, 0, 0)).unwrap_err(), LaunchpadErrorCode::TokenAmtErr);
    assert_eq!(create_pool_handler(&mut lp, id(1), id(2), create_args(5, 1, 0, u64::MAX, 1)).unwrap_err(), LaunchpadErrorCode::ArithmeticOverflow);
    lp.burn_rate = 200;
    assert_eq!(create_pool_handler(&mut lp, id(1), id(2), create_args(5, 1, 0, 90, 1)).unwrap_err(), LaunchpadErrorCode::ParamErr);
    assert_eq!(lp.last_pool_id, 0);
    assert!(create_pool_handler(&mut lp, id(1), id(2), create_args(49, 50, 9999, 0, 1)).is_err());
}

#[test]
fn top_up_adds_funding() {
    let mut p = pool(5, 1, 1000, 0, 50);
    p.available_token_amount = 300;
    let t = update_pool_handler(&mut p, UpdatePoolArgs { gogr_ext: 0, token_amount: 500 }).unwrap();
    assert_eq!(p.token_amount, 1500);
    assert_eq!(p.available_token_amount, 800);
    assert_eq!(t.pool_token_transfer, 500);
    assert_eq!(t.gogr_transfer, 0);
}

#[test]
fn top_up_fee_goes_to_receiver() {
    let mut p = pool(5, 1, 1000, 0, 50);
    let t = update_pool_handler(&mut p, UpdatePoolArgs { gogr_ext: 25, token_amount: 0 }).unwrap();
    assert_eq!(p.gogr_ext, 25);
    assert_eq!(p.token_amount, 1000);
    assert_eq!(t.gogr_transfer, 25);
    assert_eq!(t.pool_token_transfer, 0);
    p.token_amount = u64::MAX;
    assert_eq!(update_pool_handler(&mut p, UpdatePoolArgs { gogr_ext: 1, token_amount: 1 }).unwrap_err(), LaunchpadErrorCode::ArithmeticOverflow);
    assert_eq!(p.gogr_ext, 25);
}

#[test]
fn update_by_admin_changes_given_fields() {
    let mut lp = registry();
    let args = UpdateArgs { gogr_fee: Some(3), gogr_receiver: None, manager: Some(id(6)), burn_rate: None };
    assert_eq!(update_handler(&mut lp, &id(5), args), Ok(()));
    assert_eq!(lp.gogr_fee, 3);
    assert_eq!(lp.gogr_receiver.bytes, [8u8; 32]);
    assert_eq!(lp.manager.bytes, [6u8; 32]);
    assert_eq!(lp.burn_rate, 30);
}

#[test]
fn update_by_other_is_rejected() {
    let mut lp = registry();
    let args = UpdateArgs { gogr_fee: Some(3), gogr_receiver: None, manager: None, burn_rate: Some(1) };
    assert_eq!(update_handler(&mut lp, &id(4), args), Err(LaunchpadErrorCode::AdminErr));
    assert_eq!(lp.gogr_fee, 10);
    assert_eq!(lp.burn_rate, 30);
}

#[test]
fn identity_comparison() {
    let a = id(1);
    let mut b = id(1);
    assert!(a.same(&b));
    b.bytes[31] = 2;
    assert!(!a.same(&b));
}

#[test]
fn allocation_type_default() {
    assert_eq!(AllocationType::default(), AllocationType::Percentages);
}

use swifey::address::Address;
use swifey::errors::SwifeyError;
use swifey::instructions::configure::{ConfigurationEvent, Configure};
use swifey::instructions::launch::{launch, Launch};
use swifey::instructions::migrate::{Migrate, MigrateParams, PoolState, PoolStatusBitIndex};
use swifey::instructions::swap::{announced_price, swap, Swap, TradeEvent};
use swifey::states::bonding_curve::{BondingCurve, TradeReceipt};
use swifey::states::config::{check_curve_parameters, Config, ConfigSettings};
use swifey::utils::transfers::{
    buy_transfers, migration_transfers, sell_transfers, Asset, Party, Transfer,
};
use swifey::utils::events::{
    ConfigurationInitialized, ConfigurationUpdated, CurveCompleted, MigrationCompleted,
    TokenLaunched, TokenPurchased, TokenSold,
};

const SOL: u64 = 1_000_000_000;
const START_SOL: u64 = 12_500_000_000;
const START_TOKEN: u64 = 800_000_000_000_000;
const SUPPLY: u64 = 1_000_000_000_000_000;
const LIMIT: u64 = 100_000_000_000;

fn id(b: u8) -> Address {
    Address::new([b; 32])
}

fn settings() -> ConfigSettings {
    ConfigSettings {
        authority: id(1),
        fee_recipient: id(2),
        curve_limit: LIMIT,
        initial_virtual_token_reserve: START_TOKEN,
        initial_virtual_sol_reserve: START_SOL,
        initial_real_token_reserve: 0,
        total_token_supply: SUPPLY,
        buy_fee_percentage: 100,
        sell_fee_percentage: 100,
        migration_fee_percentage: 500,
        max_price_impact: 10_000,
        is_paused: false,
    }
}

fn configured() -> Config {
    let mut ctx = Configure { admin: id(9), global_config: Config::default() };
    ctx.process(settings(), 0).unwrap();
    ctx.global_config
}

fn fresh_curve() -> BondingCurve {
    BondingCurve {
        virtual_token_reserve: START_TOKEN,
        virtual_sol_reserve: START_SOL,
        real_token_reserve: 0,
        real_sol_reserve: 4_000_000,
        token_total_supply: SUPPLY,
        is_completed: false,
        is_migrated: false,
    }
}

fn swap_ctx() -> Swap {
    Swap {
        user: id(7),
        user_balance: 200 * SOL,
        user_token_balance: START_TOKEN,
        global_config: configured(),
        fee_recipient: id(2),
        bonding_curve: fresh_curve(),
        token_mint: id(5),
        curve_sol_balance: 200 * SOL,
        curve_token_balance: SUPPLY,
    }
}

fn migrate_ctx() -> Migrate {
    Migrate {
        authority: id(1),
        config: configured(),
        bonding_curve: BondingCurve {
            virtual_sol_reserve: 101_600_000_000,
            virtual_token_reserve: 204_498_723_200_000,
            is_completed: true,
            ..fresh_curve()
        },
        token_mint: id(5),
        base_mint: id(6),
        curve_token_balance: 404_498_723_200_000,
        curve_sol_balance: 89_104_000_000,
        raydium_pool: id(20),
        pool: PoolState { owner: id(21), status: 0, token_mint_0: id(6), token_mint_1: id(5) },
        pool_program: id(21),
        fee_recipient: id(2),
    }
}

#[test]
fn addresses_compare_byte_for_byte() {
    let mut bytes = [3u8; 32];
    let a = Address::new(bytes);
    assert!(a.same(&id(3)));
    bytes[31] = 4;
    assert!(!a.same(&Address::new(bytes)));
    bytes[31] = 3;
    bytes[0] = 0;
    assert!(!a.same(&Address::new(bytes)));
    assert!(Address::default().is_default());
    assert!(Address::new([0u8; 32]).is_default());
    assert!(!a.is_default());
    let mut last = [0u8; 32];
    last[31] = 1;
    assert!(!Address::new(last).is_default());
    assert_eq!(Address::default().bytes, [0u8; 32]);
}

#[test]
fn defaults_are_unconfigured() {
    let c = Config::default();
    assert!(c.authority.is_default());
    assert!(c.fee_recipient.is_default());
    assert_eq!(c.curve_limit, 0);
    assert_eq!(c.total_token_supply, 0);
    assert_eq!(c.max_price_impact, 10_000);
    assert!(!c.is_paused);
    let s = ConfigSettings::default();
    assert!(s.authority.is_default());
    assert_eq!(s.buy_fee_percentage, 0);
    assert_eq!(s.max_price_impact, 10_000);
    assert!(!s.is_paused);
    assert_eq!(Config::LEN, 201);
    assert_eq!(Config::SEED_PREFIX, "global_config");
    assert_eq!(BondingCurve::LEN, 50);
    assert_eq!(BondingCurve::SEED_PREFIX, "bonding_curve");
}

#[test]
fn settings_are_validated_in_order() {
    assert_eq!(settings().validate(), Ok(()));
    let bad_fee = ConfigSettings { sell_fee_percentage: 10_001, total_token_supply: 0, ..settings() };
    assert_eq!(bad_fee.validate(), Err(SwifeyError::InvalidFeePercentage));
    let buy_fee = ConfigSettings { buy_fee_percentage: 10_001, ..settings() };
    assert_eq!(buy_fee.validate(), Err(SwifeyError::InvalidFeePercentage));
    let migration_fee = ConfigSettings { migration_fee_percentage: u64::MAX, ..settings() };
    assert_eq!(migration_fee.validate(), Err(SwifeyError::InvalidFeePercentage));
    let full_fee = ConfigSettings { buy_fee_percentage: 10_000, ..settings() };
    assert_eq!(full_fee.validate(), Ok(()));
    let few_tokens = ConfigSettings { initial_virtual_token_reserve: START_TOKEN - 1, ..settings() };
    assert_eq!(few_tokens.validate(), Err(SwifeyError::InvalidTokenAllocation));
    let little_sol = ConfigSettings { initial_virtual_sol_reserve: SOL - 1, ..settings() };
    assert_eq!(little_sol.validate(), Err(SwifeyError::InsufficientLiquidity));
    let one_sol = ConfigSettings { initial_virtual_sol_reserve: SOL, ..settings() };
    assert_eq!(one_sol.validate(), Ok(()));
    let low_limit = ConfigSettings { curve_limit: START_SOL, ..settings() };
    assert_eq!(low_limit.validate(), Err(SwifeyError::InvalidCurveLimit));
    let no_supply = ConfigSettings {
        total_token_supply: 0,
        initial_virtual_token_reserve: 0,
        ..settings()
    };
    assert_eq!(no_supply.validate(), Err(SwifeyError::InvalidTokenAllocation));
    let real_above_virtual =
        ConfigSettings { initial_real_token_reserve: START_TOKEN + 1, ..settings() };
    assert_eq!(real_above_virtual.validate(), Err(SwifeyError::InvalidTokenAllocation));
    // four fifths are not rounded down
    assert_eq!(check_curve_parameters(5, SOL, 0, 7, SOL + 1), Err(SwifeyError::InvalidTokenAllocation));
    assert_eq!(check_curve_parameters(6, SOL, 0, 7, SOL + 1), Ok(()));
    assert_eq!(check_curve_parameters(0, SOL, 0, 1, SOL + 1), Err(SwifeyError::InvalidTokenAllocation));
    assert_eq!(check_curve_parameters(1, SOL, 0, 1, SOL + 1), Ok(()));
    // four fifths of the largest supply there can be
    assert_eq!(
        check_curve_parameters(14_757_395_258_967_641_291, SOL, 0, u64::MAX, SOL + 1),
        Err(SwifeyError::InvalidTokenAllocation)
    );
    assert_eq!(
        check_curve_parameters(14_757_395_258_967_641_292, SOL, 0, u64::MAX, SOL + 1),
        Ok(())
    );
}

#[test]
fn first_configuration_is_open_to_anyone() {
    let mut ctx = Configure { admin: id(9), global_config: Config::default() };
    let event = ctx.process(settings(), 1_700_000_000).unwrap();
    assert_eq!(
        event,
        ConfigurationEvent::Initialized(ConfigurationInitialized {
            admin: id(9),
            authority: id(1),
            fee_recipient: id(2),
            curve_limit: LIMIT,
            initial_virtual_token_reserve: START_TOKEN,
            initial_virtual_sol_reserve: START_SOL,
            initial_real_token_reserve: 0,
            total_token_supply: SUPPLY,
            buy_fee_percentage: 100,
            sell_fee_percentage: 100,
            migration_fee_percentage: 500,
            is_paused: false,
            timestamp: 1_700_000_000,
        })
    );
    assert_eq!(ctx.admin, id(9));
    assert_eq!(ctx.global_config.authority, id(1));
    assert_eq!(ctx.global_config.fee_recipient, id(2));
    assert_eq!(ctx.global_config.curve_limit, LIMIT);
    assert_eq!(ctx.global_config.initial_virtual_token_reserve, START_TOKEN);
    assert_eq!(ctx.global_config.initial_virtual_sol_reserve, START_SOL);
    assert_eq!(ctx.global_config.total_token_supply, SUPPLY);
    assert_eq!(ctx.global_config.migration_fee_percentage, 500);
    assert_eq!(ctx.global_config.max_price_impact, 10_000);
}

#[test]
fn later_configuration_is_for_the_authority() {
    let mut stranger = Configure { admin: id(9), global_config: configured() };
    let wanted = ConfigSettings { is_paused: true, buy_fee_percentage: 250, ..settings() };
    assert_eq!(stranger.process(wanted, 5), Err(SwifeyError::UnauthorizedAddress));
    assert_eq!(stranger.global_config, configured());

    let mut owner = Configure { admin: id(1), global_config: configured() };
    let handed_over = ConfigSettings { authority: id(3), fee_recipient: id(4), ..wanted };
    let event = owner.process(handed_over, 77).unwrap();
    assert_eq!(
        event,
        ConfigurationEvent::Updated(ConfigurationUpdated {
            admin: id(1),
            old_authority: id(1),
            new_authority: id(3),
            old_fee_recipient: id(2),
            new_fee_recipient: id(4),
            old_curve_limit: LIMIT,
            new_curve_limit: LIMIT,
            old_buy_fee_percentage: 100,
            new_buy_fee_percentage: 250,
            old_sell_fee_percentage: 100,
            new_sell_fee_percentage: 100,
            old_migration_fee_percentage: 500,
            new_migration_fee_percentage: 500,
            old_is_paused: false,
            new_is_paused: true,
            timestamp: 77,
        })
    );
    assert!(owner.global_config.is_paused);
    assert_eq!(owner.global_config.authority, id(3));
    // the old authority has given its right away
    assert_eq!(owner.process(settings(), 78), Err(SwifeyError::UnauthorizedAddress));
}

#[test]
fn invalid_settings_change_nothing() {
    let mut owner = Configure { admin: id(1), global_config: configured() };
    let bad = ConfigSettings { curve_limit: 1, ..settings() };
    assert_eq!(owner.process(bad, 1), Err(SwifeyError::InvalidCurveLimit));
    assert_eq!(owner.global_config, configured());
    // a stranger with bad settings hears about the settings first
    let mut stranger = Configure { admin: id(9), global_config: configured() };
    assert_eq!(stranger.process(bad, 1), Err(SwifeyError::InvalidCurveLimit));
}

fn launch_ctx(config: Config) -> Launch {
    Launch {
        creator: id(8),
        global_config: config,
        token_mint: id(5),
        bonding_curve: BondingCurve {
            virtual_token_reserve: 0,
            virtual_sol_reserve: 0,
            real_token_reserve: 0,
            real_sol_reserve: 0,
            token_total_supply: 0,
            is_completed: false,
            is_migrated: false,
        },
    }
}

#[test]
fn launch_seeds_the_curve_from_the_configuration() {
    let mut ctx = launch_ctx(configured());
    let receipt = launch(
        &mut ctx,
        String::from("Swifey"),
        String::from("SWF"),
        String::from("https://example.org/swf.json"),
        1_238_880,
    )
    .unwrap();
    assert_eq!(receipt.rent_buffer, 2_477_760);
    assert_eq!(receipt.mint_amount, SUPPLY);
    assert_eq!(
        receipt.event,
        TokenLaunched {
            token_mint: id(5),
            name: String::from("Swifey"),
            symbol: String::from("SWF"),
            uri: String::from("https://example.org/swf.json"),
            creator: id(8),
            initial_virtual_sol_reserve: START_SOL,
            initial_virtual_token_reserve: START_TOKEN,
            total_token_supply: SUPPLY,
            curve_limit: LIMIT,
        }
    );
    assert_eq!(
        ctx.bonding_curve,
        BondingCurve {
            virtual_token_reserve: START_TOKEN,
            virtual_sol_reserve: START_SOL,
            real_token_reserve: 0,
            real_sol_reserve: 2_477_760,
            token_total_supply: SUPPLY,
            is_completed: false,
            is_migrated: false,
        }
    );
    assert_eq!(ctx.global_config, configured());
}

#[test]
fn launch_failures_leave_the_record_alone() {
    let empty = launch_ctx(configured()).bonding_curve;
    let mut paused = launch_ctx(Config { is_paused: true, ..configured() });
    assert_eq!(
        launch(&mut paused, String::new(), String::new(), String::new(), 1),
        Err(SwifeyError::ContractPaused)
    );
    assert_eq!(paused.bonding_curve, empty);
    let mut huge = launch_ctx(configured());
    assert_eq!(
        launch(&mut huge, String::new(), String::new(), String::new(), u64::MAX / 2 + 1),
        Err(SwifeyError::MathOverflow)
    );
    assert_eq!(huge.bonding_curve, empty);
    let mut unconfigured = launch_ctx(Config::default());
    assert_eq!(
        launch(&mut unconfigured, String::new(), String::new(), String::new(), 1),
        Err(SwifeyError::InsufficientLiquidity)
    );
    let mut low_limit = launch_ctx(Config { curve_limit: START_SOL, ..configured() });
    assert_eq!(
        launch(&mut low_limit, String::new(), String::new(), String::new(), 1),
        Err(SwifeyError::InvalidCurveLimit)
    );
    let mut few = launch_ctx(Config { initial_virtual_token_reserve: 1, ..configured() });
    assert_eq!(
        launch(&mut few, String::new(), String::new(), String::new(), 1),
        Err(SwifeyError::InvalidTokenAllocation)
    );
    assert_eq!(few.bonding_curve, empty);
}

#[test]
fn swap_buys_and_announces_the_purchase() {
    let mut ctx = swap_ctx();
    let receipt = swap(&mut ctx, SOL, 0, 38_000_000_000_000).unwrap();
    let trade = TradeReceipt {
        amount_in: SOL,
        amount_out: 38_726_648_000_000,
        fee_amount: 10_000_000,
        net_amount: 990_000_000,
        new_sol_reserves: 13_490_000_000,
        new_token_reserves: 761_273_352_000_000,
        is_completed: false,
    };
    assert_eq!(receipt.trade, trade);
    assert_eq!(receipt.completed, None);
    assert_eq!(
        receipt.event,
        TradeEvent::Purchased(TokenPurchased {
            token_mint: id(5),
            buyer: id(7),
            sol_amount: SOL,
            token_amount: 38_726_648_000_000,
            fee_amount: 10_000_000,
            price: 56_432_420_459,
            new_sol_reserves: 13_490_000_000,
            new_token_reserves: 761_273_352_000_000,
        })
    );
    assert_eq!(ctx.bonding_curve.virtual_sol_reserve, 13_490_000_000);
    assert_eq!(ctx.bonding_curve.virtual_token_reserve, 761_273_352_000_000);
    assert_eq!(
        Swap { bonding_curve: fresh_curve(), ..ctx },
        swap_ctx()
    );
}

#[test]
fn swap_sells_and_announces_the_sale() {
    let mut ctx = swap_ctx();
    swap(&mut ctx, 5 * SOL, 0, 0).unwrap();
    let receipt = swap(&mut ctx, 10_000_000_000_000, 1, 400_000_000).unwrap();
    assert_eq!(receipt.completed, None);
    assert_eq!(
        receipt.event,
        TradeEvent::Sold(TokenSold {
            token_mint: id(5),
            seller: id(7),
            sol_amount: 408_284_385,
            token_amount: 10_000_000_000_000,
            fee_amount: 4_082_843,
            price: 38_366_300_786,
            new_sol_reserves: 17_041_715_615,
            new_token_reserves: 653_827_587_200_000,
        })
    );
    assert_eq!(receipt.trade.amount_out - receipt.trade.fee_amount, 404_201_542);
    assert_eq!(ctx.bonding_curve.virtual_sol_reserve, 17_041_715_615);
}

#[test]
fn swap_announces_completion_once() {
    let mut ctx = swap_ctx();
    ctx.global_config.max_price_impact = 1_000_000_000;
    let receipt = swap(&mut ctx, 90 * SOL, 0, 0).unwrap();
    assert_eq!(
        receipt.completed,
        Some(CurveCompleted {
            token_mint: id(5),
            final_sol_reserve: 101_600_000_000,
            final_token_reserve: 204_498_724_000_000,
        })
    );
    assert!(receipt.trade.is_completed);
    assert!(ctx.bonding_curve.is_completed);
    match receipt.event {
        TradeEvent::Purchased(p) => assert_eq!(p.price, 2_012_782_716),
        TradeEvent::Sold(_) => panic!("a buy was announced as a sale"),
    }
    let done = ctx;
    assert_eq!(swap(&mut ctx, SOL, 0, 0), Err(SwifeyError::CurveLimitReached));
    assert_eq!(swap(&mut ctx, 1_000_000, 1, 0), Err(SwifeyError::CurveLimitReached));
    assert_eq!(ctx, done);
}

#[test]
fn swap_refusals_change_nothing() {
    let mut ctx = swap_ctx();
    ctx.global_config.is_paused = true;
    ctx.fee_recipient = id(3);
    let paused = ctx;
    assert_eq!(swap(&mut ctx, SOL, 0, 0), Err(SwifeyError::ContractPaused));
    assert_eq!(swap(&mut ctx, 1_000_000, 1, 0), Err(SwifeyError::ContractPaused));
    assert_eq!(swap(&mut ctx, 1, 9, 0), Err(SwifeyError::ContractPaused));
    assert_eq!(ctx, paused);

    let mut ctx = swap_ctx();
    ctx.fee_recipient = id(3);
    assert_eq!(swap(&mut ctx, SOL, 0, 0), Err(SwifeyError::IncorrectFeeRecipient));
    assert_eq!(swap(&mut ctx, 10_000_000_000_000, 1, 0), Err(SwifeyError::IncorrectFeeRecipient));
    // dust and a complete curve are reported whoever is to be paid the fee
    assert_eq!(swap(&mut ctx, 999_999, 0, 0), Err(SwifeyError::DustAmount));
    assert_eq!(swap(&mut ctx, 999, 1, 0), Err(SwifeyError::DustAmount));
    ctx.bonding_curve.is_completed = true;
    assert_eq!(swap(&mut ctx, SOL, 0, 0), Err(SwifeyError::CurveLimitReached));
    assert_eq!(swap(&mut ctx, 1, 1, 0), Err(SwifeyError::CurveLimitReached));
    let mut ctx = swap_ctx();
    assert_eq!(swap(&mut ctx, SOL, 2, 0), Err(SwifeyError::InvalidDirection));
    assert_eq!(swap(&mut ctx, 999_999, 0, 0), Err(SwifeyError::DustAmount));
    assert_eq!(swap(&mut ctx, 999, 1, 0), Err(SwifeyError::DustAmount));
    ctx.user_balance = SOL - 1;
    assert_eq!(swap(&mut ctx, SOL, 0, 0), Err(SwifeyError::InsufficientUserBalance));
    ctx.user_balance = SOL;
    assert_eq!(swap(&mut ctx, SOL, 0, u64::MAX), Err(SwifeyError::InsufficientAmountOut));
    assert_eq!(ctx.bonding_curve, fresh_curve());
}

#[test]
fn announced_price_counts_tokens_per_unit_in_millionths() {
    assert_eq!(announced_price(13_490_000_000, 761_273_352_000_000), 56_432_420_459);
    assert_eq!(announced_price(3, 1), 333_333);
    assert_eq!(announced_price(0, 5), 0);
    assert_eq!(announced_price(1, u64::MAX), u64::MAX);
    assert_eq!(announced_price(1_000_000, u64::MAX), u64::MAX);
    assert_eq!(announced_price(1_000_001, u64::MAX), 18_446_725_626_983_924_631);
}

#[test]
fn migration_moves_everything_once() {
    let mut ctx = migrate_ctx();
    let params = MigrateParams { minimum_sol_amount: 84_648_800_000, minimum_token_amount: 1 };
    let event = ctx.process(params).unwrap();
    assert_eq!(
        event,
        MigrationCompleted {
            token_mint: id(5),
            sol_amount: 84_648_800_000,
            token_amount: 404_498_723_200_000,
            migration_fee: 4_455_200_000,
            raydium_pool: id(20),
        }
    );
    assert_eq!(event.sol_amount + event.migration_fee, 89_104_000_000);
    assert!(ctx.bonding_curve.is_migrated);
    assert!(ctx.bonding_curve.is_completed);
    let migrated = ctx;
    assert_eq!(
        Migrate { bonding_curve: migrate_ctx().bonding_curve, ..ctx },
        migrate_ctx()
    );
    // the second call fails, with these and with any other minima
    assert_eq!(ctx.process(params), Err(SwifeyError::AlreadyMigrated));
    assert_eq!(
        ctx.process(MigrateParams { minimum_sol_amount: 0, minimum_token_amount: 0 }),
        Err(SwifeyError::AlreadyMigrated)
    );
    assert_eq!(ctx, migrated);
}

#[test]
fn migration_before_completion_fails() {
    let mut ctx = migrate_ctx();
    ctx.bonding_curve.is_completed = false;
    let before = ctx;
    assert_eq!(
        ctx.process(MigrateParams { minimum_sol_amount: 0, minimum_token_amount: 0 }),
        Err(SwifeyError::CurveNotCompleted)
    );
    assert_eq!(ctx, before);
}

#[test]
fn migration_refusals_in_order() {
    let none = MigrateParams { minimum_sol_amount: 0, minimum_token_amount: 0 };
    let mut ctx = migrate_ctx();
    ctx.authority = id(9);
    ctx.bonding_curve.is_completed = false;
    assert_eq!(ctx.process(none), Err(SwifeyError::UnauthorizedAddress));

    let mut ctx = migrate_ctx();
    ctx.fee_recipient = id(3);
    ctx.pool.owner = id(22);
    assert_eq!(ctx.process(none), Err(SwifeyError::IncorrectFeeRecipient));
    assert_eq!(ctx.bonding_curve, migrate_ctx().bonding_curve);
    ctx.bonding_curve.is_migrated = true;
    assert_eq!(ctx.process(none), Err(SwifeyError::AlreadyMigrated));

    let mut ctx = migrate_ctx();
    ctx.pool.owner = id(22);
    ctx.pool.status = 16;
    assert_eq!(ctx.process(none), Err(SwifeyError::InvalidPoolOwner));
    ctx.pool.owner = id(21);
    ctx.pool.token_mint_0 = id(30);
    assert_eq!(ctx.process(none), Err(SwifeyError::InvalidPoolState));
    ctx.pool.status = 15;
    assert_eq!(ctx.process(none), Err(SwifeyError::InvalidPoolTokens));
    // the token alone is not enough: the other asset has to be the base currency
    ctx.pool.token_mint_0 = id(5);
    ctx.pool.token_mint_1 = id(5);
    assert_eq!(ctx.process(none), Err(SwifeyError::InvalidPoolTokens));
    ctx.pool.token_mint_1 = id(6);
    ctx.curve_token_balance = 0;
    ctx.curve_sol_balance = 0;
    assert_eq!(ctx.process(none), Err(SwifeyError::InsufficientTokenBalance));
    ctx.curve_token_balance = 10;
    assert_eq!(ctx.process(none), Err(SwifeyError::InsufficientSolBalance));
    ctx.curve_sol_balance = 20_000;
    ctx.config.migration_fee_percentage = 10_001;
    assert_eq!(ctx.process(none), Err(SwifeyError::InsufficientSolBalance));
    ctx.curve_sol_balance = u64::MAX;
    assert_eq!(ctx.process(none), Err(SwifeyError::MathOverflow));
    ctx.config.migration_fee_percentage = 500;
    ctx.curve_sol_balance = 1_000;
    assert_eq!(
        ctx.process(MigrateParams { minimum_sol_amount: 951, minimum_token_amount: 0 }),
        Err(SwifeyError::SlippageExceeded)
    );
    assert_eq!(
        ctx.process(MigrateParams { minimum_sol_amount: 950, minimum_token_amount: 11 }),
        Err(SwifeyError::SlippageExceeded)
    );
    assert!(!ctx.bonding_curve.is_migrated);
    assert_eq!(
        ctx.process(MigrateParams { minimum_sol_amount: 950, minimum_token_amount: 10 }),
        Ok(MigrationCompleted {
            token_mint: id(5),
            sol_amount: 950,
            token_amount: 10,
            migration_fee: 50,
            raydium_pool: id(20),
        })
    );
}

#[test]
fn pool_status_has_one_bit_for_each_closure() {
    let pool = |status: u8| PoolState { owner: id(21), status, token_mint_0: id(6), token_mint_1: id(5) };
    assert!(pool(0).get_status_by_bit(PoolStatusBitIndex::Swap));
    assert!(!pool(16).get_status_by_bit(PoolStatusBitIndex::Swap));
    assert!(!pool(0xff).get_status_by_bit(PoolStatusBitIndex::Swap));
    assert!(pool(0xef).get_status_by_bit(PoolStatusBitIndex::Swap));
    assert!(!pool(1).get_status_by_bit(PoolStatusBitIndex::OpenPositionOrIncreaseLiquidity));
    assert!(pool(1).get_status_by_bit(PoolStatusBitIndex::DecreaseLiquidity));
    assert!(!pool(2).get_status_by_bit(PoolStatusBitIndex::DecreaseLiquidity));
    assert!(!pool(4).get_status_by_bit(PoolStatusBitIndex::CollectFee));
    assert!(!pool(8).get_status_by_bit(PoolStatusBitIndex::CollectReward));
    assert!(pool(16).get_status_by_bit(PoolStatusBitIndex::CollectReward));
}

#[test]
fn transfers_of_a_buy_come_in_order() {
    let mut ctx = swap_ctx();
    let receipt = swap(&mut ctx, SOL, 0, 0).unwrap();
    assert_eq!(
        buy_transfers(&receipt.trade),
        [
            Transfer {
                asset: Asset::BaseCurrency,
                from: Party::Trader,
                to: Party::FeeRecipient,
                amount: 10_000_000,
            },
            Transfer {
                asset: Asset::BaseCurrency,
                from: Party::Trader,
                to: Party::Custody,
                amount: 990_000_000,
            },
            Transfer {
                asset: Asset::Token,
                from: Party::Custody,
                to: Party::Trader,
                amount: 38_726_648_000_000,
            },
        ]
    );
}

#[test]
fn transfers_of_a_sell_come_in_order() {
    let mut ctx = swap_ctx();
    swap(&mut ctx, 5 * SOL, 0, 0).unwrap();
    let receipt = swap(&mut ctx, 10_000_000_000_000, 1, 0).unwrap();
    assert_eq!(
        sell_transfers(&receipt.trade),
        [
            Transfer {
                asset: Asset::Token,
                from: Party::Trader,
                to: Party::Custody,
                amount: 10_000_000_000_000,
            },
            Transfer {
                asset: Asset::BaseCurrency,
                from: Party::Custody,
                to: Party::Trader,
                amount: 404_201_542,
            },
            Transfer {
                asset: Asset::BaseCurrency,
                from: Party::Custody,
                to: Party::FeeRecipient,
                amount: 4_082_843,
            },
        ]
    );
}

#[test]
fn transfers_of_a_migration_empty_the_custody() {
    let mut ctx = migrate_ctx();
    let event = ctx.process(MigrateParams { minimum_sol_amount: 0, minimum_token_amount: 0 }).unwrap();
    let transfers = migration_transfers(&event);
    assert_eq!(
        transfers,
        [
            Transfer {
                asset: Asset::BaseCurrency,
                from: Party::Custody,
                to: Party::FeeRecipient,
                amount: 4_455_200_000,
            },
            Transfer {
                asset: Asset::BaseCurrency,
                from: Party::Custody,
                to: Party::Pool,
                amount: 84_648_800_000,
            },
            Transfer {
                asset: Asset::Token,
                from: Party::Custody,
                to: Party::Pool,
                amount: 404_498_723_200_000,
            },
        ]
    );
    assert_eq!(transfers[0].amount + transfers[1].amount, migrate_ctx().curve_sol_balance);
    assert_eq!(transfers[2].amount, migrate_ctx().curve_token_balance);
}

#[test]
fn entry_points_do_what_the_instructions_do() {
    let mut by_entry = Configure { admin: id(9), global_config: Config::default() };
    let mut by_method = by_entry;
    assert_eq!(
        swifey::configure(&mut by_entry, settings(), 3),
        by_method.process(settings(), 3)
    );
    assert_eq!(by_entry, by_method);
    let params = MigrateParams { minimum_sol_amount: 1, minimum_token_amount: 1 };
    let mut by_entry = migrate_ctx();
    let mut by_method = migrate_ctx();
    assert_eq!(swifey::migrate(&mut by_entry, params), by_method.process(params));
    assert_eq!(by_entry, by_method);
    assert!(by_entry.bonding_curve.is_migrated);
    let mut by_entry = swap_ctx();
    let mut by_method = swap_ctx();
    assert_eq!(swifey::swap(&mut by_entry, SOL, 0, 0), swap(&mut by_method, SOL, 0, 0));
    assert_eq!(by_entry, by_method);
}

use market_sim::goods::GoodsType;
use market_sim::market::Clearing;
use market_sim::orders::{BuyOrder, OrderError, OrderType, SellOrder};
use market_sim::population::{Class, Income, Person};
use market_sim::prices::PriceBook;
use market_sim::simulation::Simulation;
use rand::rngs::StdRng;
use rand::SeedableRng;

fn person(id: i64, class_draw: u32, income_draw: u32) -> Person {
    Person::from_draws(id, class_draw, income_draw)
}

#[test]
fn proletarians_ask_for_food_by_tier() {
    let prices = PriceBook::new();
    for (income_draw, units) in [(0u32, 1i64), (80, 2), (95, 3), (99, 4)] {
        assert_eq!(
            person(1, 5, income_draw).decide(&prices),
            Some(BuyOrder {
                goods_type: GoodsType::Food,
                amount: units,
                price: 1000,
                order_type: OrderType::Person,
            })
        );
    }
}

#[test]
fn bourgeois_ask_for_nothing() {
    let prices = PriceBook::new();
    assert_eq!(person(1, 0, 50).decide(&prices), None);
    assert_eq!(person(2, 1, 99).decide(&prices), None);
}

#[test]
fn orders_name_the_current_food_price() {
    let mut prices = PriceBook::new();
    prices.set_price(GoodsType::Food, 1234);
    prices.set_price(GoodsType::Wine, 5);
    assert_eq!(person(1, 5, 0).decide(&prices).map(|order| order.price), Some(1234));
}

#[test]
fn startup_opens_the_price_book() {
    let mut rng = StdRng::seed_from_u64(11);
    let simulation = Simulation::startup(250, &mut rng);
    assert_eq!(simulation.agents().len(), 250);
    assert_eq!(simulation.prices().len(), 17);
    assert_eq!(simulation.prices().records().len(), 17);
    for goods_type in GoodsType::all() {
        assert_eq!(simulation.prices().price(goods_type), 1000);
    }
    assert!(simulation.orders().is_empty());
    for (place, agent) in simulation.agents().iter().enumerate() {
        assert_eq!(agent.id, place as i64);
    }
}

#[test]
fn decision_pass_places_one_order_per_proletarian() {
    let agents = vec![person(0, 5, 0), person(1, 0, 0), person(2, 5, 99), person(3, 9, 75)];
    let mut simulation = Simulation::new(agents.clone());
    simulation.decision_pass();
    let placed: Vec<(i64, u64)> =
        simulation.orders().buy_orders().iter().map(|order| (order.amount, order.price)).collect();
    assert_eq!(placed, vec![(1, 1000), (4, 1000), (2, 1000)]);
    assert!(simulation.orders().sell_orders().is_empty());
    assert_eq!(simulation.agents(), &agents);
}

#[test]
fn one_tick_of_a_thousand_agents() {
    let mut rng = StdRng::seed_from_u64(42);
    let mut simulation = Simulation::startup(1000, &mut rng);
    let mut expected: i64 = 0;
    let mut bourgeois = 0;
    for agent in simulation.agents() {
        match agent.class {
            Class::Bourgeois => bourgeois += 1,
            Class::Proletariat => {
                expected += match agent.income {
                    Income::Low => 1,
                    Income::Middle => 2,
                    Income::High => 3,
                    Income::VeryHigh => 4,
                }
            },
        }
    }
    assert!(bourgeois > 0);
    assert!(expected >= 1000 - bourgeois);
    let before = simulation.agents().clone();
    let report = simulation.tick().unwrap();
    assert_eq!(
        report,
        vec![Clearing {
            goods_type: GoodsType::Food,
            demand: expected,
            supply: 0,
            traded: 0,
            price: 1000,
            next_price: 1050,
        }]
    );
    assert!(simulation.orders().is_empty());
    assert_eq!(simulation.prices().len(), 17);
    assert_eq!(simulation.prices().records().len(), 17);
    assert_eq!(simulation.prices().price(GoodsType::Food), 1050);
    assert_eq!(simulation.prices().price(GoodsType::Steel), 1000);
    assert_eq!(simulation.agents(), &before);
}

#[test]
fn bourgeois_alone_trade_nothing() {
    let mut simulation = Simulation::new(vec![person(0, 0, 10), person(1, 1, 20)]);
    assert_eq!(simulation.tick(), Ok(Vec::new()));
    assert!(simulation.orders().is_empty());
    for goods_type in GoodsType::all() {
        assert_eq!(simulation.prices().price(goods_type), 1000);
    }
}

#[test]
fn market_sees_every_order_of_the_tick() {
    let mut simulation = Simulation::new(vec![person(0, 5, 0), person(1, 5, 95)]);
    let offer = SellOrder {
        goods_type: GoodsType::Food,
        amount: 10,
        price: 1000,
        order_type: OrderType::Production,
    };
    assert_eq!(simulation.place_sell(offer), Ok(()));
    let extra = BuyOrder {
        goods_type: GoodsType::Tool,
        amount: 2,
        price: 1000,
        order_type: OrderType::Production,
    };
    assert_eq!(simulation.place_buy(extra), Ok(()));
    assert_eq!(
        simulation.place_buy(BuyOrder { amount: 0, ..extra }),
        Err(OrderError::NonPositiveAmount)
    );
    let report = simulation.tick().unwrap();
    assert_eq!(
        report,
        vec![
            Clearing {
                goods_type: GoodsType::Food,
                demand: 4,
                supply: 10,
                traded: 4,
                price: 1000,
                next_price: 979,
            },
            Clearing {
                goods_type: GoodsType::Tool,
                demand: 2,
                supply: 0,
                traded: 0,
                price: 1000,
                next_price: 1050,
            },
        ]
    );
    assert!(simulation.orders().is_empty());
}

#[test]
fn prices_carry_over_and_orders_do_not() {
    let mut simulation = Simulation::new(vec![person(0, 5, 0)]);
    let first = simulation.tick().unwrap();
    let second = simulation.tick().unwrap();
    assert_eq!(first[0].demand, 1);
    assert_eq!(second[0].demand, 1);
    assert_eq!(first[0].price, 1000);
    assert_eq!(first[0].next_price, 1050);
    assert_eq!(second[0].price, 1050);
    assert_eq!(second[0].next_price, 1102);
    assert_eq!(simulation.prices().price(GoodsType::Food), 1102);
    assert!(simulation.orders().is_empty());
}

#[test]
fn market_pass_alone_empties_the_book() {
    let mut simulation = Simulation::new(Vec::new());
    let order = BuyOrder {
        goods_type: GoodsType::Coal,
        amount: 3,
        price: 1000,
        order_type: OrderType::Production,
    };
    assert_eq!(simulation.place_buy(order), Ok(()));
    assert!(!simulation.orders().is_empty());
    let report = simulation.market_pass().unwrap();
    assert_eq!(report.len(), 1);
    assert_eq!(report[0].goods_type, GoodsType::Coal);
    assert!(simulation.orders().is_empty());
    assert_eq!(simulation.prices().len(), 17);
}

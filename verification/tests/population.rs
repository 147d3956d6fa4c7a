use market_sim::population::{generate, Class, Income, Person, CLASS_DRAWS, INCOME_DRAWS};
use rand::rngs::StdRng;
use rand::SeedableRng;

#[test]
fn class_brackets() {
    assert_eq!(Class::from_draw(0), Class::Bourgeois);
    assert_eq!(Class::from_draw(1), Class::Bourgeois);
    assert_eq!(Class::from_draw(2), Class::Proletariat);
    assert_eq!(Class::from_draw(9), Class::Proletariat);
}

#[test]
fn income_brackets() {
    assert_eq!(Income::from_draw(0), Income::Low);
    assert_eq!(Income::from_draw(70), Income::Low);
    assert_eq!(Income::from_draw(71), Income::Middle);
    assert_eq!(Income::from_draw(90), Income::Middle);
    assert_eq!(Income::from_draw(91), Income::High);
    assert_eq!(Income::from_draw(98), Income::High);
    assert_eq!(Income::from_draw(99), Income::VeryHigh);
}

#[test]
fn draws_split_two_to_eight() {
    assert_eq!(CLASS_DRAWS, 10);
    let bourgeois = (0..CLASS_DRAWS).filter(|d| Class::from_draw(*d) == Class::Bourgeois).count();
    assert_eq!(bourgeois, 2);
}

#[test]
fn draws_split_by_income_shares() {
    assert_eq!(INCOME_DRAWS, 100);
    let count = |tier: Income| (0..INCOME_DRAWS).filter(|d| Income::from_draw(*d) == tier).count();
    assert_eq!(count(Income::Low), 71);
    assert_eq!(count(Income::Middle), 20);
    assert_eq!(count(Income::High), 8);
    assert_eq!(count(Income::VeryHigh), 1);
}

#[test]
fn starting_money_by_tier() {
    assert_eq!(Income::Low.starting_money(), 10_000);
    assert_eq!(Income::Middle.starting_money(), 50_000);
    assert_eq!(Income::High.starting_money(), 100_000);
    assert_eq!(Income::VeryHigh.starting_money(), 1_500_000);
}

#[test]
fn food_units_by_tier() {
    assert_eq!(Income::Low.food_units(), 1);
    assert_eq!(Income::Middle.food_units(), 2);
    assert_eq!(Income::High.food_units(), 3);
    assert_eq!(Income::VeryHigh.food_units(), 4);
}

#[test]
fn bourgeois_is_forced_into_the_top_tier() {
    let person = Person::from_draws(3, 1, 0);
    assert_eq!(
        person,
        Person { id: 3, class: Class::Bourgeois, income: Income::VeryHigh, money: 1_500_000 }
    );
    let made = Person::new(4, Class::Bourgeois, Income::Low);
    assert_eq!(made.income, Income::VeryHigh);
    assert_eq!(made.money, 1_500_000);
}

#[test]
fn proletarian_keeps_the_drawn_tier() {
    assert_eq!(
        Person::from_draws(5, 2, 0),
        Person { id: 5, class: Class::Proletariat, income: Income::Low, money: 10_000 }
    );
    assert_eq!(
        Person::from_draws(6, 9, 80),
        Person { id: 6, class: Class::Proletariat, income: Income::Middle, money: 50_000 }
    );
    assert_eq!(
        Person::from_draws(7, 5, 95),
        Person { id: 7, class: Class::Proletariat, income: Income::High, money: 100_000 }
    );
    assert_eq!(
        Person::from_draws(8, 5, 99),
        Person { id: 8, class: Class::Proletariat, income: Income::VeryHigh, money: 1_500_000 }
    );
}

#[test]
fn generate_nobody() {
    let mut rng = StdRng::seed_from_u64(1);
    assert!(generate(0, &mut rng).is_empty());
}

#[test]
fn generate_gives_n_agents_with_ids_in_order() {
    for n in [1usize, 2, 17, 1000] {
        let mut rng = StdRng::seed_from_u64(n as u64);
        let people = generate(n, &mut rng);
        assert_eq!(people.len(), n);
        for (place, person) in people.iter().enumerate() {
            assert_eq!(person.id, place as i64);
        }
    }
}

#[test]
fn generated_bourgeois_are_rich() {
    let mut rng = StdRng::seed_from_u64(7);
    let people = generate(5000, &mut rng);
    let mut bourgeois = 0;
    for person in &people {
        assert_eq!(person.money, person.income.starting_money());
        if person.class == Class::Bourgeois {
            bourgeois += 1;
            assert_eq!(person.income, Income::VeryHigh);
            assert_eq!(person.money, 1_500_000);
        }
    }
    assert!(bourgeois > 0);
}

#[test]
fn same_seed_same_population() {
    let mut first = StdRng::seed_from_u64(99);
    let mut second = StdRng::seed_from_u64(99);
    assert_eq!(generate(500, &mut first), generate(500, &mut second));
}

#[test]
fn sampled_class_and_income_vary() {
    let mut rng = StdRng::seed_from_u64(3);
    let mut bourgeois = 0;
    let mut proletarians = 0;
    let mut low = 0;
    let mut not_low = 0;
    for _ in 0..2000 {
        match Class::sample(&mut rng) {
            Class::Bourgeois => bourgeois += 1,
            Class::Proletariat => proletarians += 1,
        }
        match Income::sample(&mut rng) {
            Income::Low => low += 1,
            _ => not_low += 1,
        }
    }
    assert!(bourgeois > 0 && proletarians > 0);
    assert!(low > 0 && not_low > 0);
}

#[test]
fn shares_over_a_large_population() {
    let n = 100_000usize;
    let mut rng = StdRng::seed_from_u64(2024);
    let people = generate(n, &mut rng);
    assert_eq!(people.len(), n);
    let bourgeois = people.iter().filter(|p| p.class == Class::Bourgeois).count();
    let proletarians = n - bourgeois;
    let share = bourgeois as f64 / n as f64;
    assert!((share - 0.20).abs() < 0.01, "bourgeois share {}", share);
    let tier_share = |tier: Income| {
        people.iter().filter(|p| p.class == Class::Proletariat && p.income == tier).count() as f64
            / proletarians as f64
    };
    assert!((tier_share(Income::Low) - 0.71).abs() < 0.01);
    assert!((tier_share(Income::Middle) - 0.20).abs() < 0.01);
    assert!((tier_share(Income::High) - 0.08).abs() < 0.01);
    assert!((tier_share(Income::VeryHigh) - 0.01).abs() < 0.005);
    assert!(tier_share(Income::VeryHigh) > 0.0);
}

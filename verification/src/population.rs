//! The agents, and how a population of them is drawn.

use crate::goods::PRICE_SCALE;
use crate::random::draw_below;
use rand::rngs::StdRng;
use vstd::prelude::*;

verus! {

/// How many equally likely numbers a class is drawn from.
pub const CLASS_DRAWS: u32 = 10;

/// How many equally likely numbers an income tier is drawn from.
pub const INCOME_DRAWS: u32 = 100;

/// The wealth tier of an agent.
#[derive(Clone, Copy, Debug, PartialEq, Eq, Hash, Structural)]
pub enum Class {
    Bourgeois,
    Proletariat,
}

/// The income tier of an agent.
#[derive(Clone, Copy, Debug, PartialEq, Eq, Hash, Structural)]
pub enum Income {
    Low,
    Middle,
    High,
    VeryHigh,
}

/// An agent: who it is, where it stands, and what it holds.
#[derive(Clone, Copy, Debug, PartialEq, Eq, Structural)]
pub struct Person {
    pub id: i64,
    pub class: Class,
    pub income: Income,
    /// The balance, in thousandths of a unit.
    pub money: u64,
}

impl Class {
    /// The class that a drawn number stands for: the first two numbers give a
    /// bourgeois, every other one a proletarian.
    pub open spec fn of_draw(draw: u32) -> Class {
        if draw < 2 {
            Class::Bourgeois
        } else {
            Class::Proletariat
        }
    }

    /// Turns a drawn number into a class.
    pub fn from_draw(draw: u32) -> (class: Class)
        ensures
            class == Self::of_draw(draw),
    {
        match draw {
            0 => Class::Bourgeois,
            1 => Class::Bourgeois,
            _ => Class::Proletariat,
        }
    }

    /// Draws a class: a bourgeois for two numbers in ten.
    pub fn sample(rng: &mut StdRng) -> (class: Class)
        ensures
            exists|draw: u32| draw < CLASS_DRAWS && class == #[trigger] Self::of_draw(draw),
    {
        let draw: u32 = draw_below(rng, CLASS_DRAWS);
        Self::from_draw(draw)
    }
}

impl Income {
    /// The tier that a drawn number stands for. Numbers up to 70 give the low
    /// tier, up to 90 the middle one, up to 98 the high one, and what is left
    /// the very high one. The top bracket is the single number 99 of a
    /// hundred: the table keeps it reachable, so that one proletarian in a
    /// hundred is very well paid.
    pub open spec fn of_draw(draw: u32) -> Income {
        if draw <= 70 {
            Income::Low
        } else if draw <= 90 {
            Income::Middle
        } else if draw <= 98 {
            Income::High
        } else {
            Income::VeryHigh
        }
    }

    /// What an agent of this tier starts with, in thousandths of a unit.
    pub open spec fn endowment(self) -> int {
        match self {
            Income::Low => 10 * PRICE_SCALE,
            Income::Middle => 50 * PRICE_SCALE,
            Income::High => 100 * PRICE_SCALE,
            Income::VeryHigh => 1500 * PRICE_SCALE,
        }
    }

    /// How many units of food an agent of this tier asks for in one tick.
    pub open spec fn appetite(self) -> int {
        match self {
            Income::Low => 1,
            Income::Middle => 2,
            Income::High => 3,
            Income::VeryHigh => 4,
        }
    }

    /// Turns a drawn number into an income tier.
    pub fn from_draw(draw: u32) -> (income: Income)
        ensures
            income == Self::of_draw(draw),
    {
        if draw <= 70 {
            Income::Low
        } else if draw <= 90 {
            Income::Middle
        } else if draw <= 98 {
            Income::High
        } else {
            Income::VeryHigh
        }
    }

    /// Draws an income tier.
    pub fn sample(rng: &mut StdRng) -> (income: Income)
        ensures
            exists|draw: u32| draw < INCOME_DRAWS && income == #[trigger] Self::of_draw(draw),
    {
        let draw: u32 = draw_below(rng, INCOME_DRAWS);
        Self::from_draw(draw)
    }

    /// What an agent of this tier starts with, in thousandths of a unit.
    pub fn starting_money(&self) -> (money: u64)
        ensures
            money == self.endowment(),
    {
        match self {
            Income::Low => 10 * PRICE_SCALE,
            Income::Middle => 50 * PRICE_SCALE,
            Income::High => 100 * PRICE_SCALE,
            Income::VeryHigh => 1500 * PRICE_SCALE,
        }
    }

    /// How many units of food an agent of this tier asks for in one tick.
    pub fn food_units(&self) -> (units: i64)
        ensures
            units == self.appetite(),
    {
        match self {
            Income::Low => 1,
            Income::Middle => 2,
            Income::High => 3,
            Income::VeryHigh => 4,
        }
    }
}

impl Person {
    /// A bourgeois is always in the very high tier.
    pub open spec fn wf(self) -> bool {
        self.class == Class::Bourgeois ==> self.income == Income::VeryHigh
    }

    /// The agent that two drawn numbers make. The class comes from the first.
    /// A bourgeois is put in the very high tier whatever the second number
    /// says; a proletarian gets the tier of the second. Either starts with the
    /// endowment of the tier.
    pub open spec fn of_draws(id: i64, class_draw: u32, income_draw: u32) -> Person {
        let class = Class::of_draw(class_draw);
        let income = if class == Class::Bourgeois {
            Income::VeryHigh
        } else {
            Income::of_draw(income_draw)
        };
        Person { id, class, income, money: income.endowment() as u64 }
    }

    /// Makes the agent `id` from a drawn class and a drawn income tier.
    pub fn new(id: i64, class: Class, drawn_income: Income) -> (person: Person)
        ensures
            person.id == id,
            person.class == class,
            person.income == if class == Class::Bourgeois {
                Income::VeryHigh
            } else {
                drawn_income
            },
            person.money == person.income.endowment(),
            person.wf(),
    {
        match class {
            Class::Bourgeois => Person {
                id,
                class,
                income: Income::VeryHigh,
                money: Income::VeryHigh.starting_money(),
            },
            Class::Proletariat => Person {
                id,
                class,
                income: drawn_income,
                money: drawn_income.starting_money(),
            },
        }
    }

    /// Makes the agent `id` from the two numbers drawn for it.
    pub fn from_draws(id: i64, class_draw: u32, income_draw: u32) -> (person: Person)
        ensures
            person == Self::of_draws(id, class_draw, income_draw),
            person.wf(),
    {
        Self::new(id, Class::from_draw(class_draw), Income::from_draw(income_draw))
    }
}

/// How many of the numbers below `upto` stand for the class `class`.
pub open spec fn draws_for_class(class: Class, upto: nat) -> nat
    decreases upto,
{
    if upto == 0 {
        0
    } else {
        let rest = draws_for_class(class, (upto - 1) as nat);
        if Class::of_draw((upto - 1) as u32) == class {
            rest + 1
        } else {
            rest
        }
    }
}

/// How many of the numbers below `upto` stand for the income tier `tier`.
pub open spec fn draws_for_income(tier: Income, upto: nat) -> nat
    decreases upto,
{
    if upto == 0 {
        0
    } else {
        let rest = draws_for_income(tier, (upto - 1) as nat);
        if Income::of_draw((upto - 1) as u32) == tier {
            rest + 1
        } else {
            rest
        }
    }
}

proof fn class_draws_up_to(upto: nat)
    requires
        upto <= CLASS_DRAWS,
    ensures
        draws_for_class(Class::Bourgeois, upto) == if upto <= 2 {
            upto
        } else {
            2
        },
        draws_for_class(Class::Proletariat, upto) == if upto <= 2 {
            0
        } else {
            upto - 2
        },
    decreases upto,
{
    if upto > 0 {
        class_draws_up_to((upto - 1) as nat);
    }
}

proof fn income_draws_up_to(upto: nat)
    requires
        upto <= INCOME_DRAWS,
    ensures
        draws_for_income(Income::Low, upto) == if upto <= 71 {
            upto
        } else {
            71
        },
        draws_for_income(Income::Middle, upto) == if upto <= 71 {
            0
        } else if upto <= 91 {
            upto - 71
        } else {
            20
        },
        draws_for_income(Income::High, upto) == if upto <= 91 {
            0
        } else if upto <= 99 {
            upto - 91
        } else {
            8
        },
        draws_for_income(Income::VeryHigh, upto) == if upto <= 99 {
            0
        } else {
            upto - 99
        },
    decreases upto,
{
    if upto > 0 {
        income_draws_up_to((upto - 1) as nat);
    }
}

/// Of the ten numbers that a class is drawn from, two stand for a bourgeois
/// and eight for a proletarian.
pub proof fn class_shares()
    ensures
        draws_for_class(Class::Bourgeois, CLASS_DRAWS as nat) == 2,
        draws_for_class(Class::Proletariat, CLASS_DRAWS as nat) == 8,
{
    class_draws_up_to(CLASS_DRAWS as nat);
}

/// Of the hundred numbers that an income tier is drawn from, 71 stand for the
/// low tier, 20 for the middle one, 8 for the high one and 1 for the very
/// high one.
pub proof fn income_shares()
    ensures
        draws_for_income(Income::Low, INCOME_DRAWS as nat) == 71,
        draws_for_income(Income::Middle, INCOME_DRAWS as nat) == 20,
        draws_for_income(Income::High, INCOME_DRAWS as nat) == 8,
        draws_for_income(Income::VeryHigh, INCOME_DRAWS as nat) == 1,
{
    income_draws_up_to(INCOME_DRAWS as nat);
}

/// Whether `person` is what some pair of drawn numbers makes of the id `id`.
pub open spec fn is_drawn(person: Person, id: int) -> bool {
    exists|class_draw: u32, income_draw: u32|
        class_draw < CLASS_DRAWS && income_draw < INCOME_DRAWS && person
            == #[trigger] Person::of_draws(id as i64, class_draw, income_draw)
}

/// Whether `people` is a freshly drawn population: the agent at each place
/// carries the place as its id and is what some pair of drawn numbers makes.
pub open spec fn is_population(people: Seq<Person>) -> bool {
    forall|i: int| 0 <= i < people.len() ==> is_drawn(#[trigger] people[i], i)
}

/// Draws a population of `n` agents. For each id from zero up, in turn, a
/// class is drawn and then an income tier, also where the class makes the
/// tier irrelevant. An id is a signed number of 64 bits, so there cannot be
/// more agents than there are such numbers from zero up.
pub fn generate(n: usize, rng: &mut StdRng) -> (people: Vec<Person>)
    requires
        n <= i64::MAX,
    ensures
        people@.len() == n,
        is_population(people@),
        forall|i: int| 0 <= i < n ==> (#[trigger] people@[i]).id == i,
        forall|i: int, j: int| 0 <= i < j < n ==> people@[i].id != people@[j].id,
        forall|i: int| 0 <= i < n ==> (#[trigger] people@[i]).wf(),
        forall|i: int|
            0 <= i < n ==> (#[trigger] people@[i]).money == people@[i].income.endowment(),
        forall|i: int|
            0 <= i < n && (#[trigger] people@[i]).class == Class::Bourgeois ==> people@[i].income
                == Income::VeryHigh && people@[i].money == 1500 * PRICE_SCALE,
{
    let mut people: Vec<Person> = Vec::new();
    let mut i: usize = 0;
    while i < n
        invariant
            i <= n <= i64::MAX,
            people@.len() == i,
            is_population(people@),
        decreases n - i,
    {
        let class: Class = Class::sample(rng);
        let income: Income = Income::sample(rng);
        let person: Person = Person::new(i as i64, class, income);
        proof {
            let class_draw = choose|draw: u32|
                draw < CLASS_DRAWS && class == #[trigger] Class::of_draw(draw);
            let income_draw = choose|draw: u32|
                draw < INCOME_DRAWS && income == #[trigger] Income::of_draw(draw);
            assert(person == Person::of_draws(i as i64, class_draw, income_draw));
            assert(is_drawn(person, i as int));
        }
        people.push(person);
        i += 1;
    }
    people
}

} // verus!

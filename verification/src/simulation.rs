//! The simulation: a population, a price book and the orders of the running
//! tick, moved forward one tick at a time.

use crate::demand::SettlementError;
use crate::goods::GoodsType;
use crate::market::{clear_market, fails_with, prices_after, report_of, settles, Clearing};
use crate::orders::{
    all_positive, total, total_after_push, BuyOrder, OrderBook, OrderError, OrderType, SellOrder,
};
use crate::population::{generate, is_population, Class, Person};
use crate::prices::PriceBook;
use rand::rngs::StdRng;
use vstd::prelude::*;

verus! {

impl Person {
    /// What the agent asks for in one tick, with food at `food_price`. A
    /// proletarian asks for as much food as its income tier eats, at the
    /// current price; a bourgeois asks for nothing.
    pub open spec fn decision(self, food_price: u64) -> Option<BuyOrder> {
        match self.class {
            Class::Bourgeois => None,
            Class::Proletariat => Some(
                BuyOrder {
                    goods_type: GoodsType::Food,
                    amount: self.income.appetite() as i64,
                    price: food_price,
                    order_type: OrderType::Person,
                },
            ),
        }
    }

    /// Decides what the agent asks for in this tick, at the prices of
    /// `prices`.
    pub fn decide(&self, prices: &PriceBook) -> (order: Option<BuyOrder>)
        requires
            prices.wf(),
        ensures
            order == self.decision(prices.quote(GoodsType::Food)),
    {
        match self.class {
            Class::Bourgeois => None,
            Class::Proletariat => Some(
                BuyOrder {
                    goods_type: GoodsType::Food,
                    amount: self.income.food_units(),
                    price: prices.price(GoodsType::Food),
                    order_type: OrderType::Person,
                },
            ),
        }
    }
}

/// The buy orders that the agents `agents` place in one tick, in the order
/// of the agents.
pub open spec fn decisions(agents: Seq<Person>, food_price: u64) -> Seq<BuyOrder>
    decreases agents.len(),
{
    if agents.len() == 0 {
        Seq::empty()
    } else {
        let earlier = decisions(agents.drop_last(), food_price);
        match agents.last().decision(food_price) {
            Some(order) => earlier.push(order),
            None => earlier,
        }
    }
}

/// The units of food that the proletarians among `agents` eat in one tick.
pub open spec fn appetite_of(agents: Seq<Person>) -> int
    decreases agents.len(),
{
    if agents.len() == 0 {
        0
    } else if agents.last().class == Class::Proletariat {
        appetite_of(agents.drop_last()) + agents.last().income.appetite()
    } else {
        appetite_of(agents.drop_last())
    }
}

/// What the agents ask for in one tick is food and nothing else: as many
/// units as the proletarians eat, each order about at least one unit, and no
/// unit from any bourgeois.
pub proof fn agents_ask_for_food(agents: Seq<Person>, food_price: u64, goods_type: GoodsType)
    ensures
        all_positive(decisions(agents, food_price)),
        decisions(agents, food_price).len() <= agents.len(),
        total(decisions(agents, food_price), GoodsType::Food) == appetite_of(agents),
        goods_type != GoodsType::Food ==> total(decisions(agents, food_price), goods_type) == 0,
    decreases agents.len(),
{
    if agents.len() > 0 {
        let rest = agents.drop_last();
        agents_ask_for_food(rest, food_price, goods_type);
        let earlier = decisions(rest, food_price);
        match agents.last().decision(food_price) {
            Some(order) => {
                total_after_push(earlier, order, GoodsType::Food);
                total_after_push(earlier, order, goods_type);
                let placed = earlier.push(order);
                assert forall|i: int| 0 <= i < placed.len() implies (#[trigger] placed[i]).amount
                    > 0 by {
                    if i < earlier.len() {
                        assert(earlier[i].amount > 0);
                    }
                }
            },
            None => {},
        }
    }
}

/// A running simulation.
pub struct Simulation {
    agents: Vec<Person>,
    prices: PriceBook,
    orders: OrderBook,
}

impl Simulation {
    /// The agents, in the order of their creation.
    pub closed spec fn population(&self) -> Seq<Person> {
        self.agents@
    }

    /// The price book.
    pub closed spec fn price_book(&self) -> PriceBook {
        self.prices
    }

    /// The orders of the running tick.
    pub closed spec fn order_book(&self) -> OrderBook {
        self.orders
    }

    /// The price book holds one price for every good, and every order is
    /// about at least one unit.
    pub open spec fn wf(&self) -> bool {
        self.price_book().wf() && self.order_book().wf()
    }

    /// The buy orders that stand in the book once the agents have decided.
    pub open spec fn orders_after_decisions(&self) -> Seq<BuyOrder> {
        self.order_book().buys() + decisions(
            self.population(),
            self.price_book().quote(GoodsType::Food),
        )
    }

    /// A simulation of the agents `agents`, with every good at its baseline
    /// price and no order placed.
    pub fn new(agents: Vec<Person>) -> (simulation: Simulation)
        ensures
            simulation.wf(),
            simulation.population() == agents@,
            forall|g: GoodsType| #[trigger] simulation.price_book().quote(g) == g.baseline(),
            simulation.order_book().buys().len() == 0,
            simulation.order_book().sells().len() == 0,
    {
        Simulation { agents, prices: PriceBook::new(), orders: OrderBook::new() }
    }

    /// Starts a simulation: draws a population of `n` agents and opens the
    /// price book with every good at its baseline price. As for `generate`,
    /// `n` is at most the largest id.
    pub fn startup(n: usize, rng: &mut StdRng) -> (simulation: Simulation)
        requires
            n <= i64::MAX,
        ensures
            simulation.wf(),
            simulation.population().len() == n,
            is_population(simulation.population()),
            forall|g: GoodsType| #[trigger] simulation.price_book().quote(g) == g.baseline(),
            simulation.order_book().buys().len() == 0,
            simulation.order_book().sells().len() == 0,
    {
        Self::new(generate(n, rng))
    }

    /// The agents, in the order of their creation.
    pub fn agents(&self) -> (agents: &Vec<Person>)
        ensures
            agents@ == self.population(),
    {
        &self.agents
    }

    /// The price book.
    pub fn prices(&self) -> (prices: &PriceBook)
        ensures
            *prices == self.price_book(),
    {
        &self.prices
    }

    /// The orders of the running tick.
    pub fn orders(&self) -> (orders: &OrderBook)
        ensures
            *orders == self.order_book(),
    {
        &self.orders
    }

    /// Places a buy order for the running tick. The order is turned away if
    /// it is about no unit or fewer.
    pub fn place_buy(&mut self, order: BuyOrder) -> (placed: Result<(), OrderError>)
        requires
            old(self).wf(),
        ensures
            final(self).wf(),
            final(self).population() == old(self).population(),
            final(self).price_book() == old(self).price_book(),
            final(self).order_book().sells() == old(self).order_book().sells(),
            order.amount > 0 ==> placed is Ok && final(self).order_book().buys() == old(
                self,
            ).order_book().buys().push(order),
            order.amount <= 0 ==> placed == Err::<(), OrderError>(OrderError::NonPositiveAmount)
                && final(self).order_book().buys() == old(self).order_book().buys(),
    {
        self.orders.place_buy(order)
    }

    /// Places a sell order for the running tick. The order is turned away
    /// if it is about no unit or fewer.
    pub fn place_sell(&mut self, order: SellOrder) -> (placed: Result<(), OrderError>)
        requires
            old(self).wf(),
        ensures
            final(self).wf(),
            final(self).population() == old(self).population(),
            final(self).price_book() == old(self).price_book(),
            final(self).order_book().buys() == old(self).order_book().buys(),
            order.amount > 0 ==> placed is Ok && final(self).order_book().sells() == old(
                self,
            ).order_book().sells().push(order),
            order.amount <= 0 ==> placed == Err::<(), OrderError>(OrderError::NonPositiveAmount)
                && final(self).order_book().sells() == old(self).order_book().sells(),
    {
        self.orders.place_sell(order)
    }

    /// The first pass of a tick: every agent, in turn, decides what it asks
    /// for at the current prices, and its order goes behind those already
    /// placed. No agent and no price changes.
    pub fn decision_pass(&mut self)
        requires
            old(self).wf(),
        ensures
            final(self).wf(),
            final(self).population() == old(self).population(),
            final(self).price_book() == old(self).price_book(),
            final(self).order_book().sells() == old(self).order_book().sells(),
            final(self).order_book().buys() == old(self).orders_after_decisions(),
    {
        let before: Ghost<Simulation> = Ghost(*self);
        let ghost food_price = self.prices.quote(GoodsType::Food);
        let mut i: usize = 0;
        assert(self.agents@.take(0) =~= Seq::<Person>::empty());
        assert(self.orders.buys() =~= before@.orders.buys() + decisions(
            self.agents@.take(0),
            food_price,
        ));
        while i < self.agents.len()
            invariant
                i <= self.agents@.len(),
                self.agents@ == before@.agents@,
                self.prices == before@.prices,
                self.prices.wf(),
                self.orders.wf(),
                food_price == before@.prices.quote(GoodsType::Food),
                self.orders.sells() == before@.orders.sells(),
                self.orders.buys() == before@.orders.buys() + decisions(
                    self.agents@.take(i as int),
                    food_price,
                ),
            decreases self.agents@.len() - i,
        {
            proof {
                assert(self.agents@.take(i + 1).drop_last() =~= self.agents@.take(i as int));
                assert(self.agents@.take(i + 1).last() == self.agents@[i as int]);
            }
            match self.agents[i].decide(&self.prices) {
                Some(order) => {
                    let _ = self.orders.place_buy(order);
                    assert(self.orders.buys() =~= before@.orders.buys() + decisions(
                        self.agents@.take(i + 1),
                        food_price,
                    ));
                },
                None => {},
            }
            i += 1;
        }
        assert(self.agents@.take(i as int) =~= self.agents@);
    }

    /// The second pass of a tick: the market trades what was asked for
    /// against what was offered, writes the new prices and discards every
    /// order. Where the pass cannot settle, the prices stay as they were.
    pub fn market_pass(&mut self) -> (settled: Result<Vec<Clearing>, SettlementError>)
        requires
            old(self).wf(),
        ensures
            final(self).wf(),
            final(self).population() == old(self).population(),
            final(self).order_book().buys().len() == 0,
            final(self).order_book().sells().len() == 0,
            match settled {
                Ok(report) => {
                    &&& settles(
                        old(self).price_book()@,
                        old(self).order_book().buys(),
                        old(self).order_book().sells(),
                    )
                    &&& report@ == report_of(
                        old(self).price_book()@,
                        old(self).order_book().buys(),
                        old(self).order_book().sells(),
                    )
                    &&& final(self).price_book()@ == prices_after(
                        old(self).price_book()@,
                        old(self).order_book().buys(),
                        old(self).order_book().sells(),
                    )
                },
                Err(error) => {
                    &&& fails_with(
                        old(self).price_book()@,
                        old(self).order_book().buys(),
                        old(self).order_book().sells(),
                        error,
                    )
                    &&& final(self).price_book()@ == old(self).price_book()@
                },
            },
    {
        clear_market(&mut self.prices, &mut self.orders)
    }

    /// One tick: first every agent decides, then the market clears, and the
    /// market sees every order that the agents placed. The tick ends with
    /// an empty order book. An error stops the tick after the orders were
    /// discarded and before any price was written.
    pub fn tick(&mut self) -> (settled: Result<Vec<Clearing>, SettlementError>)
        requires
            old(self).wf(),
        ensures
            final(self).wf(),
            final(self).population() == old(self).population(),
            final(self).order_book().buys().len() == 0,
            final(self).order_book().sells().len() == 0,
            match settled {
                Ok(report) => {
                    &&& settles(
                        old(self).price_book()@,
                        old(self).orders_after_decisions(),
                        old(self).order_book().sells(),
                    )
                    &&& report@ == report_of(
                        old(self).price_book()@,
                        old(self).orders_after_decisions(),
                        old(self).order_book().sells(),
                    )
                    &&& final(self).price_book()@ == prices_after(
                        old(self).price_book()@,
                        old(self).orders_after_decisions(),
                        old(self).order_book().sells(),
                    )
                },
                Err(error) => {
                    &&& fails_with(
                        old(self).price_book()@,
                        old(self).orders_after_decisions(),
                        old(self).order_book().sells(),
                        error,
                    )
                    &&& final(self).price_book()@ == old(self).price_book()@
                },
            },
    {
        self.decision_pass();
        self.market_pass()
    }
}

} // verus!

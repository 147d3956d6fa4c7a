//! The market clearing step: what a tick's demand and supply trade, and what
//! that does to the prices.
//!
//! Each good trades at the price that the book holds when the tick begins,
//! and as many units change hands as are both asked for and offered. What is
//! left over on either side is discarded with the orders. A good whose demand
//! and supply differ has its price moved towards the larger side, by a step
//! that grows with the imbalance and is never more than one part in
//! `STEP_DIVISOR` of the price. Only the totals of a good count, so the order
//! in which orders were placed changes nothing.

use crate::demand::{
    aggregate_buy_orders, first_overflow, overflows, tally, Demand, SettlementError,
};
use crate::goods::{catalogue_lists_each_kind_once, GoodsType, GOODS_COUNT};
use crate::orders::{
    all_positive, mentions, total, total_ignores_order, total_of_positive_orders, BuyOrder,
    OrderBook, SellOrder,
};
use crate::prices::{Price, PriceBook};
use vstd::prelude::*;

verus! {

/// A price moves by at most one part in this many in one tick.
pub const STEP_DIVISOR: u64 = 20;

/// What the market did with one good in one tick.
#[derive(Clone, Copy, Debug, PartialEq, Eq, Structural)]
pub struct Clearing {
    pub goods_type: GoodsType,
    /// The units asked for.
    pub demand: i64,
    /// The units offered.
    pub supply: i64,
    /// The units that changed hands.
    pub traded: i64,
    /// The price at which they changed hands: the price of the book as the
    /// tick found it.
    pub price: u64,
    /// The price that the book holds after the tick.
    pub next_price: u64,
}

/// By how many units demand and supply differ.
pub open spec fn imbalance(demand: int, supply: int) -> int {
    if demand >= supply {
        demand - supply
    } else {
        supply - demand
    }
}

/// The units that change hands: as many as are both asked for and offered.
pub open spec fn matched(demand: int, supply: int) -> int {
    if demand <= supply {
        demand
    } else {
        supply
    }
}

/// By how much a price moves: by the part of it that the imbalance is of all
/// units asked for and offered, divided by `STEP_DIVISOR` and rounded down.
pub open spec fn price_step(price: int, demand: int, supply: int) -> int {
    if demand + supply > 0 {
        (price * imbalance(demand, supply)) / (STEP_DIVISOR * (demand + supply))
    } else {
        0
    }
}

/// The price after the tick: up by the step where more is asked for than
/// offered, down by it where more is offered, unchanged where both agree.
pub open spec fn nudged(price: int, demand: int, supply: int) -> int {
    if demand > supply {
        price + price_step(price, demand, supply)
    } else if demand < supply {
        price - price_step(price, demand, supply)
    } else {
        price
    }
}

/// The record of a good that stood at `price` and met `demand` and `supply`.
pub open spec fn clearing_of(goods_type: GoodsType, price: u64, demand: i64, supply: i64)
    -> Clearing {
    Clearing {
        goods_type,
        demand,
        supply,
        traded: matched(demand as int, supply as int) as i64,
        price,
        next_price: nudged(price as int, demand as int, supply as int) as u64,
    }
}

/// A price never moves by more than its `STEP_DIVISOR`th part, never below
/// zero, and never against the imbalance.
pub proof fn nudge_is_bounded(price: int, demand: int, supply: int)
    requires
        price >= 0,
        demand >= 0,
        supply >= 0,
    ensures
        0 <= price_step(price, demand, supply) <= price / (STEP_DIVISOR as int) <= price,
        0 <= nudged(price, demand, supply),
        price - price / (STEP_DIVISOR as int) <= nudged(price, demand, supply) <= price + price / (
        STEP_DIVISOR as int),
        demand > supply ==> nudged(price, demand, supply) >= price,
        demand < supply ==> nudged(price, demand, supply) <= price,
        demand == supply ==> nudged(price, demand, supply) == price,
{
    let divisor = STEP_DIVISOR as int;
    vstd::arithmetic::div_mod::lemma_div_pos_is_pos(price, divisor);
    vstd::arithmetic::div_mod::lemma_div_nonincreasing(price, divisor);
    if demand + supply > 0 {
        let volume = demand + supply;
        let gap = imbalance(demand, supply);
        assert(0 <= gap <= volume);
        vstd::arithmetic::mul::lemma_mul_nonnegative(price, gap);
        vstd::arithmetic::mul::lemma_mul_inequality(gap, volume, price);
        vstd::arithmetic::mul::lemma_mul_is_commutative(gap, price);
        vstd::arithmetic::mul::lemma_mul_is_commutative(volume, price);
        assert(price * gap <= price * volume);
        vstd::arithmetic::div_mod::lemma_div_is_ordered(
            price * gap,
            price * volume,
            divisor * volume,
        );
        vstd::arithmetic::div_mod::lemma_div_pos_is_pos(price * gap, divisor * volume);
        vstd::arithmetic::div_mod::lemma_div_multiples_vanish_quotient(volume, price, divisor);
        vstd::arithmetic::mul::lemma_mul_is_commutative(volume, divisor);
        assert((price * volume) / (divisor * volume) == price / divisor);
    }
}

/// Moves a price by one tick's step. `None` where the new price would be
/// more than a price can hold.
pub fn nudge_price(price: u64, demand: i64, supply: i64) -> (next: Option<u64>)
    requires
        demand >= 0,
        supply >= 0,
    ensures
        nudged(price as int, demand as int, supply as int) <= u64::MAX ==> next == Some(
            nudged(price as int, demand as int, supply as int) as u64,
        ),
        nudged(price as int, demand as int, supply as int) > u64::MAX ==> next is None,
{
    if demand == supply {
        return Some(price);
    }
    let gap: u128 = if demand > supply {
        (demand - supply) as u128
    } else {
        (supply - demand) as u128
    };
    let volume: u128 = demand as u128 + supply as u128;
    proof {
        nudge_is_bounded(price as int, demand as int, supply as int);
        assert(price as int * gap as int <= 0xffff_ffff_ffff_ffff * 0x7fff_ffff_ffff_ffff)
            by (nonlinear_arith)
            requires
                0 <= price <= 0xffff_ffff_ffff_ffff,
                0 <= gap <= 0x7fff_ffff_ffff_ffff,
        ;
        assert(0 <= price as int * gap as int) by (nonlinear_arith)
            requires
                0 <= price,
                0 <= gap,
        ;
    }
    let step: u128 = (price as u128 * gap) / (STEP_DIVISOR as u128 * volume);
    if demand > supply {
        let raised: u128 = price as u128 + step;
        if raised > u64::MAX as u128 {
            None
        } else {
            Some(raised as u64)
        }
    } else {
        Some((price as u128 - step) as u64)
    }
}

/// Clears one good: as many units change hands as are both asked for and
/// offered, at the price of the book, and the price moves by one step. A
/// price that would become more than a price can hold is reported and not
/// cut down.
pub fn clear_good(goods_type: GoodsType, price: u64, demand: i64, supply: i64) -> (cleared: Result<
    Clearing,
    SettlementError,
>)
    requires
        demand >= 0,
        supply >= 0,
    ensures
        match cleared {
            Ok(clearing) => {
                &&& nudged(price as int, demand as int, supply as int) <= u64::MAX
                &&& clearing == clearing_of(goods_type, price, demand, supply)
            },
            Err(error) => {
                &&& nudged(price as int, demand as int, supply as int) > u64::MAX
                &&& error == SettlementError::PriceOverflow(goods_type)
            },
        },
{
    let traded: i64 = if demand <= supply {
        demand
    } else {
        supply
    };
    match nudge_price(price, demand, supply) {
        Some(next_price) => Ok(Clearing { goods_type, demand, supply, traded, price, next_price }),
        None => Err(SettlementError::PriceOverflow(goods_type)),
    }
}

/// Adds up the sell orders good by good. The total of each good stands at
/// the good's place in the catalogue. Where the orders for some good add up
/// to more than an amount can hold, the first such good of the catalogue is
/// reported.
pub fn total_supply(orders: &Vec<SellOrder>) -> (totals: Result<Vec<i64>, SettlementError>)
    ensures
        match totals {
            Ok(units) => {
                &&& units@.len() == GOODS_COUNT
                &&& forall|i: int|
                    0 <= i < GOODS_COUNT ==> #[trigger] units@[i] == total(
                        orders@,
                        GoodsType::at(i),
                    )
                &&& forall|g: GoodsType| !#[trigger] overflows(orders@, g)
            },
            Err(error) => {
                &&& error matches SettlementError::SupplyOverflow(g)
                &&& first_overflow(orders@, g)
            },
        },
{
    let exact: Vec<i128> = tally(orders);
    let goods: Vec<GoodsType> = GoodsType::all();
    let mut units: Vec<i64> = Vec::new();
    let mut i: usize = 0;
    while i < GOODS_COUNT
        invariant
            i <= GOODS_COUNT,
            goods@ == GoodsType::catalogue(),
            exact@.len() == GOODS_COUNT,
            forall|j: int|
                0 <= j < GOODS_COUNT ==> #[trigger] exact@[j] == total(orders@, GoodsType::at(j)),
            units@.len() == i,
            forall|j: int| 0 <= j < i ==> !overflows(orders@, #[trigger] GoodsType::at(j)),
            forall|j: int| 0 <= j < i ==> #[trigger] units@[j] == total(orders@, GoodsType::at(j)),
        decreases GOODS_COUNT - i,
    {
        let goods_type: GoodsType = goods[i];
        let sum: i128 = exact[i];
        proof {
            assert(goods_type == GoodsType::at(i as int));
            assert(exact@[i as int] == total(orders@, GoodsType::at(i as int)));
        }
        if sum < i64::MIN as i128 || sum > i64::MAX as i128 {
            proof {
                assert forall|earlier: GoodsType|
                    earlier.position() < goods_type.position() implies !#[trigger] overflows(
                    orders@,
                    earlier,
                ) by {
                    catalogue_lists_each_kind_once(earlier);
                    catalogue_lists_each_kind_once(goods_type);
                    assert(!overflows(orders@, GoodsType::at(earlier.position())));
                }
            }
            return Err(SettlementError::SupplyOverflow(goods_type));
        }
        units.push(sum as i64);
        i += 1;
    }
    proof {
        assert forall|g: GoodsType| !#[trigger] overflows(orders@, g) by {
            catalogue_lists_each_kind_once(g);
            assert(!overflows(orders@, GoodsType::at(g.position())));
        }
    }
    Ok(units)
}

/// Whether the new price of `goods_type` would be more than a price can
/// hold.
pub open spec fn price_overflows(
    prices: Seq<Price>,
    buys: Seq<BuyOrder>,
    sells: Seq<SellOrder>,
    goods_type: GoodsType,
) -> bool {
    nudged(
        prices[goods_type.position()].price as int,
        total(buys, goods_type),
        total(sells, goods_type),
    ) > u64::MAX
}

/// Whether `goods_type` is, in the catalogue's order, the first good whose
/// new price would be more than a price can hold.
pub open spec fn first_price_overflow(
    prices: Seq<Price>,
    buys: Seq<BuyOrder>,
    sells: Seq<SellOrder>,
    goods_type: GoodsType,
) -> bool {
    &&& price_overflows(prices, buys, sells, goods_type)
    &&& forall|earlier: GoodsType|
        earlier.position() < goods_type.position() ==> !#[trigger] price_overflows(
            prices,
            buys,
            sells,
            earlier,
        )
}

/// Whether a market pass over these prices and orders settles: every total
/// and every new price can be held.
pub open spec fn settles(prices: Seq<Price>, buys: Seq<BuyOrder>, sells: Seq<SellOrder>) -> bool {
    &&& forall|g: GoodsType| !#[trigger] overflows(buys, g)
    &&& forall|g: GoodsType| !#[trigger] overflows(sells, g)
    &&& forall|g: GoodsType| !#[trigger] price_overflows(prices, buys, sells, g)
}

/// Whether `error` is what a market pass over these prices and orders
/// fails with. Demand is looked at first, then supply, then the prices, each
/// in the catalogue's order; the first thing that cannot be held is reported.
pub open spec fn fails_with(
    prices: Seq<Price>,
    buys: Seq<BuyOrder>,
    sells: Seq<SellOrder>,
    error: SettlementError,
) -> bool {
    match error {
        SettlementError::DemandOverflow(g) => first_overflow(buys, g),
        SettlementError::SupplyOverflow(g) => {
            &&& forall|h: GoodsType| !#[trigger] overflows(buys, h)
            &&& first_overflow(sells, g)
        },
        SettlementError::PriceOverflow(g) => {
            &&& forall|h: GoodsType| !#[trigger] overflows(buys, h)
            &&& forall|h: GoodsType| !#[trigger] overflows(sells, h)
            &&& first_price_overflow(prices, buys, sells, g)
        },
    }
}

/// Whether `goods_type` was asked for or offered.
pub open spec fn is_active(buys: Seq<BuyOrder>, sells: Seq<SellOrder>, goods_type: GoodsType)
    -> bool {
    mentions(buys, goods_type) || mentions(sells, goods_type)
}

/// The record of `goods_type` in a pass over these prices and orders.
pub open spec fn clearing_for(
    prices: Seq<Price>,
    buys: Seq<BuyOrder>,
    sells: Seq<SellOrder>,
    goods_type: GoodsType,
) -> Clearing {
    clearing_of(
        goods_type,
        prices[goods_type.position()].price,
        total(buys, goods_type) as i64,
        total(sells, goods_type) as i64,
    )
}

/// The records of the first `upto` goods of the catalogue: one for each of
/// them that was asked for or offered, in the catalogue's order.
pub open spec fn report_upto(
    prices: Seq<Price>,
    buys: Seq<BuyOrder>,
    sells: Seq<SellOrder>,
    upto: int,
) -> Seq<Clearing>
    decreases upto,
{
    if upto <= 0 {
        Seq::empty()
    } else {
        let goods_type = GoodsType::at(upto - 1);
        let earlier = report_upto(prices, buys, sells, upto - 1);
        if is_active(buys, sells, goods_type) {
            earlier.push(clearing_for(prices, buys, sells, goods_type))
        } else {
            earlier
        }
    }
}

/// The records of a whole pass.
pub open spec fn report_of(prices: Seq<Price>, buys: Seq<BuyOrder>, sells: Seq<SellOrder>) -> Seq<
    Clearing,
> {
    report_upto(prices, buys, sells, GOODS_COUNT as int)
}

/// The prices after a pass: every good moved by its step.
pub open spec fn prices_after(prices: Seq<Price>, buys: Seq<BuyOrder>, sells: Seq<SellOrder>)
    -> Seq<Price> {
    Seq::new(
        GOODS_COUNT as nat,
        |i: int|
            Price {
                goods_type: GoodsType::at(i),
                price: nudged(
                    prices[i].price as int,
                    total(buys, GoodsType::at(i)),
                    total(sells, GoodsType::at(i)),
                ) as u64,
            },
    )
}

proof fn report_ignores_order(
    prices: Seq<Price>,
    buys: Seq<BuyOrder>,
    sells: Seq<SellOrder>,
    shuffled_buys: Seq<BuyOrder>,
    shuffled_sells: Seq<SellOrder>,
    upto: int,
)
    requires
        buys.to_multiset() == shuffled_buys.to_multiset(),
        sells.to_multiset() == shuffled_sells.to_multiset(),
    ensures
        report_upto(prices, buys, sells, upto) == report_upto(
            prices,
            shuffled_buys,
            shuffled_sells,
            upto,
        ),
    decreases upto,
{
    if upto > 0 {
        report_ignores_order(prices, buys, sells, shuffled_buys, shuffled_sells, upto - 1);
        total_ignores_order(buys, shuffled_buys, GoodsType::at(upto - 1));
        total_ignores_order(sells, shuffled_sells, GoodsType::at(upto - 1));
    }
}

/// A market pass does not depend on the order in which the orders were
/// placed: over the same prices, two books that hold the same orders, each as
/// often as the other, give the same records, the same new prices and the
/// same failure.
pub proof fn settlement_ignores_order(
    prices: Seq<Price>,
    buys: Seq<BuyOrder>,
    sells: Seq<SellOrder>,
    shuffled_buys: Seq<BuyOrder>,
    shuffled_sells: Seq<SellOrder>,
)
    requires
        buys.to_multiset() == shuffled_buys.to_multiset(),
        sells.to_multiset() == shuffled_sells.to_multiset(),
    ensures
        report_of(prices, buys, sells) == report_of(prices, shuffled_buys, shuffled_sells),
        prices_after(prices, buys, sells) == prices_after(prices, shuffled_buys, shuffled_sells),
        settles(prices, buys, sells) == settles(prices, shuffled_buys, shuffled_sells),
        forall|error: SettlementError| #[trigger]
            fails_with(prices, buys, sells, error) == fails_with(
                prices,
                shuffled_buys,
                shuffled_sells,
                error,
            ),
{
    report_ignores_order(prices, buys, sells, shuffled_buys, shuffled_sells, GOODS_COUNT as int);
    assert forall|g: GoodsType|
        #![trigger overflows(buys, g)]
        #![trigger overflows(shuffled_buys, g)]
        overflows(buys, g) == overflows(shuffled_buys, g) by {
        total_ignores_order(buys, shuffled_buys, g);
    }
    assert forall|g: GoodsType|
        #![trigger overflows(sells, g)]
        #![trigger overflows(shuffled_sells, g)]
        overflows(sells, g) == overflows(shuffled_sells, g) by {
        total_ignores_order(sells, shuffled_sells, g);
    }
    assert forall|g: GoodsType|
        #![trigger price_overflows(prices, buys, sells, g)]
        #![trigger price_overflows(prices, shuffled_buys, shuffled_sells, g)]
        price_overflows(prices, buys, sells, g) == price_overflows(
            prices,
            shuffled_buys,
            shuffled_sells,
            g,
        ) by {
        total_ignores_order(buys, shuffled_buys, g);
        total_ignores_order(sells, shuffled_sells, g);
    }
    assert forall|i: int| 0 <= i < GOODS_COUNT implies prices_after(prices, buys, sells)[i]
        == prices_after(prices, shuffled_buys, shuffled_sells)[i] by {
        total_ignores_order(buys, shuffled_buys, GoodsType::at(i));
        total_ignores_order(sells, shuffled_sells, GoodsType::at(i));
    }
    assert(prices_after(prices, buys, sells) =~= prices_after(
        prices,
        shuffled_buys,
        shuffled_sells,
    ));
    assert(settles(prices, buys, sells) == settles(prices, shuffled_buys, shuffled_sells));
    assert forall|error: SettlementError| #[trigger]
        fails_with(prices, buys, sells, error) == fails_with(
            prices,
            shuffled_buys,
            shuffled_sells,
            error,
        ) by {
        match error {
            SettlementError::DemandOverflow(g) => {
                assert(first_overflow(buys, g) == first_overflow(shuffled_buys, g));
            },
            SettlementError::SupplyOverflow(g) => {
                assert(first_overflow(sells, g) == first_overflow(shuffled_sells, g));
            },
            SettlementError::PriceOverflow(g) => {
                assert(first_price_overflow(prices, buys, sells, g) == first_price_overflow(
                    prices,
                    shuffled_buys,
                    shuffled_sells,
                    g,
                ));
            },
        }
    }
}

/// Works out a market pass without touching anything: the records of the
/// goods that were asked for or offered, and the price book as the pass
/// leaves it. Each good trades at the price of the book `prices`, as many
/// units as are both asked for and offered. Nothing depends on the order
/// of the orders: only the totals count.
pub fn settle(prices: &PriceBook, buys: &Vec<BuyOrder>, sells: &Vec<SellOrder>) -> (outcome: Result<
    (Vec<Clearing>, PriceBook),
    SettlementError,
>)
    requires
        prices.wf(),
        all_positive(buys@),
        all_positive(sells@),
    ensures
        match outcome {
            Ok((report, next)) => {
                &&& settles(prices@, buys@, sells@)
                &&& report@ == report_of(prices@, buys@, sells@)
                &&& next.wf()
                &&& next@ == prices_after(prices@, buys@, sells@)
            },
            Err(error) => fails_with(prices@, buys@, sells@, error),
        },
{
    let demand: Demand = match aggregate_buy_orders(buys) {
        Ok(demand) => demand,
        Err(error) => {
            return Err(error);
        },
    };
    let supply: Vec<i64> = match total_supply(sells) {
        Ok(supply) => supply,
        Err(error) => {
            return Err(error);
        },
    };
    let goods: Vec<GoodsType> = GoodsType::all();
    let mut report: Vec<Clearing> = Vec::new();
    let mut next: PriceBook = prices.snapshot();
    let mut i: usize = 0;
    while i < GOODS_COUNT
        invariant
            i <= GOODS_COUNT,
            prices.wf(),
            all_positive(buys@),
            all_positive(sells@),
            goods@ == GoodsType::catalogue(),
            demand.wf(),
            demand@ == crate::demand::demand_of(buys@),
            supply@.len() == GOODS_COUNT,
            forall|j: int|
                0 <= j < GOODS_COUNT ==> #[trigger] supply@[j] == total(sells@, GoodsType::at(j)),
            forall|g: GoodsType| !#[trigger] overflows(buys@, g),
            forall|g: GoodsType| !#[trigger] overflows(sells@, g),
            forall|j: int|
                0 <= j < i ==> !price_overflows(prices@, buys@, sells@, #[trigger] GoodsType::at(j)),
            report@ == report_upto(prices@, buys@, sells@, i as int),
            next.wf(),
            forall|j: int|
                0 <= j < i ==> #[trigger] next@[j] == prices_after(prices@, buys@, sells@)[j],
            forall|j: int| i <= j < GOODS_COUNT ==> #[trigger] next@[j] == prices@[j],
        decreases GOODS_COUNT - i,
    {
        let goods_type: GoodsType = goods[i];
        proof {
            assert(goods_type == GoodsType::at(i as int));
            catalogue_lists_each_kind_once(goods_type);
            total_of_positive_orders(buys@, goods_type);
            total_of_positive_orders(sells@, goods_type);
            assert(!overflows(buys@, goods_type));
            assert(!overflows(sells@, goods_type));
            assert(supply@[i as int] == total(sells@, GoodsType::at(i as int)));
        }
        let asked: i64 = match demand.get(goods_type) {
            Some(sum) => sum.amount,
            None => 0,
        };
        let offered: i64 = supply[i];
        assert(asked == total(buys@, goods_type));
        assert(offered == total(sells@, goods_type));
        let price: u64 = prices.price(goods_type);
        match clear_good(goods_type, price, asked, offered) {
            Ok(clearing) => {
                if asked > 0 || offered > 0 {
                    report.push(clearing);
                }
                next.set_price(goods_type, clearing.next_price);
            },
            Err(error) => {
                proof {
                    assert forall|earlier: GoodsType|
                        earlier.position()
                            < goods_type.position() implies !#[trigger] price_overflows(
                        prices@,
                        buys@,
                        sells@,
                        earlier,
                    ) by {
                        catalogue_lists_each_kind_once(earlier);
                        assert(!price_overflows(
                            prices@,
                            buys@,
                            sells@,
                            GoodsType::at(earlier.position()),
                        ));
                    }
                }
                return Err(error);
            },
        }
        i += 1;
    }
    proof {
        assert forall|g: GoodsType| !#[trigger] price_overflows(prices@, buys@, sells@, g) by {
            catalogue_lists_each_kind_once(g);
            assert(!price_overflows(prices@, buys@, sells@, GoodsType::at(g.position())));
        }
        assert(next@ =~= prices_after(prices@, buys@, sells@));
    }
    Ok((report, next))
}

/// The market pass of one tick. It reads the orders of the book, trades each
/// good, writes the new prices and discards every order, matched or not.
/// Where the pass cannot settle, the prices stay as they were; the orders are
/// discarded all the same.
pub fn clear_market(prices: &mut PriceBook, orders: &mut OrderBook) -> (settled: Result<
    Vec<Clearing>,
    SettlementError,
>)
    requires
        old(prices).wf(),
        old(orders).wf(),
    ensures
        final(prices).wf(),
        final(orders).wf(),
        final(orders).buys().len() == 0,
        final(orders).sells().len() == 0,
        match settled {
            Ok(report) => {
                &&& settles(old(prices)@, old(orders).buys(), old(orders).sells())
                &&& report@ == report_of(old(prices)@, old(orders).buys(), old(orders).sells())
                &&& final(prices)@ == prices_after(
                    old(prices)@,
                    old(orders).buys(),
                    old(orders).sells(),
                )
            },
            Err(error) => {
                &&& fails_with(old(prices)@, old(orders).buys(), old(orders).sells(), error)
                &&& final(prices)@ == old(prices)@
            },
        },
{
    let outcome = settle(&*prices, orders.buy_orders(), orders.sell_orders());
    orders.clear();
    match outcome {
        Ok((report, next)) => {
            *prices = next;
            Ok(report)
        },
        Err(error) => Err(error),
    }
}

} // verus!

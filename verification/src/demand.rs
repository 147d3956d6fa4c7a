//! The demand aggregator: what a tick's buy orders come to, good by good.

use crate::goods::{catalogue_lists_each_kind_once, GoodsType, GOODS_COUNT};
use crate::orders::{
    last_bid, last_bid_is_of_last_order, mentions, total, total_after_push, total_is_bounded,
    total_of_positive_orders, BuyOrder, BuyOrderSum, Order,
};
use vstd::prelude::*;

verus! {

/// Why a market pass could not settle.
#[derive(Clone, Copy, Debug, PartialEq, Eq, Structural)]
pub enum SettlementError {
    /// The buy orders for this good add up to more than an amount can hold.
    DemandOverflow(GoodsType),
    /// The sell orders for this good add up to more than an amount can hold.
    SupplyOverflow(GoodsType),
    /// The new price of this good would be more than a price can hold.
    PriceOverflow(GoodsType),
}

/// Whether the orders for `goods_type` add up to more, or to less, than an
/// amount can hold.
pub open spec fn overflows<T: Order>(orders: Seq<T>, goods_type: GoodsType) -> bool {
    !(i64::MIN <= total(orders, goods_type) <= i64::MAX)
}

/// Whether `goods_type` is, in the catalogue's order, the first good whose
/// orders add up to more than an amount can hold.
pub open spec fn first_overflow<T: Order>(orders: Seq<T>, goods_type: GoodsType) -> bool {
    &&& overflows(orders, goods_type)
    &&& forall|earlier: GoodsType|
        earlier.position() < goods_type.position() ==> !#[trigger] overflows(orders, earlier)
}

/// What the buy orders `orders` come to for `goods_type`: the units they
/// add up to, at the price that the last of them names.
pub open spec fn sum_of(orders: Seq<BuyOrder>, goods_type: GoodsType) -> BuyOrderSum {
    BuyOrderSum {
        goods_type,
        amount: total(orders, goods_type) as i64,
        price: last_bid(orders, goods_type).unwrap(),
    }
}

/// The aggregate of the buy orders `orders`: one sum for each good that
/// some order asks for, and nothing for any other good.
pub open spec fn demand_of(orders: Seq<BuyOrder>) -> Map<GoodsType, BuyOrderSum> {
    Map::new(|g: GoodsType| mentions(orders, g), |g: GoodsType| sum_of(orders, g))
}

/// The aggregate demand of one tick: for each good that was asked for, the
/// sum of the orders that asked for it.
pub struct Demand {
    sums: Vec<Option<BuyOrderSum>>,
}

impl View for Demand {
    type V = Map<GoodsType, BuyOrderSum>;

    closed spec fn view(&self) -> Map<GoodsType, BuyOrderSum> {
        Map::new(
            |g: GoodsType| self.sums@[g.position()] is Some,
            |g: GoodsType| self.sums@[g.position()].unwrap(),
        )
    }
}

impl Demand {
    /// One slot for each good of the catalogue, and each sum in the slot of
    /// its own good.
    pub closed spec fn wf(&self) -> bool {
        &&& self.sums@.len() == GOODS_COUNT
        &&& forall|i: int|
            0 <= i < GOODS_COUNT && (#[trigger] self.sums@[i]) is Some ==> self.sums@[i].unwrap().goods_type
                == GoodsType::at(i)
    }

    /// The sum for `goods_type`, or `None` where no order asked for it.
    pub fn get(&self, goods_type: GoodsType) -> (sum: Option<BuyOrderSum>)
        requires
            self.wf(),
        ensures
            sum == if self@.dom().contains(goods_type) {
                Some(self@[goods_type])
            } else {
                None
            },
            sum is Some ==> sum.unwrap().goods_type == goods_type,
    {
        self.sums[goods_type.index()]
    }
}

/// Adds up the orders good by good. The total of each good stands at the
/// good's place in the catalogue; it is exact, whatever the orders are.
pub fn tally<T: Order>(orders: &Vec<T>) -> (totals: Vec<i128>)
    ensures
        totals@.len() == GOODS_COUNT,
        forall|i: int|
            0 <= i < GOODS_COUNT ==> #[trigger] totals@[i] == total(orders@, GoodsType::at(i)),
{
    let mut totals: Vec<i128> = Vec::new();
    let mut i: usize = 0;
    while i < GOODS_COUNT
        invariant
            i <= GOODS_COUNT,
            totals@.len() == i,
            forall|j: int| 0 <= j < i ==> #[trigger] totals@[j] == 0,
        decreases GOODS_COUNT - i,
    {
        totals.push(0);
        i += 1;
    }
    let mut k: usize = 0;
    while k < orders.len()
        invariant
            k <= orders@.len(),
            totals@.len() == GOODS_COUNT,
            forall|i: int|
                0 <= i < GOODS_COUNT ==> #[trigger] totals@[i] == total(
                    orders@.take(k as int),
                    GoodsType::at(i),
                ),
        decreases orders@.len() - k,
    {
        let goods_type: GoodsType = orders[k].goods_of();
        let amount: i64 = orders[k].amount_of();
        let slot: usize = goods_type.index();
        proof {
            let seen = orders@.take(k as int);
            total_is_bounded(seen, goods_type);
            catalogue_lists_each_kind_once(goods_type);
            assert(orders@.take(k + 1) =~= seen.push(orders@[k as int]));
            assert forall|i: int| 0 <= i < GOODS_COUNT implies total(
                orders@.take(k + 1),
                #[trigger] GoodsType::at(i),
            ) == total(seen, GoodsType::at(i)) + if i == slot {
                amount as int
            } else {
                0
            } by {
                total_after_push(seen, orders@[k as int], GoodsType::at(i));
            }
            assert(totals@[slot as int] == total(seen, goods_type));
        }
        let sum: i128 = totals[slot] + amount as i128;
        totals.set(slot, sum);
        k += 1;
    }
    assert(orders@.take(k as int) =~= orders@);
    totals
}

/// Finds, for each good, the price that the last order for it names. The
/// bid of each good stands at the good's place in the catalogue.
fn last_bids(orders: &Vec<BuyOrder>) -> (bids: Vec<Option<u64>>)
    ensures
        bids@.len() == GOODS_COUNT,
        forall|i: int|
            0 <= i < GOODS_COUNT ==> #[trigger] bids@[i] == last_bid(orders@, GoodsType::at(i)),
{
    let mut bids: Vec<Option<u64>> = Vec::new();
    let mut i: usize = 0;
    while i < GOODS_COUNT
        invariant
            i <= GOODS_COUNT,
            bids@.len() == i,
            forall|j: int| 0 <= j < i ==> #[trigger] bids@[j] == None::<u64>,
        decreases GOODS_COUNT - i,
    {
        bids.push(None);
        i += 1;
    }
    let mut k: usize = 0;
    while k < orders.len()
        invariant
            k <= orders@.len(),
            bids@.len() == GOODS_COUNT,
            forall|i: int|
                0 <= i < GOODS_COUNT ==> #[trigger] bids@[i] == last_bid(
                    orders@.take(k as int),
                    GoodsType::at(i),
                ),
        decreases orders@.len() - k,
    {
        let order: BuyOrder = orders[k];
        let slot: usize = order.goods_type.index();
        proof {
            let seen = orders@.take(k as int);
            catalogue_lists_each_kind_once(order.goods_type);
            assert(orders@.take(k + 1).drop_last() =~= seen);
            assert(orders@.take(k + 1).last() == order);
        }
        bids.set(slot, Some(order.price));
        k += 1;
    }
    assert(orders@.take(k as int) =~= orders@);
    bids
}

/// Gathers the buy orders of a tick into one sum per good. The sum of a good
/// holds the units that its orders add up to, and the price of the last of
/// them: where the orders for one good name different prices, the last one
/// placed decides. A good that no order asks for gets no sum. Where the
/// orders for some good add up to more than an amount can hold, nothing is
/// gathered, and the first such good of the catalogue is reported.
pub fn aggregate_buy_orders(orders: &Vec<BuyOrder>) -> (gathered: Result<Demand, SettlementError>)
    ensures
        match gathered {
            Ok(demand) => {
                &&& demand.wf()
                &&& demand@ == demand_of(orders@)
                &&& forall|g: GoodsType| !#[trigger] overflows(orders@, g)
                &&& forall|g: GoodsType|
                    #[trigger] demand@.dom().contains(g) <==> mentions(orders@, g)
            },
            Err(error) => {
                &&& error matches SettlementError::DemandOverflow(g)
                &&& first_overflow(orders@, g)
            },
        },
{
    let totals: Vec<i128> = tally(orders);
    let bids: Vec<Option<u64>> = last_bids(orders);
    let goods: Vec<GoodsType> = GoodsType::all();
    let mut sums: Vec<Option<BuyOrderSum>> = Vec::new();
    let mut i: usize = 0;
    while i < GOODS_COUNT
        invariant
            i <= GOODS_COUNT,
            goods@ == GoodsType::catalogue(),
            totals@.len() == GOODS_COUNT,
            bids@.len() == GOODS_COUNT,
            forall|j: int|
                0 <= j < GOODS_COUNT ==> #[trigger] totals@[j] == total(
                    orders@,
                    GoodsType::at(j),
                ),
            forall|j: int|
                0 <= j < GOODS_COUNT ==> #[trigger] bids@[j] == last_bid(orders@, GoodsType::at(j)),
            sums@.len() == i,
            forall|j: int| 0 <= j < i ==> !overflows(orders@, #[trigger] GoodsType::at(j)),
            forall|j: int|
                0 <= j < i ==> #[trigger] sums@[j] == if mentions(orders@, GoodsType::at(j)) {
                    Some(sum_of(orders@, GoodsType::at(j)))
                } else {
                    None
                },
        decreases GOODS_COUNT - i,
    {
        let goods_type: GoodsType = goods[i];
        proof {
            assert(goods_type == GoodsType::at(i as int));
            last_bid_is_of_last_order(orders@, goods_type);
            total_of_positive_orders(orders@, goods_type);
            assert(totals@[i as int] == total(orders@, GoodsType::at(i as int)));
            assert(bids@[i as int] == last_bid(orders@, GoodsType::at(i as int)));
        }
        let sum: Option<BuyOrderSum> = match bids[i] {
            Some(price) => {
                let units: i128 = totals[i];
                if units < i64::MIN as i128 || units > i64::MAX as i128 {
                    proof {
                        assert forall|earlier: GoodsType|
                            earlier.position() < goods_type.position() implies !#[trigger] overflows(
                            orders@,
                            earlier,
                        ) by {
                            catalogue_lists_each_kind_once(earlier);
                            catalogue_lists_each_kind_once(goods_type);
                            assert(!overflows(orders@, GoodsType::at(earlier.position())));
                        }
                    }
                    return Err(SettlementError::DemandOverflow(goods_type));
                }
                Some(BuyOrderSum { goods_type, amount: units as i64, price })
            },
            None => None,
        };
        sums.push(sum);
        i += 1;
    }
    let demand = Demand { sums };
    proof {
        assert forall|g: GoodsType| !#[trigger] overflows(orders@, g) by {
            catalogue_lists_each_kind_once(g);
            assert(!overflows(orders@, GoodsType::at(g.position())));
        }
        assert forall|g: GoodsType| #[trigger]
            demand@.dom().contains(g) == mentions(orders@, g) && (mentions(orders@, g)
                ==> demand@[g] == sum_of(orders@, g)) by {
            catalogue_lists_each_kind_once(g);
            assert(demand.sums@[g.position()] == if mentions(orders@, GoodsType::at(g.position())) {
                Some(sum_of(orders@, GoodsType::at(g.position())))
            } else {
                None
            });
        }
        assert(demand@ =~= demand_of(orders@));
    }
    Ok(demand)
}

} // verus!

//! Orders: what a tick's buyers and sellers ask for, and the book that holds
//! the orders of one tick.

use crate::goods::GoodsType;
use vstd::prelude::*;

verus! {

/// Who stands behind an order: a facility that buys its inputs or sells its
/// output, or a person who consumes.
#[derive(Clone, Copy, Debug, PartialEq, Eq, Hash, Structural)]
pub enum OrderType {
    Production,
    Person,
}

/// A request to buy `amount` units of a good at `price` thousandths of a unit
/// each.
#[derive(Clone, Copy, Debug, PartialEq, Eq, Structural)]
pub struct BuyOrder {
    pub goods_type: GoodsType,
    pub amount: i64,
    pub price: u64,
    pub order_type: OrderType,
}

/// An offer to sell `amount` units of a good at `price` thousandths of a unit
/// each.
#[derive(Clone, Copy, Debug, PartialEq, Eq, Structural)]
pub struct SellOrder {
    pub goods_type: GoodsType,
    pub amount: i64,
    pub price: u64,
    pub order_type: OrderType,
}

/// What a tick's buy orders for one good come to.
#[derive(Clone, Copy, Debug, PartialEq, Eq, Structural)]
pub struct BuyOrderSum {
    pub goods_type: GoodsType,
    pub amount: i64,
    pub price: u64,
}

/// A buy order filed under the good that it asks for.
#[derive(Clone, Copy, Debug, PartialEq, Eq, Structural)]
pub struct BuyOrders {
    pub goods_type: GoodsType,
    pub buy_order: BuyOrder,
}

/// A sell order filed under the good that it offers.
#[derive(Clone, Copy, Debug, PartialEq, Eq, Structural)]
pub struct SellOrders {
    pub goods_type: GoodsType,
    pub sell_order: SellOrder,
}

/// Why the order book turned an order away.
#[derive(Clone, Copy, Debug, PartialEq, Eq, Structural)]
pub enum OrderError {
    /// The order asks for, or offers, no unit at all or fewer.
    NonPositiveAmount,
}

/// What buy orders and sell orders have in common: a good and a number of
/// units.
pub trait Order: Sized {
    /// The good that the order is about.
    spec fn goods(&self) -> GoodsType;

    /// The number of units that the order is about.
    spec fn quantity(&self) -> i64;

    /// The good that the order is about.
    fn goods_of(&self) -> (goods_type: GoodsType)
        ensures
            goods_type == self.goods(),
    ;

    /// The number of units that the order is about.
    fn amount_of(&self) -> (amount: i64)
        ensures
            amount == self.quantity(),
    ;
}

impl Order for BuyOrder {
    open spec fn goods(&self) -> GoodsType {
        self.goods_type
    }

    open spec fn quantity(&self) -> i64 {
        self.amount
    }

    fn goods_of(&self) -> (goods_type: GoodsType) {
        self.goods_type
    }

    fn amount_of(&self) -> (amount: i64) {
        self.amount
    }
}

impl Order for SellOrder {
    open spec fn goods(&self) -> GoodsType {
        self.goods_type
    }

    open spec fn quantity(&self) -> i64 {
        self.amount
    }

    fn goods_of(&self) -> (goods_type: GoodsType) {
        self.goods_type
    }

    fn amount_of(&self) -> (amount: i64) {
        self.amount
    }
}

impl BuyOrders {
    /// The order stands under its own good.
    pub open spec fn wf(self) -> bool {
        self.goods_type == self.buy_order.goods_type
    }

    /// Files `buy_order` under the good that it asks for.
    pub fn new(buy_order: BuyOrder) -> (filed: BuyOrders)
        ensures
            filed.buy_order == buy_order,
            filed.wf(),
    {
        BuyOrders { goods_type: buy_order.goods_type, buy_order }
    }
}

impl SellOrders {
    /// The order stands under its own good.
    pub open spec fn wf(self) -> bool {
        self.goods_type == self.sell_order.goods_type
    }

    /// Files `sell_order` under the good that it offers.
    pub fn new(sell_order: SellOrder) -> (filed: SellOrders)
        ensures
            filed.sell_order == sell_order,
            filed.wf(),
    {
        SellOrders { goods_type: sell_order.goods_type, sell_order }
    }
}

/// The units that the orders for `goods_type` among `orders` add up to.
pub open spec fn total<T: Order>(orders: Seq<T>, goods_type: GoodsType) -> int
    decreases orders.len(),
{
    if orders.len() == 0 {
        0
    } else if orders.last().goods() == goods_type {
        total(orders.drop_last(), goods_type) + orders.last().quantity()
    } else {
        total(orders.drop_last(), goods_type)
    }
}

/// Whether some order among `orders` is about `goods_type`.
pub open spec fn mentions<T: Order>(orders: Seq<T>, goods_type: GoodsType) -> bool {
    exists|i: int| 0 <= i < orders.len() && (#[trigger] orders[i]).goods() == goods_type
}

/// Whether every order among `orders` is about at least one unit.
pub open spec fn all_positive<T: Order>(orders: Seq<T>) -> bool {
    forall|i: int| 0 <= i < orders.len() ==> (#[trigger] orders[i]).quantity() > 0
}

/// The price that the last buy order for `goods_type` among `orders` names,
/// if there is such an order.
pub open spec fn last_bid(orders: Seq<BuyOrder>, goods_type: GoodsType) -> Option<u64>
    decreases orders.len(),
{
    if orders.len() == 0 {
        None
    } else if orders.last().goods_type == goods_type {
        Some(orders.last().price)
    } else {
        last_bid(orders.drop_last(), goods_type)
    }
}

/// One more order adds its units to the total of its own good and to no
/// other.
pub proof fn total_after_push<T: Order>(orders: Seq<T>, order: T, goods_type: GoodsType)
    ensures
        total(orders.push(order), goods_type) == total(orders, goods_type) + if order.goods()
            == goods_type {
            order.quantity()
        } else {
            0
        },
{
    assert(orders.push(order).drop_last() =~= orders);
}

/// The total of two runs of orders, one after the other, is the sum of their
/// totals: how a tick's orders are split into runs does not matter.
pub proof fn total_is_additive<T: Order>(first: Seq<T>, second: Seq<T>, goods_type: GoodsType)
    ensures
        total(first + second, goods_type) == total(first, goods_type) + total(second, goods_type),
    decreases second.len(),
{
    if second.len() == 0 {
        assert(first + second =~= first);
    } else {
        assert((first + second).drop_last() =~= first + second.drop_last());
        total_is_additive(first, second.drop_last(), goods_type);
    }
}

/// Taking one order out takes its units from the total of its own good and
/// from no other.
pub proof fn total_after_remove<T: Order>(orders: Seq<T>, place: int, goods_type: GoodsType)
    requires
        0 <= place < orders.len(),
    ensures
        total(orders, goods_type) == total(orders.remove(place), goods_type) + if orders[place].goods()
            == goods_type {
            orders[place].quantity() as int
        } else {
            0
        },
{
    let before = orders.subrange(0, place);
    let after = orders.subrange(place + 1, orders.len() as int);
    assert(orders =~= before.push(orders[place]) + after);
    assert(orders.remove(place) =~= before + after);
    total_is_additive(before.push(orders[place]), after, goods_type);
    total_is_additive(before, after, goods_type);
    total_after_push(before, orders[place], goods_type);
}

/// The totals, and which goods are mentioned at all, depend on which orders
/// there are and not on where they stand: two runs that hold the same orders,
/// each as often as the other, come to the same.
pub proof fn total_ignores_order<T: Order>(orders: Seq<T>, shuffled: Seq<T>, goods_type: GoodsType)
    requires
        orders.to_multiset() == shuffled.to_multiset(),
    ensures
        total(orders, goods_type) == total(shuffled, goods_type),
        mentions(orders, goods_type) == mentions(shuffled, goods_type),
    decreases orders.len(),
{
    vstd::seq_lib::to_multiset_len(orders);
    vstd::seq_lib::to_multiset_len(shuffled);
    if mentions(orders, goods_type) {
        let i = choose|i: int| 0 <= i < orders.len() && (#[trigger] orders[i]).goods() == goods_type;
        assert(orders.contains(orders[i]));
        vstd::seq_lib::to_multiset_contains(orders, orders[i]);
        vstd::seq_lib::to_multiset_contains(shuffled, orders[i]);
        let j = choose|j: int| 0 <= j < shuffled.len() && shuffled[j] == orders[i];
        assert(shuffled[j].goods() == goods_type);
    }
    if mentions(shuffled, goods_type) {
        let i = choose|i: int|
            0 <= i < shuffled.len() && (#[trigger] shuffled[i]).goods() == goods_type;
        assert(shuffled.contains(shuffled[i]));
        vstd::seq_lib::to_multiset_contains(shuffled, shuffled[i]);
        vstd::seq_lib::to_multiset_contains(orders, shuffled[i]);
        let j = choose|j: int| 0 <= j < orders.len() && orders[j] == shuffled[i];
        assert(orders[j].goods() == goods_type);
    }
    if orders.len() > 0 {
        let last = orders.last();
        assert(orders[orders.len() - 1] == last);
        assert(orders.contains(last));
        vstd::seq_lib::to_multiset_contains(orders, last);
        vstd::seq_lib::to_multiset_contains(shuffled, last);
        let place = choose|place: int| 0 <= place < shuffled.len() && shuffled[place] == last;
        assert(orders.drop_last() =~= orders.remove(orders.len() - 1));
        vstd::seq_lib::to_multiset_remove(orders, orders.len() - 1);
        vstd::seq_lib::to_multiset_remove(shuffled, place);
        total_ignores_order(orders.drop_last(), shuffled.remove(place), goods_type);
        total_after_remove(shuffled, place, goods_type);
    }
}

/// A good that no order mentions has a total of zero, and a good that some
/// order mentions has a total of at least one, where every order is about at
/// least one unit.
pub proof fn total_of_positive_orders<T: Order>(orders: Seq<T>, goods_type: GoodsType)
    ensures
        !mentions(orders, goods_type) ==> total(orders, goods_type) == 0,
        all_positive(orders) ==> total(orders, goods_type) >= 0,
        all_positive(orders) && mentions(orders, goods_type) ==> total(orders, goods_type) > 0,
    decreases orders.len(),
{
    if orders.len() > 0 {
        let rest = orders.drop_last();
        total_of_positive_orders(rest, goods_type);
        if mentions(rest, goods_type) {
            let i = choose|i: int| 0 <= i < rest.len() && (#[trigger] rest[i]).goods() == goods_type;
            assert(orders[i].goods() == goods_type);
        }
        if all_positive(orders) {
            assert forall|i: int| 0 <= i < rest.len() implies (#[trigger] rest[i]).quantity()
                > 0 by {
                assert(orders[i].quantity() > 0);
            }
            assert(orders[orders.len() - 1].quantity() > 0);
        }
        if orders.last().goods() == goods_type {
            assert(orders[orders.len() - 1].goods() == goods_type);
        } else if mentions(orders, goods_type) {
            let i = choose|i: int|
                0 <= i < orders.len() && (#[trigger] orders[i]).goods() == goods_type;
            assert(rest[i].goods() == goods_type);
        }
    }
}

/// A total is bounded by the number of orders times the range of one amount.
pub proof fn total_is_bounded<T: Order>(orders: Seq<T>, goods_type: GoodsType)
    ensures
        orders.len() * i64::MIN <= total(orders, goods_type) <= orders.len() * i64::MAX,
    decreases orders.len(),
{
    if orders.len() > 0 {
        let rest = orders.drop_last();
        total_is_bounded(rest, goods_type);
        assert(orders.len() * i64::MIN == rest.len() * i64::MIN + i64::MIN) by (nonlinear_arith)
            requires
                orders.len() == rest.len() + 1,
        ;
        assert(orders.len() * i64::MAX == rest.len() * i64::MAX + i64::MAX) by (nonlinear_arith)
            requires
                orders.len() == rest.len() + 1,
        ;
    }
}

/// A good has a last bid exactly when some buy order mentions it, and the
/// bid is then the price of the last such order.
pub proof fn last_bid_is_of_last_order(orders: Seq<BuyOrder>, goods_type: GoodsType)
    ensures
        last_bid(orders, goods_type) is Some <==> mentions(orders, goods_type),
        last_bid(orders, goods_type) is Some ==> exists|i: int|
            0 <= i < orders.len() && (#[trigger] orders[i]).goods_type == goods_type
                && last_bid(orders, goods_type) == Some(orders[i].price) && forall|j: int|
                i < j < orders.len() ==> (#[trigger] orders[j]).goods_type != goods_type,
    decreases orders.len(),
{
    if orders.len() > 0 {
        let rest = orders.drop_last();
        let n = orders.len() - 1;
        last_bid_is_of_last_order(rest, goods_type);
        if orders.last().goods_type == goods_type {
            assert(orders[n].goods() == goods_type);
            assert(orders[n].goods_type == goods_type && last_bid(orders, goods_type) == Some(
                orders[n].price,
            ));
        } else {
            if mentions(orders, goods_type) {
                let i = choose|i: int|
                    0 <= i < orders.len() && (#[trigger] orders[i]).goods() == goods_type;
                assert(rest[i].goods() == goods_type);
            }
            if last_bid(rest, goods_type) is Some {
                let i = choose|i: int|
                    0 <= i < rest.len() && (#[trigger] rest[i]).goods_type == goods_type
                        && last_bid(rest, goods_type) == Some(rest[i].price) && forall|j: int|
                        i < j < rest.len() ==> (#[trigger] rest[j]).goods_type != goods_type;
                assert(orders[i].goods() == goods_type);
                assert forall|j: int| i < j < orders.len() implies (
                #[trigger] orders[j]).goods_type != goods_type by {
                    if j < rest.len() {
                        assert(rest[j].goods_type != goods_type);
                    }
                }
                assert(orders[i].goods_type == goods_type && last_bid(orders, goods_type) == Some(
                    orders[i].price,
                ));
            }
        }
    }
}

/// The orders of one tick. Orders are added and never changed; the market
/// pass reads them and then empties the book. Every order in the book is
/// about at least one unit.
pub struct OrderBook {
    buys: Vec<BuyOrder>,
    sells: Vec<SellOrder>,
}

impl OrderBook {
    /// The buy orders, in the order in which they were placed.
    pub closed spec fn buys(&self) -> Seq<BuyOrder> {
        self.buys@
    }

    /// The sell orders, in the order in which they were placed.
    pub closed spec fn sells(&self) -> Seq<SellOrder> {
        self.sells@
    }

    /// Every order is about at least one unit.
    pub open spec fn wf(&self) -> bool {
        all_positive(self.buys()) && all_positive(self.sells())
    }

    /// A book with no order in it.
    pub fn new() -> (book: OrderBook)
        ensures
            book.wf(),
            book.buys().len() == 0,
            book.sells().len() == 0,
    {
        OrderBook { buys: Vec::new(), sells: Vec::new() }
    }

    /// Adds a buy order behind those already placed, unless it is about no
    /// unit or fewer: such an order is turned away and the book stays as it
    /// was.
    pub fn place_buy(&mut self, order: BuyOrder) -> (placed: Result<(), OrderError>)
        requires
            old(self).wf(),
        ensures
            final(self).wf(),
            final(self).sells() == old(self).sells(),
            order.amount > 0 ==> placed is Ok && final(self).buys() == old(self).buys().push(order),
            order.amount <= 0 ==> placed == Err::<(), OrderError>(OrderError::NonPositiveAmount)
                && final(self).buys() == old(self).buys(),
    {
        if order.amount <= 0 {
            return Err(OrderError::NonPositiveAmount);
        }
        self.buys.push(order);
        Ok(())
    }

    /// Adds a sell order behind those already placed, unless it is about no
    /// unit or fewer: such an order is turned away and the book stays as it
    /// was.
    pub fn place_sell(&mut self, order: SellOrder) -> (placed: Result<(), OrderError>)
        requires
            old(self).wf(),
        ensures
            final(self).wf(),
            final(self).buys() == old(self).buys(),
            order.amount > 0 ==> placed is Ok && final(self).sells() == old(self).sells().push(
                order,
            ),
            order.amount <= 0 ==> placed == Err::<(), OrderError>(OrderError::NonPositiveAmount)
                && final(self).sells() == old(self).sells(),
    {
        if order.amount <= 0 {
            return Err(OrderError::NonPositiveAmount);
        }
        self.sells.push(order);
        Ok(())
    }

    /// The buy orders, in the order in which they were placed.
    pub fn buy_orders(&self) -> (orders: &Vec<BuyOrder>)
        ensures
            orders@ == self.buys(),
    {
        &self.buys
    }

    /// The sell orders, in the order in which they were placed.
    pub fn sell_orders(&self) -> (orders: &Vec<SellOrder>)
        ensures
            orders@ == self.sells(),
    {
        &self.sells
    }

    /// Whether the book holds no order.
    pub fn is_empty(&self) -> (empty: bool)
        ensures
            empty <==> self.buys().len() == 0 && self.sells().len() == 0,
    {
        self.buys.len() == 0 && self.sells.len() == 0
    }

    /// Discards every order.
    pub fn clear(&mut self)
        ensures
            final(self).wf(),
            final(self).buys().len() == 0,
            final(self).sells().len() == 0,
    {
        self.buys.clear();
        self.sells.clear();
    }
}

} // verus!

//! The price book: the one live price of every good.

use crate::goods::{GoodsType, GOODS_COUNT};
use vstd::prelude::*;

verus! {

/// The live price of one good, in thousandths of a unit.
#[derive(Clone, Copy, Debug, PartialEq, Eq, Structural)]
pub struct Price {
    pub goods_type: GoodsType,
    pub price: u64,
}

/// The price book. It holds one record for every good of the catalogue, in
/// the catalogue's order, at all times: no good is ever without a price, and
/// none has two. Only the functions of this file make or change a book, and
/// each of them keeps it so.
pub struct PriceBook {
    records: Vec<Price>,
}

impl View for PriceBook {
    type V = Seq<Price>;

    closed spec fn view(&self) -> Seq<Price> {
        self.records@
    }
}

impl PriceBook {
    /// One record per good, each at the place of its good in the catalogue.
    pub open spec fn wf(&self) -> bool {
        &&& self@.len() == GOODS_COUNT
        &&& forall|i: int|
            0 <= i < GOODS_COUNT ==> (#[trigger] self@[i]).goods_type == GoodsType::at(i)
    }

    /// The price that the book holds for `goods_type`.
    pub open spec fn quote(&self, goods_type: GoodsType) -> u64 {
        self@[goods_type.position()].price
    }

    /// The book as it stands at startup: every good at its baseline price.
    pub fn new() -> (book: PriceBook)
        ensures
            book.wf(),
            forall|g: GoodsType| #[trigger] book.quote(g) == g.baseline(),
    {
        let mut records: Vec<Price> = Vec::new();
        let mut i: usize = 0;
        while i < GOODS_COUNT
            invariant
                i <= GOODS_COUNT,
                records@.len() == i,
                forall|k: int|
                    0 <= k < i ==> (#[trigger] records@[k]).goods_type == GoodsType::at(k)
                        && records@[k].price == GoodsType::at(k).baseline(),
            decreases GOODS_COUNT - i,
        {
            match GoodsType::from_index(i) {
                Some(goods_type) => {
                    records.push(Price { goods_type, price: goods_type.starting_price() });
                },
                None => {},
            }
            i += 1;
        }
        let book = PriceBook { records };
        assert forall|g: GoodsType| #[trigger] book.quote(g) == g.baseline() by {
            assert(GoodsType::at(g.position()) == g);
        }
        book
    }

    /// The current price of `goods_type`.
    pub fn price(&self, goods_type: GoodsType) -> (price: u64)
        requires
            self.wf(),
        ensures
            price == self.quote(goods_type),
    {
        self.records[goods_type.index()].price
    }

    /// Writes a new price for `goods_type` and leaves every other record as
    /// it was.
    pub fn set_price(&mut self, goods_type: GoodsType, price: u64)
        requires
            old(self).wf(),
        ensures
            final(self).wf(),
            final(self)@ == old(self)@.update(
                goods_type.position(),
                (Price { goods_type, price }),
            ),
    {
        let i: usize = goods_type.index();
        self.records.set(i, Price { goods_type, price });
    }

    /// How many records the book holds: one for each good.
    pub fn len(&self) -> (n: usize)
        requires
            self.wf(),
        ensures
            n == GOODS_COUNT,
            n == self@.len(),
    {
        self.records.len()
    }

    /// A copy of the records, in the catalogue's order.
    pub fn records(&self) -> (records: Vec<Price>)
        ensures
            records@ == self@,
    {
        let mut records: Vec<Price> = Vec::new();
        let mut i: usize = 0;
        while i < self.records.len()
            invariant
                i <= self.records@.len(),
                records@ == self.records@.take(i as int),
            decreases self.records@.len() - i,
        {
            records.push(self.records[i]);
            assert(self.records@.take(i + 1) =~= self.records@.take(i as int).push(
                self.records@[i as int],
            ));
            i += 1;
        }
        assert(self.records@.take(i as int) =~= self.records@);
        records
    }

    /// A second book with the same prices.
    pub fn snapshot(&self) -> (book: PriceBook)
        ensures
            book@ == self@,
    {
        PriceBook { records: self.records() }
    }
}

/// In a price book every good has exactly one record.
pub proof fn one_price_per_good(book: PriceBook, goods_type: GoodsType)
    requires
        book.wf(),
    ensures
        book@.len() == GOODS_COUNT,
        0 <= goods_type.position() < book@.len(),
        book@[goods_type.position()].goods_type == goods_type,
        forall|i: int|
            0 <= i < book@.len() && (#[trigger] book@[i]).goods_type == goods_type ==> i
                == goods_type.position(),
{
    assert(GoodsType::at(goods_type.position()) == goods_type);
}

} // verus!

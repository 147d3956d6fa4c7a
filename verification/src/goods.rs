//! The goods catalogue: the closed set of tradeable kinds, their fixed order
//! and their baseline prices.

use vstd::prelude::*;

verus! {

/// How many kinds of goods the catalogue holds.
pub const GOODS_COUNT: usize = 17;

/// Every price and every balance is a whole number of thousandths of one
/// currency unit; this is the value of one unit.
pub const PRICE_SCALE: u64 = 1000;

/// A kind of tradeable good.
#[derive(Clone, Copy, Debug, PartialEq, Eq, Hash, Structural)]
pub enum GoodsType {
    Food,
    Steel,
    Coal,
    Iron,
    Copper,
    Oil,
    Car,
    Tool,
    Weapon,
    Clothes,
    Furniture,
    Wine,
    Tobacco,
    Rent,
    Wood,
    Labor,
    Cotton,
}

impl GoodsType {
    /// The kind that stands at position `i` of the catalogue.
    pub open spec fn at(i: int) -> GoodsType {
        if i == 0 {
            GoodsType::Food
        } else if i == 1 {
            GoodsType::Steel
        } else if i == 2 {
            GoodsType::Coal
        } else if i == 3 {
            GoodsType::Iron
        } else if i == 4 {
            GoodsType::Copper
        } else if i == 5 {
            GoodsType::Oil
        } else if i == 6 {
            GoodsType::Car
        } else if i == 7 {
            GoodsType::Tool
        } else if i == 8 {
            GoodsType::Weapon
        } else if i == 9 {
            GoodsType::Clothes
        } else if i == 10 {
            GoodsType::Furniture
        } else if i == 11 {
            GoodsType::Wine
        } else if i == 12 {
            GoodsType::Tobacco
        } else if i == 13 {
            GoodsType::Rent
        } else if i == 14 {
            GoodsType::Wood
        } else if i == 15 {
            GoodsType::Labor
        } else {
            GoodsType::Cotton
        }
    }

    /// The whole catalogue, in its fixed order.
    pub open spec fn catalogue() -> Seq<GoodsType> {
        Seq::new(GOODS_COUNT as nat, |i: int| Self::at(i))
    }

    /// The position of this kind in the catalogue.
    pub open spec fn position(self) -> int {
        match self {
            GoodsType::Food => 0,
            GoodsType::Steel => 1,
            GoodsType::Coal => 2,
            GoodsType::Iron => 3,
            GoodsType::Copper => 4,
            GoodsType::Oil => 5,
            GoodsType::Car => 6,
            GoodsType::Tool => 7,
            GoodsType::Weapon => 8,
            GoodsType::Clothes => 9,
            GoodsType::Furniture => 10,
            GoodsType::Wine => 11,
            GoodsType::Tobacco => 12,
            GoodsType::Rent => 13,
            GoodsType::Wood => 14,
            GoodsType::Labor => 15,
            GoodsType::Cotton => 16,
        }
    }

    /// The baseline price of this kind, in thousandths of a unit. The present
    /// calibration gives every kind one unit.
    pub open spec fn baseline(self) -> int {
        PRICE_SCALE as int
    }

    /// The position of this kind in the catalogue, as an index into a table
    /// with one slot per kind.
    pub fn index(&self) -> (i: usize)
        ensures
            i == self.position(),
            i < GOODS_COUNT,
            Self::at(i as int) == *self,
    {
        match self {
            GoodsType::Food => 0,
            GoodsType::Steel => 1,
            GoodsType::Coal => 2,
            GoodsType::Iron => 3,
            GoodsType::Copper => 4,
            GoodsType::Oil => 5,
            GoodsType::Car => 6,
            GoodsType::Tool => 7,
            GoodsType::Weapon => 8,
            GoodsType::Clothes => 9,
            GoodsType::Furniture => 10,
            GoodsType::Wine => 11,
            GoodsType::Tobacco => 12,
            GoodsType::Rent => 13,
            GoodsType::Wood => 14,
            GoodsType::Labor => 15,
            GoodsType::Cotton => 16,
        }
    }

    /// The kind at position `i` of the catalogue, or `None` past its end.
    pub fn from_index(i: usize) -> (g: Option<GoodsType>)
        ensures
            i < GOODS_COUNT ==> g == Some(Self::at(i as int)),
            i >= GOODS_COUNT ==> g is None,
    {
        match i {
            0 => Some(GoodsType::Food),
            1 => Some(GoodsType::Steel),
            2 => Some(GoodsType::Coal),
            3 => Some(GoodsType::Iron),
            4 => Some(GoodsType::Copper),
            5 => Some(GoodsType::Oil),
            6 => Some(GoodsType::Car),
            7 => Some(GoodsType::Tool),
            8 => Some(GoodsType::Weapon),
            9 => Some(GoodsType::Clothes),
            10 => Some(GoodsType::Furniture),
            11 => Some(GoodsType::Wine),
            12 => Some(GoodsType::Tobacco),
            13 => Some(GoodsType::Rent),
            14 => Some(GoodsType::Wood),
            15 => Some(GoodsType::Labor),
            16 => Some(GoodsType::Cotton),
            _ => None,
        }
    }

    /// Every kind of the catalogue, once each, in the catalogue's order.
    pub fn all() -> (v: Vec<GoodsType>)
        ensures
            v@ == Self::catalogue(),
    {
        let mut v: Vec<GoodsType> = Vec::new();
        let mut i: usize = 0;
        while i < GOODS_COUNT
            invariant
                i <= GOODS_COUNT,
                v@.len() == i,
                forall|k: int| 0 <= k < i ==> v@[k] == Self::at(k),
            decreases GOODS_COUNT - i,
        {
            match Self::from_index(i) {
                Some(g) => {
                    v.push(g);
                },
                None => {},
            }
            i += 1;
        }
        assert(v@ =~= Self::catalogue());
        v
    }

    /// The price at which this kind enters the price book, in thousandths of a
    /// unit.
    pub fn starting_price(&self) -> (p: u64)
        ensures
            p == self.baseline(),
    {
        match self {
            GoodsType::Food => PRICE_SCALE,
            GoodsType::Steel => PRICE_SCALE,
            GoodsType::Coal => PRICE_SCALE,
            GoodsType::Iron => PRICE_SCALE,
            GoodsType::Copper => PRICE_SCALE,
            GoodsType::Oil => PRICE_SCALE,
            GoodsType::Car => PRICE_SCALE,
            GoodsType::Tool => PRICE_SCALE,
            GoodsType::Weapon => PRICE_SCALE,
            GoodsType::Clothes => PRICE_SCALE,
            GoodsType::Furniture => PRICE_SCALE,
            GoodsType::Wine => PRICE_SCALE,
            GoodsType::Tobacco => PRICE_SCALE,
            GoodsType::Rent => PRICE_SCALE,
            GoodsType::Wood => PRICE_SCALE,
            GoodsType::Labor => PRICE_SCALE,
            GoodsType::Cotton => PRICE_SCALE,
        }
    }
}

/// A kind and its position determine each other: the catalogue lists every
/// kind exactly once.
pub proof fn catalogue_lists_each_kind_once(g: GoodsType)
    ensures
        0 <= g.position() < GOODS_COUNT,
        GoodsType::catalogue().len() == GOODS_COUNT,
        GoodsType::catalogue()[g.position()] == g,
        forall|i: int|
            0 <= i < GOODS_COUNT && #[trigger] GoodsType::catalogue()[i] == g ==> i
                == g.position(),
        GoodsType::at(g.position()) == g,
        forall|i: int| 0 <= i < GOODS_COUNT ==> (#[trigger] GoodsType::at(i)).position() == i,
{
}

} // verus!

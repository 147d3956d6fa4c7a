//! The production catalogue: what each kind of facility takes in and what it
//! turns out.

use crate::goods::GoodsType;
use vstd::prelude::*;

verus! {

/// A kind of production facility.
#[derive(Clone, Copy, Debug, PartialEq, Eq, Hash, Structural)]
pub enum Production {
    SteelMill,
    IronMine,
    CoalMine,
    CopperMine,
    OilWell,
    CarFactory,
    ToolFactory,
    WeaponFactory,
    ClothesFactory,
    FurnitureFactory,
    WineFactory,
    TobaccoFarm,
    House,
    SawMill,
    CottonFarm,
}

/// One facility: a recipe shared with every facility of its kind, and an
/// identity of its own.
#[derive(Clone, Copy, Debug, PartialEq, Eq, Structural)]
pub struct ProductionInstance {
    id: i64,
    production: Production,
}

impl ProductionInstance {
    /// The facility `id`, of the kind `production`.
    pub fn new(id: i64, production: Production) -> (instance: ProductionInstance)
        ensures
            instance.identity() == id,
            instance.kind() == production,
    {
        ProductionInstance { id, production }
    }

    /// The identity of the facility.
    pub closed spec fn identity(self) -> i64 {
        self.id
    }

    /// The kind of the facility, which gives its recipe.
    pub closed spec fn kind(self) -> Production {
        self.production
    }

    /// The identity of the facility.
    pub fn id(&self) -> (id: i64)
        ensures
            id == self.identity(),
    {
        self.id
    }

    /// The kind of the facility, which gives its recipe.
    pub fn production(&self) -> (production: Production)
        ensures
            production == self.kind(),
    {
        self.production
    }
}

impl Production {
    /// The goods that a facility of this kind takes in, in the order of its
    /// recipe. A house takes in nothing.
    pub open spec fn recipe(self) -> Seq<GoodsType> {
        match self {
            Production::SteelMill => seq![GoodsType::Labor, GoodsType::Iron, GoodsType::Coal],
            Production::IronMine => seq![GoodsType::Labor, GoodsType::Tool],
            Production::CoalMine => seq![GoodsType::Labor, GoodsType::Tool],
            Production::CopperMine => seq![GoodsType::Labor, GoodsType::Tool],
            Production::OilWell => seq![GoodsType::Labor, GoodsType::Tool],
            Production::CarFactory => seq![GoodsType::Labor, GoodsType::Steel],
            Production::ToolFactory => seq![GoodsType::Labor, GoodsType::Steel],
            Production::WeaponFactory => seq![GoodsType::Labor, GoodsType::Steel, GoodsType::Tool],
            Production::ClothesFactory => seq![GoodsType::Labor, GoodsType::Tool],
            Production::FurnitureFactory => seq![
                GoodsType::Labor,
                GoodsType::Wood,
                GoodsType::Tool,
            ],
            Production::WineFactory => seq![GoodsType::Labor, GoodsType::Tool],
            Production::TobaccoFarm => seq![GoodsType::Labor],
            Production::House => seq![],
            Production::SawMill => seq![GoodsType::Labor, GoodsType::Tool],
            Production::CottonFarm => seq![GoodsType::Labor, GoodsType::Tool],
        }
    }

    /// The one good that a facility of this kind turns out.
    pub open spec fn product(self) -> GoodsType {
        match self {
            Production::SteelMill => GoodsType::Steel,
            Production::IronMine => GoodsType::Iron,
            Production::CoalMine => GoodsType::Coal,
            Production::CopperMine => GoodsType::Copper,
            Production::OilWell => GoodsType::Oil,
            Production::CarFactory => GoodsType::Car,
            Production::ToolFactory => GoodsType::Tool,
            Production::WeaponFactory => GoodsType::Weapon,
            Production::ClothesFactory => GoodsType::Clothes,
            Production::FurnitureFactory => GoodsType::Furniture,
            Production::WineFactory => GoodsType::Wine,
            Production::TobaccoFarm => GoodsType::Tobacco,
            Production::House => GoodsType::Rent,
            Production::SawMill => GoodsType::Wood,
            Production::CottonFarm => GoodsType::Cotton,
        }
    }

    /// Returns the list of inputs for this production facility.
    pub fn input(&self) -> (inputs: Vec<GoodsType>)
        ensures
            inputs@ == self.recipe(),
    {
        let inputs: Vec<GoodsType> = match self {
            Production::SteelMill => vec![GoodsType::Labor, GoodsType::Iron, GoodsType::Coal],
            Production::IronMine => vec![GoodsType::Labor, GoodsType::Tool],
            Production::CoalMine => vec![GoodsType::Labor, GoodsType::Tool],
            Production::CopperMine => vec![GoodsType::Labor, GoodsType::Tool],
            Production::OilWell => vec![GoodsType::Labor, GoodsType::Tool],
            Production::CarFactory => vec![GoodsType::Labor, GoodsType::Steel],
            Production::ToolFactory => vec![GoodsType::Labor, GoodsType::Steel],
            Production::WeaponFactory => vec![GoodsType::Labor, GoodsType::Steel, GoodsType::Tool],
            Production::ClothesFactory => vec![GoodsType::Labor, GoodsType::Tool],
            Production::FurnitureFactory => vec![
                GoodsType::Labor,
                GoodsType::Wood,
                GoodsType::Tool,
            ],
            Production::WineFactory => vec![GoodsType::Labor, GoodsType::Tool],
            Production::TobaccoFarm => vec![GoodsType::Labor],
            Production::House => Vec::new(),
            Production::SawMill => vec![GoodsType::Labor, GoodsType::Tool],
            Production::CottonFarm => vec![GoodsType::Labor, GoodsType::Tool],
        };
        assert(inputs@ =~= self.recipe());
        inputs
    }

    /// Returns the output good for this production facility.
    pub fn output(&self) -> (good: GoodsType)
        ensures
            good == self.product(),
    {
        match self {
            Production::SteelMill => GoodsType::Steel,
            Production::IronMine => GoodsType::Iron,
            Production::CoalMine => GoodsType::Coal,
            Production::CopperMine => GoodsType::Copper,
            Production::OilWell => GoodsType::Oil,
            Production::CarFactory => GoodsType::Car,
            Production::ToolFactory => GoodsType::Tool,
            Production::WeaponFactory => GoodsType::Weapon,
            Production::ClothesFactory => GoodsType::Clothes,
            Production::FurnitureFactory => GoodsType::Furniture,
            Production::WineFactory => GoodsType::Wine,
            Production::TobaccoFarm => GoodsType::Tobacco,
            Production::House => GoodsType::Rent,
            Production::SawMill => GoodsType::Wood,
            Production::CottonFarm => GoodsType::Cotton,
        }
    }
}

} // verus!

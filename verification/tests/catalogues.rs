use market_sim::goods::{GoodsType, GOODS_COUNT, PRICE_SCALE};
use market_sim::production::{Production, ProductionInstance};

fn every_production() -> Vec<Production> {
    vec![
        Production::SteelMill,
        Production::IronMine,
        Production::CoalMine,
        Production::CopperMine,
        Production::OilWell,
        Production::CarFactory,
        Production::ToolFactory,
        Production::WeaponFactory,
        Production::ClothesFactory,
        Production::FurnitureFactory,
        Production::WineFactory,
        Production::TobaccoFarm,
        Production::House,
        Production::SawMill,
        Production::CottonFarm,
    ]
}

#[test]
fn catalogue_lists_seventeen_goods_in_order() {
    let goods = GoodsType::all();
    assert_eq!(goods.len(), 17);
    assert_eq!(GOODS_COUNT, 17);
    assert_eq!(
        goods,
        vec![
            GoodsType::Food,
            GoodsType::Steel,
            GoodsType::Coal,
            GoodsType::Iron,
            GoodsType::Copper,
            GoodsType::Oil,
            GoodsType::Car,
            GoodsType::Tool,
            GoodsType::Weapon,
            GoodsType::Clothes,
            GoodsType::Furniture,
            GoodsType::Wine,
            GoodsType::Tobacco,
            GoodsType::Rent,
            GoodsType::Wood,
            GoodsType::Labor,
            GoodsType::Cotton,
        ]
    );
}

#[test]
fn catalogue_order_is_stable_between_calls() {
    assert_eq!(GoodsType::all(), GoodsType::all());
}

#[test]
fn index_and_from_index_undo_each_other() {
    for (place, goods_type) in GoodsType::all().into_iter().enumerate() {
        assert_eq!(goods_type.index(), place);
        assert_eq!(GoodsType::from_index(place), Some(goods_type));
    }
    assert_eq!(GoodsType::Food.index(), 0);
    assert_eq!(GoodsType::Cotton.index(), 16);
}

#[test]
fn from_index_past_the_end_is_none() {
    assert_eq!(GoodsType::from_index(17), None);
    assert_eq!(GoodsType::from_index(usize::MAX), None);
}

#[test]
fn every_good_starts_at_one_unit() {
    assert_eq!(PRICE_SCALE, 1000);
    for goods_type in GoodsType::all() {
        assert_eq!(goods_type.starting_price(), 1000);
    }
}

#[test]
fn weapon_factory_recipe() {
    let mut inputs = Production::WeaponFactory.input();
    assert_eq!(inputs.len(), 3);
    inputs.sort_by_key(|goods_type| goods_type.index());
    let mut expected = vec![GoodsType::Labor, GoodsType::Steel, GoodsType::Tool];
    expected.sort_by_key(|goods_type| goods_type.index());
    assert_eq!(inputs, expected);
    assert_eq!(Production::WeaponFactory.output(), GoodsType::Weapon);
}

#[test]
fn house_takes_nothing_and_gives_rent() {
    assert!(Production::House.input().is_empty());
    assert_eq!(Production::House.output(), GoodsType::Rent);
}

#[test]
fn every_recipe_is_as_tabled() {
    let labor_tool = vec![GoodsType::Labor, GoodsType::Tool];
    let labor_steel = vec![GoodsType::Labor, GoodsType::Steel];
    assert_eq!(
        Production::SteelMill.input(),
        vec![GoodsType::Labor, GoodsType::Iron, GoodsType::Coal]
    );
    assert_eq!(Production::IronMine.input(), labor_tool);
    assert_eq!(Production::CoalMine.input(), labor_tool);
    assert_eq!(Production::CopperMine.input(), labor_tool);
    assert_eq!(Production::OilWell.input(), labor_tool);
    assert_eq!(Production::CarFactory.input(), labor_steel);
    assert_eq!(Production::ToolFactory.input(), labor_steel);
    assert_eq!(
        Production::WeaponFactory.input(),
        vec![GoodsType::Labor, GoodsType::Steel, GoodsType::Tool]
    );
    assert_eq!(Production::ClothesFactory.input(), labor_tool);
    assert_eq!(
        Production::FurnitureFactory.input(),
        vec![GoodsType::Labor, GoodsType::Wood, GoodsType::Tool]
    );
    assert_eq!(Production::WineFactory.input(), labor_tool);
    assert_eq!(Production::TobaccoFarm.input(), vec![GoodsType::Labor]);
    assert_eq!(Production::House.input(), Vec::<GoodsType>::new());
    assert_eq!(Production::SawMill.input(), labor_tool);
    assert_eq!(Production::CottonFarm.input(), labor_tool);
}

#[test]
fn every_output_is_as_tabled() {
    let outputs: Vec<GoodsType> = every_production().iter().map(|p| p.output()).collect();
    assert_eq!(
        outputs,
        vec![
            GoodsType::Steel,
            GoodsType::Iron,
            GoodsType::Coal,
            GoodsType::Copper,
            GoodsType::Oil,
            GoodsType::Car,
            GoodsType::Tool,
            GoodsType::Weapon,
            GoodsType::Clothes,
            GoodsType::Furniture,
            GoodsType::Wine,
            GoodsType::Tobacco,
            GoodsType::Rent,
            GoodsType::Wood,
            GoodsType::Cotton,
        ]
    );
}

#[test]
fn no_facility_takes_in_its_own_output() {
    for production in every_production() {
        assert!(!production.input().contains(&production.output()));
    }
}

#[test]
fn facility_keeps_its_identity_and_kind() {
    let mill = ProductionInstance::new(7, Production::SawMill);
    assert_eq!(mill.id(), 7);
    assert_eq!(mill.production(), Production::SawMill);
    assert_eq!(mill.production().output(), GoodsType::Wood);
    let other = ProductionInstance::new(8, Production::SawMill);
    assert_ne!(mill, other);
    assert_eq!(mill.production().input(), other.production().input());
}

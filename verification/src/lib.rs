//! A tick-driven simulation of agents who hold money and ask for goods, and of
//! the market that gathers what they ask for.

pub mod demand;
pub mod goods;
pub mod market;
pub mod orders;
pub mod population;
pub mod prices;
pub mod production;
pub mod random;
pub mod simulation;

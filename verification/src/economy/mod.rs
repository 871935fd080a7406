pub mod rewards;
pub mod shop;

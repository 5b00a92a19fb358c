pub mod listing;
pub mod marketplace;
pub mod vault;

pub mod delist;
pub mod initialize;
pub mod list;
pub mod purchase;
pub mod resolve;

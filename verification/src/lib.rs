pub mod ast;
pub mod collections;
pub mod equality;
pub mod list;
pub mod names;
pub mod purity;
pub mod state;
pub mod storage_lowering;
pub mod units;
pub mod unused_items;
pub mod walk;

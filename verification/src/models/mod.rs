pub mod condition;
pub mod facts;
pub mod rule;

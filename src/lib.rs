pub mod arith;
pub mod experiment;
pub mod operand;
pub mod outcome;
pub mod registry;
pub mod width;

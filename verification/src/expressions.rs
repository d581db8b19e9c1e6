//! Expressions that attributes evaluate on the edited object, by what they
//! must give back.

pub mod number_expression;
pub mod options_expression;

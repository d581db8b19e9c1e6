//! Parsing and checking of the inspector annotations that scripts write into
//! their property hint strings, and the decisions the inspector takes from
//! them: which properties are claimed, what each attribute holds, when a
//! property is shown, editable, clamped or reported, and how edits merge
//! into undo actions.

pub mod text;
pub mod annotation;
pub mod expression;
pub mod condition;
pub mod severity;
pub mod variant_type;
pub mod constants;
pub mod expressions;
pub mod attributes;
pub mod descriptor;
pub mod property_utils;
pub mod member;
pub mod clamping;
pub mod message_bubble;
pub mod edit_session;
pub mod property_changes;
pub mod naming;
pub mod naughty_attribute;
pub mod meta_attributes;

//! The verified core of a Bengali-language discussion board: comment
//! markup, numeral rendering, post serialization, pagination, moderation
//! checks and the decisions that the request handlers take.

pub mod numerals;
pub mod text;
pub mod database;
pub mod formatting;
pub mod moderation;
pub mod pages;

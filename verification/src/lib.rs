//! Recipes as compositions of measured ingredients.
//!
//! A recipe pairs ingredient names with amounts. An amount is an interval of
//! magnitude together with a measurement unit and knows how to print itself in a
//! unit that suits its size. Intervals are generic over their scalar type; the
//! crate brings two exact scalar types, `i64` and [`Decimal`].

pub mod amount;
pub mod decimal;
pub mod digits;
pub mod ingredient;
pub mod recipe;
pub mod scalar;
pub mod tag;

pub use crate::decimal::Decimal;
pub use crate::ingredient::Ingredient;
pub use crate::recipe::Recipe;
pub use crate::scalar::{Magnitude, Scalar};
pub use crate::tag::{AutoTag, Tag};

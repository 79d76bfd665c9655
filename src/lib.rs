//! Recipe catalogue core: recipe validation, the identifier cache used for
//! referential checks, keyset pagination, and the ordering of the
//! transactional writes that persist a recipe.

pub mod error;
pub mod id_cache;
pub mod ingredient;
pub mod pagination;
pub mod persistence;
pub mod recipe;
pub mod recipe_ingredient;
pub mod recipe_step;
pub mod requests;
pub mod unit;

//! Generic entity-admin dispatch: a closed registry of entity kinds, paging,
//! summary rows, forms, and the choice between fragment and full-page output.

pub mod article;
pub mod dispatch;
pub mod error;
pub mod forms;
pub mod ids;
pub mod kind_forms;
pub mod pagination;
pub mod records;
pub mod shaper;
pub mod slugify;
pub mod tables;
pub mod text;
pub mod user;

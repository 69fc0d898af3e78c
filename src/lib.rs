//! Dynamic values, calendar dates and path breadcrumbs exposed to a
//! logic-less template engine through a small rendering contract.
pub mod date;
pub mod path;
pub mod render;
pub mod templates;
pub mod value;

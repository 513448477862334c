//! Microsoft Security Update (CVRF) records: the document model, the
//! normalization of raw vulnerability entries, the filters over normalized
//! records and the decisions of the monthly fetch.

pub mod cvrf;
pub mod fetch;
pub mod filter;
pub mod model;
pub mod normalize;
pub mod report;
pub mod text;

pub use model::{Impact, Product, Severity, Vulnerability, VulnerabilityView};

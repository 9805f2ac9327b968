//! Reconciles a hierarchical documentation tree against a partial page
//! update, with idempotent create-or-update semantics for page content and
//! page metadata.  The library decides what to write; performing the reads
//! and writes against a real filesystem is the caller's concern.

pub mod digest;
pub mod errors;
pub mod laws;
pub mod meta;
pub mod page;
pub mod paths;
pub mod plan;
pub mod tree;

pub use errors::UpsertError;
pub use meta::Meta;
pub use page::Page;
pub use plan::{plan_upsert, Observed, UpsertPlan};
pub use tree::{Locator, Vkdoc};

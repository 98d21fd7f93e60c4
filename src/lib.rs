// Order statistics, significance levels and critical values of Student's t
// distribution, and the layout of text boxplots. Sample values enter as
// order-preserving integer keys (see `key`), so that all of this is exact.

pub mod error;
pub mod key;
pub mod plot;
pub mod summary;

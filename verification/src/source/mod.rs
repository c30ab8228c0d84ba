pub mod dem;
pub mod topo;
pub mod traits;

pub use dem::{DemSourceError, UsgsSource};
pub use traits::{Location, SourceError};

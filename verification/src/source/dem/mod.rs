pub mod traits;
pub mod usgs;

pub use traits::DemSourceError;
pub use usgs::UsgsSource;

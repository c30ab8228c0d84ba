pub mod usgs;

pub use usgs::{MetadataAction, UsgsTopoMapSource, ZipEntryError};

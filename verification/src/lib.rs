//! Line-of-sight terrain analysis: the data model, the decisions and the
//! integer raster arithmetic behind elevation lookup, viewshed rendering and
//! map highlighting.

pub mod cli;
pub mod grid;
pub mod raster;
pub mod reader;
pub mod service;
pub mod source;
pub mod text;

pub use reader::{DemReaderError, GdalReader, GeoTiffReader};
pub use source::{Location, UsgsSource};

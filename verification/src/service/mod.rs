pub mod elevation;
pub mod highlighter;
pub mod los;

pub use elevation::ElevationServiceError;
pub use highlighter::HighlighterService;

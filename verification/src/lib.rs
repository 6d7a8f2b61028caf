//! A verified reader for WebPlotDigitizer project files.
//!
//! The library resolves a project source — either a bare JSON document or a
//! tar archive whose `info.json` manifest names the member holding the real
//! document — into a typed `Wpd` model, and converts each dataset into an
//! ordered vector of samples with a well-defined lexicographic ordering.
//!
//! Floating-point coordinates are carried as their IEEE-754 bit patterns
//! (`u64`), so that ordering and equality are stated and proved over plain
//! integers; callers convert at the boundary.

pub mod archive;
pub mod convert;
pub mod json;
pub mod model;
pub mod schema;

pub use convert::DataVector;
pub use convert::Sample;
pub use model::Axes;
pub use model::CalibrationPoint;
pub use model::DataPoint;
pub use model::DataSet;
pub use model::FormatError;
pub use model::Info;
pub use model::ResolutionError;
pub use model::Wpd;
pub use model::WpdError;

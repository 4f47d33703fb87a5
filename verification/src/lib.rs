//! Record scalar values at call sites and compose line charts from them.
//!
//! A call site hands the registry its location, the names of its series, its
//! options and one sample for each series. The registry keeps one record for
//! each call site; a record bounds each series by the configured window and
//! counts its insertions. A record that is shown live hands back a chart
//! after every insertion; the charts of all others are handed out once, when
//! the registry is torn down.
//!
//! Values are binary64 numbers held as their bit patterns: the library stores
//! and orders them and leaves all arithmetic on them to the renderer.

pub mod chart;
pub mod location;
pub mod options;
pub mod plot;
pub mod registry;
pub mod series;
pub mod text;
pub mod value;
pub mod wrapper;

pub use crate::chart::{Chart, FileRender, HslColor, Series};
pub use crate::location::Location;
pub use crate::options::Options;
pub use crate::plot::Plot;
pub use crate::registry::Plots;
pub use crate::series::Axis;
pub use crate::value::PlotType;
pub use crate::wrapper::{LiveWindow, PlotWrapper, Sample};

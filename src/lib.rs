//! Fixed-step integration of a first-order equation `y' = f(x, y)`:
//! parameter intake, the sampling schedule of each stepper, and the
//! tabular report.

pub mod formula;
pub mod params;
pub mod report;
pub mod stepper;
pub mod theme;

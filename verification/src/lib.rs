//! Chart geometry for a recorded run of one process: axis scales, point
//! series, the title, and the description of a two-series line chart with a
//! CPU axis on the left and a memory axis on the right.
pub mod sample;
pub mod config;
pub mod scale;
pub mod series;
pub mod title;
pub mod palette;
pub mod error;
pub mod chart;

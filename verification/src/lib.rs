//! Intraday stock quotes: reading a quote provider's response into a priced
//! time series, tracking its price range, and the state of the symbol editor
//! that drives the chart.
//!
//! Prices are held as IEEE 754 binary32 bit patterns, so that every value a
//! response can carry is stored exactly and compared by integer arithmetic.

pub mod binary32;
pub mod chart;
pub mod error;
pub mod json;
pub mod request;
pub mod response;
pub mod state;
pub mod stock;

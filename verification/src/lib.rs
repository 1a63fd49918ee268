//! Client-side logic for the Japan Meteorological Agency (JMA) public
//! weather-data resources: the administrative area hierarchy, AMeDAS
//! observation stations and readings, per-office temperature forecasts,
//! and the forecast-area cross-reference table.
//!
//! Fetching the underlying JSON documents is left to the caller; this
//! crate holds the lookup, search, traversal and selection logic over
//! already-fetched data, with verified contracts.

pub mod amedas;
pub mod area;
pub mod forecast;
pub mod forecast_area;
pub mod text;

//! Takeoff and landing performance of the Aquila light aircraft, read from the
//! handbook's charts by chained interpolation.
//!
//! A reading passes four stages: temperature and pressure altitude, mass, wind,
//! and the obstacle correction with the distance scales. Both charts share one
//! pipeline, parameterised by `calibration::Chart`.
//!
//! All quantities are fixed point: whole numbers of millionths of their unit
//! (°C, ft, kg, kt, chart units and metres). Every division rounds down, and the
//! contracts state each stage exactly over the integers.

pub mod calibration;
pub mod flight_time;
pub mod form;
pub mod fuel;
pub mod interp;
pub mod pipeline;
pub mod stages;

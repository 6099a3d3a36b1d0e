//! Client-side core of a Bluetooth Low Energy (BLE) central adapter.
//!
//! The crate verifies the decision logic of a BLE discovery and
//! characteristic-access pipeline: projecting adapter events into peripheral
//! lookups, projecting property fetches into a stream of property records,
//! locating a peripheral by advertised-name containment, and gating
//! characteristic reads, writes and notification subscriptions on the
//! characteristic's advertised property flags.
//!
//! The radio itself, and every suspension point that talks to the platform
//! stack, lives outside this crate; the functions here take the outcome of a
//! platform call as a plain value and decide what the pipeline does next.

pub mod discovery;
pub mod errors;
pub mod gatt;
pub mod locator;
pub mod ops;

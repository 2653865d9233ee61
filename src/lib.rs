//! Connectivity and event orchestration for a terminal monitor of Bitcoin
//! and Lightning nodes.
pub mod app;
pub mod bitcoin;
pub mod bitcoin_core;
pub mod config;
pub mod core_lightning;
pub mod fees;
pub mod lnd;
pub mod maintenance;
pub mod node;
pub mod price;
pub mod price_strategy;
pub mod rotator;
pub mod supervisor;
pub mod text;
pub mod update;
pub mod widgets;

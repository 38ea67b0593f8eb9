//! QRForge: screen QR scanning policy, settings and result handling.
pub mod capture;
pub mod decoder;
pub mod desktop;
pub mod detection;
pub mod diagnostics;
pub mod display;
pub mod hotkey;
pub mod hotkey_registration;
pub mod monitor;
pub mod payload;
pub mod ports;
pub mod results;
pub mod scan;
pub mod settings;
pub mod settings_service;
pub mod settings_state;
pub mod storage;
pub mod text;

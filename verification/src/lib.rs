//! The decision logic of an LLC-aware process placement controller and of its
//! tray, settings and monitor programs.
//!
//! Everything here works on plain values. The programs around it observe the
//! machine, read and write files and talk to the service manager; they hand
//! what they saw to this library and carry out what it answers.
pub mod background;
pub mod cleanup;
pub mod controller;
pub mod decision_log;
pub mod diagnostics;
pub mod editor;
pub mod efficiency;
pub mod event_logger;
pub mod icon;
pub mod interactive;
pub mod journal;
pub mod language;
pub mod monitor;
pub mod observations;
pub mod observed;
pub mod panel;
pub mod placement;
pub mod policy;
pub mod process;
pub mod process_rows;
pub mod protection;
pub mod provision;
pub mod ranking;
pub mod recovery;
pub mod reload;
pub mod responsiveness_log;
pub mod rules;
pub mod sc_output;
pub mod schedule;
pub mod settings_config;
pub mod settings_files;
pub mod settings_panels;
pub mod settings_texts;
pub mod settings_window;
pub mod status_publisher;
pub mod telemetry;
pub mod template;
pub mod text;
pub mod tray;
pub mod turn;

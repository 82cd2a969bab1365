//! Verified presentation and parsing logic of the clash-tui terminal client.
pub mod strs;
pub mod order;
pub mod text;
pub mod redaction;
pub mod models;
pub mod labels;
pub mod selection;
pub mod input;
pub mod keys;
pub mod state;
pub mod proxy_select;
pub mod navigation;
pub mod refresh_state;
pub mod panes;
pub mod interaction;
pub mod commands;
pub mod dispatch;
pub mod events;
pub mod layout;
pub mod logs;
pub mod jobs;
pub mod profiles;
pub mod frame;
pub mod provider_dialog;
pub mod dashboard;
pub mod settings;
pub mod controller;
pub mod auto_refresh;
pub mod runtime;
pub mod diagnose;
pub mod details;
pub mod licenses;
pub mod package;
pub mod package_verify;
pub mod xtask_args;
pub mod xtask;
pub mod outcomes;
pub mod panels;
pub mod modal;
pub mod popups;
pub mod readiness;
pub mod manifest;
pub mod validation;
pub mod pages;

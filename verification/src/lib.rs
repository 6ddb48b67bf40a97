//! Verified core of the Wingbird command-line client: the request shapes,
//! response handling, architecture selection and patch assembly that drive
//! releases and binary patches of Flutter Android applications.

pub mod api;
pub mod archive;
pub mod cli;
pub mod config;
pub mod delta;
pub mod dto;
pub mod hashing;
pub mod init;
pub mod login;
pub mod patch;
pub mod release;
pub mod storage;
pub mod text;
pub mod ui;
pub mod upload;
pub mod utils;
pub mod web;

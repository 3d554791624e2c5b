//! Verified core of a photo renaming tool that keeps image files and their
//! Nikon sidecar files in step, driven through an SQLite command service.

pub mod text;
pub mod protocol;
pub mod db;
pub mod roundtrip;
pub mod exiftool;
pub mod records;
pub mod import;
pub mod rename;
pub mod ui;
pub mod patterns;
pub mod ingest;
pub mod settings;
pub mod reading;
pub mod sqlite;
pub mod service;
pub mod dialogs;

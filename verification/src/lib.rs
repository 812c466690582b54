//! The decisions behind the windows of a CAD application: which command runs, what an edit
//! changes, what undo takes back, which file is read or written, and what the user is told.
//!
//! Drawing, files, threads and floating-point geometry are not here; they call in with plain
//! values and act on what comes back.
pub mod app;
pub mod arch;
pub mod browse;
pub mod builders;
pub mod calc;
pub mod clipboard;
pub mod commands;
pub mod config;
pub mod copying;
pub mod course;
pub mod daylight;
pub mod dialog;
pub mod direct;
pub mod doc;
pub mod edits;
pub mod factory;
pub mod fields;
pub mod files;
pub mod fixtures;
pub mod furnish;
pub mod grid;
pub mod groups;
pub mod inspect;
pub mod lengths;
pub mod light;
pub mod loading;
pub mod mapsets;
pub mod materials;
pub mod nodes;
pub mod palette;
pub mod paths;
pub mod picker;
pub mod pictures;
pub mod planes;
pub mod plans;
pub mod preview;
pub mod project;
pub mod props;
pub mod recorder;
pub mod renders;
pub mod report;
pub mod reporting;
pub mod roundtrip;
pub mod rows;
pub mod saving;
pub mod shading;
pub mod single;
pub mod solids;
pub mod sorting;
pub mod stairs;
pub mod start;
pub mod table;
pub mod text;
pub mod textmap;
pub mod undo;
pub mod units;

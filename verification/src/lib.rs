//! Verified core of a terminal front-end for GNU Screen.
use vstd::prelude::*;

pub mod app;
pub mod arguments;
pub mod cli;
pub mod cli_laws;
pub mod config;
pub mod doctor;
pub mod doctor_laws;
pub mod i18n;
pub mod screen;
pub mod text;
pub mod text_laws;
pub mod ui;
pub mod util;

verus! {

} // verus!

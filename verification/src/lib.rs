//! Recording live streams of Bilibili: the decisions, without the work.
//!
//! What takes several steps outside is a value that names the next step; see [`exit`], [`start`],
//! [`monitor`], [`remux`], [`recorder::launch`] and [`parser::room`].

pub mod clock;
pub mod commands;
pub mod exit;
pub mod json;
pub mod model;
pub mod monitor;
pub mod number;
pub mod parser;
pub mod paths;
pub mod plan;
pub mod policy;
pub mod recorder;
pub mod remux;
pub mod schedule;
pub mod start;
pub mod text;

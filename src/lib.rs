//! A dual-pane collapsible outline navigator: paragraph segmentation, an outline
//! with per-paragraph collapse flags, a two-pane focus state machine, a scroll
//! calculator and an input dispatcher, all specified and verified with Verus.

pub mod config;
pub mod dispatch;
pub mod focus;
pub mod outline;
pub mod scroll;
pub mod segment;
pub mod style;
pub mod text;
pub mod tree_keys;
pub mod viewer;

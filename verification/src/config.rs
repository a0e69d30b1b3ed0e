//! Settings of a run.

pub mod args_conf;

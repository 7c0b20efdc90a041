//! Display configuration for a dependency tree report on unsafe code:
//! output formats, node templates, flag resolution and status colouring.

pub mod output_format;
pub mod pattern;
pub mod print_config;
pub mod colorize;

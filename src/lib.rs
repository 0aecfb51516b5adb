//! Conversion between text and null-terminated UTF-16 buffers for native
//! wide-character interfaces, with a small-string-optimised container, an
//! append-only builder, a buffer pool and command-line argument quoting;
//! plus the value types and decisions of the surrounding system interfaces
//! (console colors, registry values, file-open options, process command
//! lines and environment blocks, timers).
pub mod builder;
pub mod console;
pub mod controls;
pub mod env;
pub mod error;
pub mod fs;
pub mod module;
pub mod pool;
pub mod process;
pub mod registry;
pub mod string;
pub mod sysinfo;
pub mod time;
pub mod webview;
pub mod wide_string;
pub mod xaml;

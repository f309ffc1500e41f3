//! Verified core of a small command-line wrapper around the Slang shader
//! compiler: how a compile request becomes an argument list, how the
//! compiler's exit status becomes a result, and how the build step picks and
//! unpacks the right release archive for a target platform.

pub mod text;
pub mod stage;
pub mod platform;
pub mod release;
pub mod compile;
pub mod install;

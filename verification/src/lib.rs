//! A build-time helper that plans the configuration and invocation of
//! a native CMake build and locates its output.
//!
//! The crate is a pure core: a [`Config`] accumulates build options
//! (generator, profile, definitions, compiler flags), and its terminal
//! operation turns them, together with a [`BuildEnv`] snapshot of the
//! calling build process's environment, into a [`BuildPlan`] — the two
//! command lines, the child-process environment block, and the output
//! directories, all fully determined by contract.  A [`Runner`] then
//! decides, step by observed step, how the two planned invocations are
//! sequenced: the build step is issued only after a successful
//! configure step.  Nothing here reads the environment or spawns a
//! process; the caller takes the snapshot, performs each invocation,
//! and hands the outcome back.

pub mod config;
pub mod paths;
pub mod runner;
pub mod target_map;

pub use config::BuildEnv;
pub use config::BuildEnvView;
pub use config::BuildError;
pub use config::BuildPlan;
pub use config::Config;
pub use config::ConfigView;
pub use runner::Outcome;
pub use runner::Phase;
pub use runner::Runner;

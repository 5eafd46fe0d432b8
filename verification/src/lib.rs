//! Verified core of `carrier`, a command-line front end for the Xenon
//! language toolchain.
//!
//! The crate holds the logic of the tool: the project configuration file
//! format (rendering and strict parsing, with a proved round trip), the
//! source-file discovery and merge rules, and the planning of each
//! subcommand (which executable to invoke, with which arguments, or that
//! nothing is to be done). File-system access and process spawning are
//! left to the thin unverified front end that drives this library.

pub mod collector;
pub mod config;
pub mod error;
pub mod router;

pub use collector::FileModel;
pub use collector::SourceFile;
pub use collector::has_xn_extension;
pub use collector::merge_files;
pub use collector::select_xn_files;
pub use config::ConfigModel;
pub use config::XnConfig;
pub use config::config_entry_line;
pub use config::config_get;
pub use config::config_set;
pub use config::parse_config;
pub use config::render_config;
pub use error::XnError;
pub use router::BuildInput;
pub use router::Commands;
pub use router::InitPlan;
pub use router::RunPlan;
pub use router::compiler_args;
pub use router::exit_outcome;
pub use router::plan_init;
pub use router::plan_run;
pub use router::resolve_build_input;
pub use router::run_needs_gather;
pub use router::vm_args;

//! The decisions behind `vp doc` and its neighbours: data-only provider
//! definitions, manifest detection, provider selection and the tool
//! invocation of each action; target elicitation for bare app commands at a workspace
//! root; the framework guard of `vp dev`/`vp build`; the resolution of
//! synthesizable subcommands to a program, arguments and cache policy; and
//! the package-manager policy of package-manager commands. File-system and
//! workspace reads, process execution, package installation and printing
//! stay with the caller, which hands the library what it observed.

pub mod cli;
pub mod config;
pub mod detect;
pub mod dispatch;
pub mod elicit;
pub mod error;
pub mod framework;
pub mod info;
pub mod init;
pub mod json;
pub mod laws;
pub mod milestone;
pub mod order;
pub mod providers;
pub mod resolve;
pub mod resolver;
pub mod semver;
pub mod target;
pub mod text;

pub use cli::{DocAction, DocInvocation, DocRequest, parse_doc_args};
pub use error::Error;
pub use config::{DocConfig, DocConfigContext, StaticDocConfig};
pub use detect::detect_providers_by;
pub use info::{DocInfoReport, DocInfoResolved, info_report};
pub use init::{DocConfigWrite, DocInitOutcome, ScaffoldedFile};
pub use providers::{
    NativeConfigCheck, ProviderDefinition, ProviderInit, ProviderTarget, StarterFile,
    init_providers,
};
pub use resolve::{
    DocExecution, DocResolution, ProviderSelection, SelectionSource, resolve, select_provider,
    validate_native_config,
};

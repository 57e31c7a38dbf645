//! The `doc` block of the selected `vite.config.*`.

use vstd::prelude::*;

verus! {

/// The `doc` configuration block. The workspace-root package pointer is not
/// a `doc` key; it is the `doc` entry of `defaultPackage`, applied by the
/// caller as an implicit `-C` before this library runs.
#[derive(Debug)]
pub struct DocConfig {
    /// Selects the provider ahead of dependency detection.
    pub provider: Option<String>,
}

impl Default for DocConfig {
    fn default() -> (config: Self)
        ensures
            config.provider is None,
    {
        DocConfig { provider: None }
    }
}

/// A `doc` configuration together with the directory that contains the
/// selected config file.
#[derive(Debug)]
pub struct DocConfigContext {
    pub config: DocConfig,
    pub config_dir: std::path::PathBuf,
}

/// The `doc.provider` text of an optional context.
pub open spec fn configured_provider(context: Option<&DocConfigContext>) -> Option<Seq<char>> {
    match context {
        Some(c) => match c.config.provider {
            Some(p) => Some(p@),
            None => None,
        },
        None => None,
    }
}

/// The static extraction of the `doc` field.
#[derive(Debug)]
pub enum StaticDocConfig {
    /// No `vite.config.*` exists from the start directory upward.
    Missing,
    /// The config file was analyzed; `doc` is this value (default when the
    /// field is absent).
    Resolved(DocConfigContext),
    /// The `doc` field is not statically analyzable; the caller loads the
    /// config through the JavaScript resolver.
    NonStatic { config_dir: std::path::PathBuf },
}

/// What loading the `doc` context of an invocation directory does next.
#[derive(Debug)]
pub enum DocContextStep {
    /// The context is known: resolved statically, absent, or left to
    /// dependency detection.
    Ready(Option<DocConfigContext>),
    /// Resolve the config in this directory through the JavaScript config
    /// resolver, then parse its `doc` field.
    ResolveWithJs(std::path::PathBuf),
}

/// Static extraction first; a non-static `doc` field goes through the
/// JavaScript config resolver, and without one falls back to dependency
/// detection.
pub open spec fn doc_context_outcome(config: StaticDocConfig, has_js_resolver: bool) -> DocContextStep {
    match config {
        StaticDocConfig::Missing => DocContextStep::Ready(None),
        StaticDocConfig::Resolved(context) => DocContextStep::Ready(Some(context)),
        StaticDocConfig::NonStatic { config_dir } => if has_js_resolver {
            DocContextStep::ResolveWithJs(config_dir)
        } else {
            DocContextStep::Ready(None)
        },
    }
}

/// The next step of loading the `doc` context from its static extraction.
pub fn doc_context_step(config: StaticDocConfig, has_js_resolver: bool) -> (r: DocContextStep)
    ensures
        r == doc_context_outcome(config, has_js_resolver),
{
    match config {
        StaticDocConfig::Missing => DocContextStep::Ready(None),
        StaticDocConfig::Resolved(context) => DocContextStep::Ready(Some(context)),
        StaticDocConfig::NonStatic { config_dir } => {
            if has_js_resolver {
                DocContextStep::ResolveWithJs(config_dir)
            } else {
                DocContextStep::Ready(None)
            }
        },
    }
}

} // verus!

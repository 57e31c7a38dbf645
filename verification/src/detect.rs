//! Provider detection over the declared dependencies of a package manifest,
//! and the installed-package records that resolution reads.

use vstd::prelude::*;
use vstd::string::*;

use crate::error::{Error, user_err, user_message};
use crate::json::{JsonValue, json_from_str, parse_json};
use crate::providers::{
    PROVIDER_COUNT, ProviderDefinition, ProviderView, builtin_provider, builtin_providers,
    provider_views,
};

verus! {

#[verifier::external_type_specification]
#[verifier::external_body]
pub struct ExPathBuf(std::path::PathBuf);

/// The manifest names `marker` in `dependencies` or `devDependencies`.
/// `peerDependencies` is deliberately excluded: a theme or plugin package
/// peers on its tool without being a documentation site.
pub open spec fn detected_marker(manifest: JsonValue, marker: Seq<char>) -> bool {
    ||| manifest.spec_field_has_key("dependencies"@, marker)
    ||| manifest.spec_field_has_key("devDependencies"@, marker)
}

/// The manifest names `marker` in any dependency field, peers included.
pub open spec fn declared_any_field(manifest: JsonValue, marker: Seq<char>) -> bool {
    ||| manifest.spec_field_has_key("dependencies"@, marker)
    ||| manifest.spec_field_has_key("devDependencies"@, marker)
    ||| manifest.spec_field_has_key("peerDependencies"@, marker)
    ||| manifest.spec_field_has_key("optionalDependencies"@, marker)
}

/// The elements of `ps` whose flag in `keep` is set, in order.
pub open spec fn select_by<T>(ps: Seq<T>, keep: Seq<bool>) -> Seq<T>
    decreases ps.len(),
{
    if ps.len() == 0 {
        Seq::empty()
    } else {
        let rest = select_by(ps.drop_last(), keep);
        if keep[ps.len() - 1] {
            rest.push(ps.last())
        } else {
            rest
        }
    }
}

/// The flags of the built-in providers whose marker the manifest declares
/// in a detection field.
pub open spec fn detection_flags(manifest: JsonValue) -> Seq<bool> {
    Seq::new(
        PROVIDER_COUNT as nat,
        |i: int| detected_marker(manifest, builtin_providers()[i].marker),
    )
}

/// The built-in providers detected from a manifest, in definition order.
pub open spec fn detected_providers(manifest: JsonValue) -> Seq<ProviderView> {
    select_by(builtin_providers(), detection_flags(manifest))
}

/// True when the manifest declares the marker in any dependency field,
/// `peerDependencies` included. Explicit `doc.provider` selection accepts
/// every field, while detection alone stays on the two dependency fields.
pub fn marker_declared_any_field(manifest: &JsonValue, marker: &str) -> (r: bool)
    ensures
        r == declared_any_field(*manifest, marker@),
{
    manifest.field_has_key("dependencies", marker) || manifest.field_has_key(
        "devDependencies",
        marker,
    ) || manifest.field_has_key("peerDependencies", marker) || manifest.field_has_key(
        "optionalDependencies",
        marker,
    )
}

/// The built-in providers whose flag is set.
fn select_providers(keep: &Vec<bool>) -> (ps: Vec<ProviderDefinition>)
    requires
        keep@.len() == PROVIDER_COUNT,
    ensures
        provider_views(ps@) == select_by(builtin_providers(), keep@),
{
    let mut ps: Vec<ProviderDefinition> = Vec::new();
    let mut i: usize = 0;
    while i < PROVIDER_COUNT
        invariant
            i <= PROVIDER_COUNT,
            keep@.len() == PROVIDER_COUNT,
            provider_views(ps@) == select_by(builtin_providers().take(i as int), keep@),
        decreases PROVIDER_COUNT - i,
    {
        proof {
            assert(builtin_providers().take(i + 1).drop_last() =~= builtin_providers().take(
                i as int,
            ));
        }
        if keep[i] {
            let ghost prev = ps@;
            ps.push(builtin_provider(i));
            proof {
                assert(provider_views(ps@) =~= provider_views(prev).push(
                    builtin_providers()[i as int],
                ));
            }
        }
        i += 1;
    }
    proof {
        assert(builtin_providers().take(PROVIDER_COUNT as int) =~= builtin_providers());
    }
    ps
}

/// Some string with this text makes `declares` answer `answer`.
pub open spec fn answers<F: Fn(&str) -> bool>(declares: F, marker: Seq<char>, answer: bool) -> bool {
    exists|s: &str| s@ == marker && call_ensures(declares, (s,), answer)
}

/// Providers whose marker satisfies the given declared-dependency check.
/// Callers that already hold parsed dependency maps pass a lookup over
/// them, so detection never re-reads a manifest another layer parsed.
pub fn detect_providers_by<F: Fn(&str) -> bool>(declares: F) -> (ps: Vec<ProviderDefinition>)
    requires
        forall|s: &str| call_requires(declares, (s,)),
    ensures
        exists|keep: Seq<bool>|
            {
                &&& keep.len() == PROVIDER_COUNT
                &&& forall|i: int|
                    0 <= i < PROVIDER_COUNT ==> answers(
                        declares,
                        builtin_providers()[i].marker,
                        #[trigger] keep[i],
                    )
                &&& provider_views(ps@) == select_by(builtin_providers(), keep)
            },
{
    let mut keep: Vec<bool> = Vec::new();
    let mut i: usize = 0;
    while i < PROVIDER_COUNT
        invariant
            i <= PROVIDER_COUNT,
            keep@.len() == i,
            forall|s: &str| call_requires(declares, (s,)),
            forall|j: int|
                0 <= j < i ==> answers(declares, builtin_providers()[j].marker, #[trigger] keep@[j]),
        decreases PROVIDER_COUNT - i,
    {
        let provider = builtin_provider(i);
        let answer = declares(provider.marker);
        proof {
            assert(provider.marker@ == builtin_providers()[i as int].marker);
        }
        keep.push(answer);
        proof {
            assert(keep@[i as int] == answer);
            assert(answers(declares, builtin_providers()[i as int].marker, keep@[i as int]));
        }
        i += 1;
    }
    select_providers(&keep)
}

/// Providers whose marker appears in the manifest's `dependencies` or
/// `devDependencies`. Detection never selects a provider because a
/// transitive package happens to resolve from `node_modules`.
pub fn detect_providers(manifest: &JsonValue) -> (ps: Vec<ProviderDefinition>)
    ensures
        provider_views(ps@) == detected_providers(*manifest),
{
    let mut keep: Vec<bool> = Vec::new();
    let mut i: usize = 0;
    while i < PROVIDER_COUNT
        invariant
            i <= PROVIDER_COUNT,
            keep@ == detection_flags(*manifest).take(i as int),
        decreases PROVIDER_COUNT - i,
    {
        let provider = builtin_provider(i);
        let found = manifest.field_has_key("dependencies", provider.marker)
            || manifest.field_has_key("devDependencies", provider.marker);
        keep.push(found);
        i += 1;
        proof {
            assert(keep@ =~= detection_flags(*manifest).take(i as int));
        }
    }
    proof {
        assert(keep@ =~= detection_flags(*manifest));
    }
    select_providers(&keep)
}

/// An installed package located through the `node_modules` layout.
#[derive(Debug)]
pub struct InstalledPackage {
    pub root: std::path::PathBuf,
    pub package_json: JsonValue,
}

/// The `version` string of an installed manifest.
pub open spec fn manifest_version(manifest: JsonValue) -> Option<Seq<char>> {
    match manifest.spec_get("version"@) {
        Some(v) => v.spec_as_str(),
        None => None,
    }
}

impl InstalledPackage {
    pub fn version(&self) -> (r: Option<&str>)
        ensures
            match r {
                Some(v) => manifest_version(self.package_json) == Some(v@),
                None => manifest_version(self.package_json) is None,
            },
    {
        match self.package_json.get("version") {
            Some(v) => v.as_str(),
            None => None,
        }
    }
}

pub open spec fn cannot_parse_message(path: Seq<char>, error: Seq<char>) -> Seq<char> {
    "cannot parse "@ + path + ": "@ + error
}

/// What [`parse_manifest`] yields for a manifest at `path` with `contents`.
pub open spec fn manifest_outcome(path: Seq<char>, contents: Seq<char>) -> Result<
    JsonValue,
    Option<Seq<char>>,
> {
    match json_from_str(contents) {
        Ok(v) => Ok(v),
        Err(e) => user_err(cannot_parse_message(path, e)),
    }
}

/// Parse a manifest read from `path` (displayed in the diagnostic). A
/// manifest that cannot be parsed is an error naming the path: repository
/// corruption must not convert into the no-provider flow.
pub fn parse_manifest(path: &str, contents: &str) -> (r: Result<JsonValue, Error>)
    ensures
        match (r, manifest_outcome(path@, contents@)) {
            (Ok(v), Ok(w)) => v == w,
            (Err(e), Err(m)) => e.user_text() == m,
            _ => false,
        },
{
    match parse_json(contents) {
        Ok(v) => Ok(v),
        Err(e) => {
            let mut message = String::from_str("cannot parse ");
            message.append(path);
            message.append(": ");
            message.append(e.as_str());
            Err(user_message(message))
        },
    }
}

} // verus!

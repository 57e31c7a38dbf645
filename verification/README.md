# vp_doc_cli

The decision logic of `vp doc` and the commands around it, verified with
Verus: provider selection and tool invocation for documentation tools,
`vp doc init` and `vp doc info`, target elicitation for bare app commands at
a workspace root, the Nuxt/Astro framework guard, the resolution of
synthesizable subcommands, and the package-manager policy of
package-manager commands.

- `src/` is the verified library. Each operation takes what the caller
  observed on disk or in the workspace as plain values and returns what to
  do; its contract states the result exactly. `src/laws.rs` states the
  properties that span operations (argument forwarding, selection order,
  cache policy, the listing order, what init never overwrites).
- `tests/` runs the library on concrete values.
- `app/` is the unverified process side: file-system and workspace lookups,
  the JavaScript config resolver, pickers, printing, environment merging
  and process dispatch.

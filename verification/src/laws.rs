//! The precedence contracts of the resolver, stated on their own and
//! proved from the spec functions the resolvers' contracts use.

use vstd::prelude::*;

use crate::paths::{join_path, parent_path};
use crate::resolver::{
    config_from_root, location_resolves, resolved_arguments, resolved_command,
    resolved_environment, resolved_interpreter, resolved_location, script_from_root,
    CommandView, ErrorView, Os,
};
use crate::settings::SettingsView;

verus! {

/// An explicit `binary.path` is the resolved interpreter, whatever the
/// PATH search would have returned: the probe result does not enter the
/// outcome.
pub proof fn lemma_binary_override_wins(s: SettingsView, which_deno: Option<Seq<char>>)
    requires
        s.binary_path is Some,
    ensures
        resolved_interpreter(s, which_deno) == s.binary_path,
{
}

/// Without a `binary.path` override, a PATH search that comes up empty
/// fails the whole resolution with `BinaryNotFound` carrying the language
/// server id.
pub proof fn lemma_missing_binary_fails(
    s: SettingsView,
    language_server_id: Seq<char>,
    env_root: Option<Seq<char>>,
    project_root: Seq<char>,
    script_found: bool,
    platform: Os,
    shell_env: Seq<(Seq<char>, Seq<char>)>,
)
    requires
        s.binary_path is None,
    ensures
        resolved_command(
            s,
            language_server_id,
            None,
            env_root,
            project_root,
            script_found,
            platform,
            shell_env,
        ) == Err::<CommandView, ErrorView>(
            ErrorView::BinaryNotFound { language_server_id },
        ),
{
}

/// With an explicit `serverPath` and no `denoConfig`, the script is used
/// as given and the configuration file is the script's grandparent
/// directory joined with `deno.json` — or the bare relative name
/// `deno.json` where the script has fewer than two parent directories.
pub proof fn lemma_config_beside_explicit_script(
    s: SettingsView,
    script: Seq<char>,
    env_root: Option<Seq<char>>,
    project_root: Seq<char>,
)
    requires
        s.server_path == Some(script),
        s.deno_config is None,
    ensures
        resolved_location(s, env_root, project_root).1 == script,
        ({
            let config = resolved_location(s, env_root, project_root).0;
            match parent_path(script) {
                Some(parent) => match parent_path(parent) {
                    Some(grandparent) => config == join_path(grandparent, "deno.json"@),
                    None => config == "deno.json"@,
                },
                None => config == "deno.json"@,
            }
        }),
{
}

/// With `serverRoot = R` and no `serverPath`, the resolved pair is the
/// fixed layout under `R`: for a non-empty root that does not end in a
/// separator, literally `R/lsp/server/deno.json` and
/// `R/lsp/server/src/server.ts`.
pub proof fn lemma_server_root_fixed_layout(
    s: SettingsView,
    root: Seq<char>,
    env_root: Option<Seq<char>>,
    project_root: Seq<char>,
)
    requires
        s.server_path is None,
        s.server_root == Some(root),
        root.len() > 0,
        root.last() != '/',
    ensures
        resolved_location(s, env_root, project_root).0 == root + "/lsp/server/deno.json"@,
        resolved_location(s, env_root, project_root).1 == root + "/lsp/server/src/server.ts"@,
{
    lemma_fixed_layout_concat(root);
}

/// Under a root without a trailing separator, the fixed-layout paths are
/// plain concatenations.
pub proof fn lemma_fixed_layout_concat(root: Seq<char>)
    requires
        root.len() > 0,
        root.last() != '/',
    ensures
        config_from_root(root) == root + "/lsp/server/deno.json"@,
        script_from_root(root) == root + "/lsp/server/src/server.ts"@,
{
    reveal_strlit("lsp");
    reveal_strlit("server");
    reveal_strlit("src");
    reveal_strlit("deno.json");
    reveal_strlit("server.ts");
    reveal_strlit("/lsp/server/deno.json");
    reveal_strlit("/lsp/server/src/server.ts");
    assert(config_from_root(root) =~= root + "/lsp/server/deno.json"@);
    assert(script_from_root(root) =~= root + "/lsp/server/src/server.ts"@);
}

/// The environment-variable root and the `serverRoot` setting are the
/// same derivation: with no location settings, a root from the
/// environment resolves exactly as that root given as `serverRoot` would
/// have, whatever the environment then held.
pub proof fn lemma_env_root_matches_settings_root(
    s: SettingsView,
    root: Seq<char>,
    env_root: Option<Seq<char>>,
    project_root: Seq<char>,
)
    requires
        s.server_path is None,
        s.server_root is None,
    ensures
        resolved_location(s, Some(root), project_root) == resolved_location(
            SettingsView { server_root: Some(root), ..s },
            env_root,
            project_root,
        ),
        location_resolves(s, Some(root), false),
        location_resolves(SettingsView { server_root: Some(root), ..s }, env_root, false),
{
}

/// With no location overrides at all, resolution succeeds exactly when
/// the conventional script was found in the project tree, and then
/// yields the fixed layout under the project root.
pub proof fn lemma_default_convention(s: SettingsView, project_root: Seq<char>, script_found: bool)
    requires
        s.server_path is None,
        s.server_root is None,
    ensures
        location_resolves(s, None, script_found) == script_found,
        script_found ==> resolved_location(s, None, project_root) == (
            config_from_root(project_root),
            script_from_root(project_root),
        ),
{
}

/// With no location overrides, an interpreter in hand and the
/// conventional script missing from the project tree, the whole
/// resolution fails with `ServerNotFound` naming the script path that
/// was probed.
pub proof fn lemma_default_convention_missing_script(
    s: SettingsView,
    language_server_id: Seq<char>,
    which_deno: Option<Seq<char>>,
    project_root: Seq<char>,
    platform: Os,
    shell_env: Seq<(Seq<char>, Seq<char>)>,
)
    requires
        s.server_path is None,
        s.server_root is None,
        resolved_interpreter(s, which_deno) is Some,
    ensures
        resolved_command(
            s,
            language_server_id,
            which_deno,
            None,
            project_root,
            false,
            platform,
            shell_env,
        ) == Err::<CommandView, ErrorView>(
            ErrorView::ServerNotFound { script_path: script_from_root(project_root) },
        ),
{
}

/// Explicit `binary.arguments` are the resolved argument vector verbatim,
/// whatever paths location resolution produced.
pub proof fn lemma_argument_override_wins(
    arguments: Seq<Seq<char>>,
    config: Seq<char>,
    script: Seq<char>,
)
    ensures
        resolved_arguments(Some(arguments), config, script) == arguments,
{
}

/// Absent `binary.arguments`, the resolved argument vector is
/// `run --allow-all --config <config> <script>`, in that order.
pub proof fn lemma_default_arguments(config: Seq<char>, script: Seq<char>)
    ensures
        resolved_arguments(None, config, script).len() == 5,
        resolved_arguments(None, config, script)[0] == "run"@,
        resolved_arguments(None, config, script)[1] == "--allow-all"@,
        resolved_arguments(None, config, script)[2] == "--config"@,
        resolved_arguments(None, config, script)[3] == config,
        resolved_arguments(None, config, script)[4] == script,
{
}

/// The resolved environment is empty on Windows whatever the shell
/// environment held, and is the project's shell environment on either
/// Unix-family platform.
pub proof fn lemma_environment_by_platform(shell_env: Seq<(Seq<char>, Seq<char>)>)
    ensures
        resolved_environment(Os::Windows, shell_env) == Seq::<(Seq<char>, Seq<char>)>::empty(),
        resolved_environment(Os::Mac, shell_env) == shell_env,
        resolved_environment(Os::Linux, shell_env) == shell_env,
{
}

} // verus!

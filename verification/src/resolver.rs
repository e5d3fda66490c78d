//! The command resolver: from the settings document, the environment
//! root, the filesystem probe results and the platform to the launch
//! command of the Workman language server.
//!
//! Precedence, per field:
//! - interpreter: `binary.path`, else the PATH search result, else a
//!   [`ResolveError::BinaryNotFound`] failure;
//! - location: `serverPath` (with `denoConfig`, else the configuration
//!   file derived beside the script), else the fixed layout under
//!   `serverRoot`, else under the environment root, else under the
//!   project root, where alone the script must have been found on disk;
//! - arguments: `binary.arguments` verbatim, else
//!   `run --allow-all --config <config> <script>`;
//! - environment: the project's shell environment on the Unix-family
//!   platforms, empty on Windows.

use vstd::prelude::*;
use vstd::string::StringExecFns;

use crate::paths::{join_path, join_path_exec, parent_path, parent_path_exec};
use crate::settings::{SettingsDoc, SettingsView};

verus! {

/// The platform the command will be spawned on.  The two Unix-family
/// variants behave identically; the remaining variant forgoes shell
/// environment inheritance.
#[derive(Clone, Copy, Debug, PartialEq, Eq, Structural)]
pub enum Os {
    Mac,
    Linux,
    Windows,
}

/// A fully resolved launch command.
pub struct Command {
    /// The interpreter to spawn.
    pub command: String,
    /// Its argument vector.
    pub args: Vec<String>,
    /// The environment of the spawned process.
    pub env: Vec<(String, String)>,
}

/// The mathematical reading of a [`Command`].
pub struct CommandView {
    pub command: Seq<char>,
    pub args: Seq<Seq<char>>,
    pub env: Seq<(Seq<char>, Seq<char>)>,
}

impl View for Command {
    type V = CommandView;

    open spec fn view(&self) -> CommandView {
        CommandView {
            command: self.command@,
            args: self.args.deep_view(),
            env: self.env.deep_view(),
        }
    }
}

/// A terminal resolution failure, surfaced to the host unchanged.
pub enum ResolveError {
    /// No interpreter override was given and the PATH search came up
    /// empty.
    BinaryNotFound { language_server_id: String },
    /// No location override was given and the conventional script is not
    /// in the project tree.
    ServerNotFound { script_path: String },
}

/// The mathematical reading of a [`ResolveError`].
pub enum ErrorView {
    BinaryNotFound { language_server_id: Seq<char> },
    ServerNotFound { script_path: Seq<char> },
}

impl View for ResolveError {
    type V = ErrorView;

    open spec fn view(&self) -> ErrorView {
        match self {
            ResolveError::BinaryNotFound { language_server_id } => ErrorView::BinaryNotFound {
                language_server_id: language_server_id@,
            },
            ResolveError::ServerNotFound { script_path } => ErrorView::ServerNotFound {
                script_path: script_path@,
            },
        }
    }
}

impl ResolveError {
    /// The message shown to the user for this failure.
    pub open spec fn spec_message(&self) -> Seq<char> {
        match self {
            ResolveError::BinaryNotFound { language_server_id } => language_server_id@
                + ": could not find deno on PATH"@,
            ResolveError::ServerNotFound { script_path } => "Workman LSP not found at "@
                + script_path@,
        }
    }

    /// Render the failure as its user-facing message.
    pub fn message(&self) -> (r: String)
        ensures
            r@ == self.spec_message(),
    {
        match self {
            ResolveError::BinaryNotFound { language_server_id } => {
                let mut m = language_server_id.clone();
                m.append(": could not find deno on PATH");
                m
            },
            ResolveError::ServerNotFound { script_path } => {
                let mut m = "Workman LSP not found at ".to_owned();
                m.append(script_path.as_str());
                m
            },
        }
    }
}

/// The interpreter the command will use: the `binary.path` override where
/// given, else whatever the PATH search returned.  `None` means failure.
pub open spec fn resolved_interpreter(s: SettingsView, which_deno: Option<Seq<char>>) -> Option<
    Seq<char>,
> {
    if s.binary_path is Some {
        s.binary_path
    } else {
        which_deno
    }
}

/// The configuration file derived beside an explicit script path: the
/// script's grandparent directory joined with `deno.json`, or the bare
/// relative name `deno.json` where the script has no grandparent.
pub open spec fn config_near_script(script: Seq<char>) -> Seq<char> {
    match parent_path(script) {
        Some(parent) => match parent_path(parent) {
            Some(grandparent) => join_path(grandparent, "deno.json"@),
            None => "deno.json"@,
        },
        None => "deno.json"@,
    }
}

/// The conventional configuration file under a server root:
/// `<root>/lsp/server/deno.json`.
pub open spec fn config_from_root(root: Seq<char>) -> Seq<char> {
    join_path(join_path(join_path(root, "lsp"@), "server"@), "deno.json"@)
}

/// The conventional entry script under a server root:
/// `<root>/lsp/server/src/server.ts`.
pub open spec fn script_from_root(root: Seq<char>) -> Seq<char> {
    join_path(join_path(join_path(join_path(root, "lsp"@), "server"@), "src"@), "server.ts"@)
}

/// Whether location resolution succeeds.  Every explicit override is
/// taken on trust; only the final, default branch requires the
/// conventional script to have been found in the project tree.
pub open spec fn location_resolves(
    s: SettingsView,
    env_root: Option<Seq<char>>,
    script_found: bool,
) -> bool {
    s.server_path is Some || s.server_root is Some || env_root is Some || script_found
}

/// The resolved `(configuration file, entry script)` pair, assuming
/// location resolution succeeds: the explicit script path first, then the
/// fixed layout under the settings root, the environment root and the
/// project root, in that order.
pub open spec fn resolved_location(
    s: SettingsView,
    env_root: Option<Seq<char>>,
    project_root: Seq<char>,
) -> (Seq<char>, Seq<char>) {
    match s.server_path {
        Some(script) => {
            let config = match s.deno_config {
                Some(config) => config,
                None => config_near_script(script),
            };
            (config, script)
        },
        None => match s.server_root {
            Some(root) => (config_from_root(root), script_from_root(root)),
            None => match env_root {
                Some(root) => (config_from_root(root), script_from_root(root)),
                None => (config_from_root(project_root), script_from_root(project_root)),
            },
        },
    }
}

/// The default argument vector:
/// `run --allow-all --config <config> <script>`.
pub open spec fn default_arguments(config: Seq<char>, script: Seq<char>) -> Seq<Seq<char>> {
    seq!["run"@, "--allow-all"@, "--config"@, config, script]
}

/// The resolved argument vector: `binary.arguments` verbatim where given,
/// else the default vector.
pub open spec fn resolved_arguments(
    arguments: Option<Seq<Seq<char>>>,
    config: Seq<char>,
    script: Seq<char>,
) -> Seq<Seq<char>> {
    match arguments {
        Some(a) => a,
        None => default_arguments(config, script),
    }
}

/// The resolved environment: empty on Windows, the project's shell
/// environment on the Unix-family platforms.
pub open spec fn resolved_environment(
    platform: Os,
    shell_env: Seq<(Seq<char>, Seq<char>)>,
) -> Seq<(Seq<char>, Seq<char>)> {
    match platform {
        Os::Windows => Seq::empty(),
        Os::Mac | Os::Linux => shell_env,
    }
}

/// The whole resolution, composed in order: interpreter, location,
/// arguments, environment, short-circuiting on the first failure.
pub open spec fn resolved_command(
    s: SettingsView,
    language_server_id: Seq<char>,
    which_deno: Option<Seq<char>>,
    env_root: Option<Seq<char>>,
    project_root: Seq<char>,
    script_found: bool,
    platform: Os,
    shell_env: Seq<(Seq<char>, Seq<char>)>,
) -> Result<CommandView, ErrorView> {
    match resolved_interpreter(s, which_deno) {
        None => Err(ErrorView::BinaryNotFound { language_server_id }),
        Some(interpreter) => if !location_resolves(s, env_root, script_found) {
            Err(ErrorView::ServerNotFound { script_path: script_from_root(project_root) })
        } else {
            let location = resolved_location(s, env_root, project_root);
            Ok(
                CommandView {
                    command: interpreter,
                    args: resolved_arguments(s.binary_arguments, location.0, location.1),
                    env: resolved_environment(platform, shell_env),
                },
            )
        },
    }
}

/// The resolver.  It holds no state: every call recomputes from the
/// inputs it is handed.
pub struct WorkmanExtension;

impl WorkmanExtension {
    /// A fresh resolver.
    pub fn new() -> WorkmanExtension {
        WorkmanExtension
    }

    /// Interpreter resolution: the `binary.path` override verbatim, else
    /// the PATH search result, else a `BinaryNotFound` failure naming the
    /// language server.
    pub fn resolve_deno_binary(
        &self,
        language_server_id: &str,
        doc: &SettingsDoc,
        which_deno: Option<String>,
    ) -> (r: Result<String, ResolveError>)
        ensures
            ({
                match resolved_interpreter(doc@, which_deno.deep_view()) {
                    Some(interpreter) => r matches Ok(b) && b@ == interpreter,
                    None => r matches Err(e) && e@ == (ErrorView::BinaryNotFound {
                        language_server_id: language_server_id@,
                    }),
                }
            }),
    {
        if let Some(binary) = &doc.binary {
            if let Some(path) = &binary.path {
                return Ok(path.clone());
            }
        }
        match which_deno {
            Some(found) => Ok(found),
            None => Err(
                ResolveError::BinaryNotFound { language_server_id: language_server_id.to_owned() },
            ),
        }
    }

    /// Whether interpreter resolution will consult the PATH search:
    /// exactly when no `binary.path` override is present.  The adapter
    /// asks this before performing the search, so that an explicit
    /// override skips the probe altogether.
    pub fn needs_path_search(&self, doc: &SettingsDoc) -> (r: bool)
        ensures
            r == (doc@.binary_path is None),
    {
        match &doc.binary {
            Some(binary) => binary.path.is_none(),
            None => true,
        }
    }

    /// Whether location resolution will probe the project tree for the
    /// conventional script: exactly when no location override is
    /// present, since only the default branch verifies existence.
    pub fn needs_script_probe(&self, doc: &SettingsDoc, env_root: &Option<String>) -> (r: bool)
        ensures
            r == (doc@.server_path is None && doc@.server_root is None
                && env_root.deep_view() is None),
    {
        if env_root.is_some() {
            return false;
        }
        match &doc.settings {
            Some(settings) => settings.server_path.is_none() && settings.server_root.is_none(),
            None => true,
        }
    }

    /// The configuration file derived beside an explicit script path.
    fn config_beside_script(&self, script: &str) -> (r: String)
        ensures
            r@ == config_near_script(script@),
    {
        match parent_path_exec(script) {
            Some(parent) => match parent_path_exec(parent.as_str()) {
                Some(grandparent) => join_path_exec(grandparent.as_str(), "deno.json"),
                None => "deno.json".to_owned(),
            },
            None => "deno.json".to_owned(),
        }
    }

    /// The conventional `(configuration file, entry script)` pair under a
    /// server root.
    pub fn paths_from_root(&self, root: &str) -> (r: (String, String))
        ensures
            r.0@ == config_from_root(root@),
            r.1@ == script_from_root(root@),
    {
        let server_dir = join_path_exec(join_path_exec(root, "lsp").as_str(), "server");
        let deno_config = join_path_exec(server_dir.as_str(), "deno.json");
        let server_path = join_path_exec(
            join_path_exec(server_dir.as_str(), "src").as_str(),
            "server.ts",
        );
        (deno_config, server_path)
    }

    /// The conventional pair under the project root itself, guarded by
    /// the one existence check of the whole resolution: a `script_found`
    /// of `false` is a `ServerNotFound` failure naming the script path
    /// that was probed.
    pub fn paths_from_worktree(&self, project_root: &str, script_found: bool) -> (r: Result<
        (String, String),
        ResolveError,
    >)
        ensures
            script_found ==> (r matches Ok(p) && p.0@ == config_from_root(project_root@)
                && p.1@ == script_from_root(project_root@)),
            !script_found ==> (r matches Err(e) && e@ == (ErrorView::ServerNotFound {
                script_path: script_from_root(project_root@),
            })),
    {
        let (deno_config, server_path) = self.paths_from_root(project_root);
        if !script_found {
            return Err(ResolveError::ServerNotFound { script_path: server_path });
        }
        Ok((deno_config, server_path))
    }

    /// Location resolution: the explicit script path (with its explicit
    /// or derived configuration file), else the fixed layout under the
    /// settings root, the environment root, or — verified against the
    /// project tree — the project root.
    pub fn resolve_server_paths(
        &self,
        doc: &SettingsDoc,
        env_root: &Option<String>,
        project_root: &str,
        script_found: bool,
    ) -> (r: Result<(String, String), ResolveError>)
        ensures
            location_resolves(doc@, env_root.deep_view(), script_found) ==> (r matches Ok(p)
                && p.0@ == resolved_location(doc@, env_root.deep_view(), project_root@).0
                && p.1@ == resolved_location(doc@, env_root.deep_view(), project_root@).1),
            !location_resolves(doc@, env_root.deep_view(), script_found) ==> (r matches Err(e)
                && e@ == (ErrorView::ServerNotFound {
                script_path: script_from_root(project_root@),
            })),
    {
        if let Some(settings) = &doc.settings {
            if let Some(server_path) = &settings.server_path {
                let deno_config = match &settings.deno_config {
                    Some(deno_config) => deno_config.clone(),
                    None => self.config_beside_script(server_path.as_str()),
                };
                return Ok((deno_config, server_path.clone()));
            }
            if let Some(server_root) = &settings.server_root {
                return Ok(self.paths_from_root(server_root.as_str()));
            }
        }
        if let Some(root) = env_root {
            return Ok(self.paths_from_root(root.as_str()));
        }
        self.paths_from_worktree(project_root, script_found)
    }

    /// Argument resolution: the `binary.arguments` override verbatim,
    /// else the default vector around the resolved paths.
    pub fn resolve_arguments(
        &self,
        arguments: Option<Vec<String>>,
        deno_config: String,
        server_path: String,
    ) -> (r: Vec<String>)
        ensures
            r.deep_view() == resolved_arguments(
                arguments.deep_view(),
                deno_config@,
                server_path@,
            ),
    {
        match arguments {
            Some(a) => a,
            None => {
                let mut args: Vec<String> = Vec::new();
                args.push("run".to_owned());
                args.push("--allow-all".to_owned());
                args.push("--config".to_owned());
                args.push(deno_config);
                args.push(server_path);
                proof {
                    assert(args.deep_view() =~= default_arguments(deno_config@, server_path@));
                }
                args
            },
        }
    }

    /// Environment resolution: empty on Windows, the project's shell
    /// environment on the Unix-family platforms.
    pub fn resolve_environment(&self, platform: Os, shell_env: Vec<(String, String)>) -> (r: Vec<
        (String, String),
    >)
        ensures
            r.deep_view() == resolved_environment(platform, shell_env.deep_view()),
    {
        match platform {
            Os::Mac | Os::Linux => shell_env,
            Os::Windows => {
                let empty: Vec<(String, String)> = Vec::new();
                proof {
                    assert(empty.deep_view() =~= Seq::<(Seq<char>, Seq<char>)>::empty());
                }
                empty
            },
        }
    }

    /// The whole resolution: interpreter, location, arguments and
    /// environment in order, short-circuiting on the first failure, the
    /// four results packaged as one launch command.
    pub fn language_server_command(
        &mut self,
        language_server_id: &str,
        doc: SettingsDoc,
        which_deno: Option<String>,
        env_root: Option<String>,
        project_root: &str,
        script_found: bool,
        platform: Os,
        shell_env: Vec<(String, String)>,
    ) -> (r: Result<Command, ResolveError>)
        ensures
            ({
                let expected = resolved_command(
                    doc@,
                    language_server_id@,
                    which_deno.deep_view(),
                    env_root.deep_view(),
                    project_root@,
                    script_found,
                    platform,
                    shell_env.deep_view(),
                );
                match r {
                    Ok(command) => expected == Ok::<CommandView, ErrorView>(command@),
                    Err(e) => expected == Err::<CommandView, ErrorView>(e@),
                }
            }),
    {
        let deno = match self.resolve_deno_binary(language_server_id, &doc, which_deno) {
            Ok(deno) => deno,
            Err(e) => {
                return Err(e);
            },
        };
        let location = match self.resolve_server_paths(
            &doc,
            &env_root,
            project_root,
            script_found,
        ) {
            Ok(location) => location,
            Err(e) => {
                return Err(e);
            },
        };
        let (deno_config, server_path) = location;
        let arguments = match doc.binary {
            Some(binary) => binary.arguments,
            None => None,
        };
        let args = self.resolve_arguments(arguments, deno_config, server_path);
        let env = self.resolve_environment(platform, shell_env);
        Ok(Command { command: deno, args, env })
    }
}

} // verus!

use workman_lsp::resolver::{Os, ResolveError, WorkmanExtension};
use workman_lsp::settings::{BinaryOverride, LocationOverride, SettingsDoc};

fn doc_with_binary(path: Option<&str>, arguments: Option<Vec<&str>>) -> SettingsDoc {
    SettingsDoc {
        binary: Some(BinaryOverride {
            path: path.map(|p| p.to_string()),
            arguments: arguments.map(|a| a.iter().map(|s| s.to_string()).collect()),
        }),
        settings: None,
    }
}

fn doc_with_location(
    server_path: Option<&str>,
    deno_config: Option<&str>,
    server_root: Option<&str>,
) -> SettingsDoc {
    SettingsDoc {
        binary: None,
        settings: Some(LocationOverride {
            server_path: server_path.map(|s| s.to_string()),
            deno_config: deno_config.map(|s| s.to_string()),
            server_root: server_root.map(|s| s.to_string()),
        }),
    }
}

fn strings(v: &[&str]) -> Vec<String> {
    v.iter().map(|s| s.to_string()).collect()
}

#[test]
fn binary_path_override_is_used_verbatim() {
    let ext = WorkmanExtension::new();
    let doc = doc_with_binary(Some("/opt/custom/deno"), None);
    let r = ext.resolve_deno_binary("workman", &doc, Some("/usr/bin/deno".to_string()));
    assert_eq!(r.unwrap_or_else(|_| panic!("expected a binary")), "/opt/custom/deno");
}

#[test]
fn binary_falls_back_to_path_search() {
    let ext = WorkmanExtension::new();
    let doc = SettingsDoc::empty();
    let r = ext.resolve_deno_binary("workman", &doc, Some("/usr/bin/deno".to_string()));
    assert_eq!(r.unwrap_or_else(|_| panic!("expected a binary")), "/usr/bin/deno");
}

#[test]
fn missing_binary_fails_with_the_server_id() {
    let ext = WorkmanExtension::new();
    let doc = doc_with_binary(None, Some(vec!["run"]));
    let r = ext.resolve_deno_binary("workman-lsp-1", &doc, None);
    match r {
        Err(ResolveError::BinaryNotFound { language_server_id }) => {
            assert_eq!(language_server_id, "workman-lsp-1");
        }
        _ => panic!("expected BinaryNotFound"),
    }
}

#[test]
fn binary_not_found_message_names_the_server() {
    let e = ResolveError::BinaryNotFound {
        language_server_id: "workman-lsp-1".to_string(),
    };
    assert_eq!(e.message(), "workman-lsp-1: could not find deno on PATH");
}

#[test]
fn server_not_found_message_names_the_path() {
    let e = ResolveError::ServerNotFound {
        script_path: "proj/lsp/server/src/server.ts".to_string(),
    };
    assert_eq!(
        e.message(),
        "Workman LSP not found at proj/lsp/server/src/server.ts"
    );
}

#[test]
fn explicit_server_path_with_deno_config() {
    let ext = WorkmanExtension::new();
    let doc = doc_with_location(Some("srv/main.ts"), Some("cfg/deno.json"), None);
    let (config, script) = ext
        .resolve_server_paths(&doc, &None, "proj", true)
        .unwrap_or_else(|_| panic!("expected paths"));
    assert_eq!(config, "cfg/deno.json");
    assert_eq!(script, "srv/main.ts");
}

#[test]
fn explicit_server_path_derives_config_from_grandparent() {
    let ext = WorkmanExtension::new();
    let doc = doc_with_location(Some("proj/lsp/server/src/server.ts"), None, None);
    let (config, script) = ext
        .resolve_server_paths(&doc, &None, "elsewhere", false)
        .unwrap_or_else(|_| panic!("expected paths"));
    assert_eq!(config, "proj/lsp/server/deno.json");
    assert_eq!(script, "proj/lsp/server/src/server.ts");
}

#[test]
fn bare_server_path_falls_back_to_relative_config() {
    let ext = WorkmanExtension::new();
    let doc = doc_with_location(Some("server.ts"), None, None);
    let (config, _) = ext
        .resolve_server_paths(&doc, &None, "proj", false)
        .unwrap_or_else(|_| panic!("expected paths"));
    assert_eq!(config, "deno.json");
}

#[test]
fn single_parent_server_path_falls_back_to_relative_config() {
    let ext = WorkmanExtension::new();
    let doc = doc_with_location(Some("src/server.ts"), None, None);
    let (config, _) = ext
        .resolve_server_paths(&doc, &None, "proj", false)
        .unwrap_or_else(|_| panic!("expected paths"));
    assert_eq!(config, "deno.json");
}

#[test]
fn absolute_server_path_keeps_the_root_in_the_config() {
    let ext = WorkmanExtension::new();
    let doc = doc_with_location(Some("/srv/server.ts"), None, None);
    let (config, _) = ext
        .resolve_server_paths(&doc, &None, "proj", false)
        .unwrap_or_else(|_| panic!("expected paths"));
    assert_eq!(config, "/deno.json");
}

#[test]
fn server_root_uses_the_fixed_layout() {
    let ext = WorkmanExtension::new();
    let doc = doc_with_location(None, None, Some("the/root"));
    let (config, script) = ext
        .resolve_server_paths(&doc, &None, "proj", false)
        .unwrap_or_else(|_| panic!("expected paths"));
    assert_eq!(config, "the/root/lsp/server/deno.json");
    assert_eq!(script, "the/root/lsp/server/src/server.ts");
}

#[test]
fn server_path_takes_precedence_over_server_root() {
    let ext = WorkmanExtension::new();
    let doc = doc_with_location(Some("a/b/c.ts"), Some("a/deno.json"), Some("ignored"));
    let (config, script) = ext
        .resolve_server_paths(&doc, &None, "proj", false)
        .unwrap_or_else(|_| panic!("expected paths"));
    assert_eq!(config, "a/deno.json");
    assert_eq!(script, "a/b/c.ts");
}

#[test]
fn environment_root_matches_the_server_root_derivation() {
    let ext = WorkmanExtension::new();
    let from_env = ext
        .resolve_server_paths(&SettingsDoc::empty(), &Some("the/root".to_string()), "proj", false)
        .unwrap_or_else(|_| panic!("expected paths"));
    let from_settings = ext
        .resolve_server_paths(&doc_with_location(None, None, Some("the/root")), &None, "proj", false)
        .unwrap_or_else(|_| panic!("expected paths"));
    assert_eq!(from_env, from_settings);
}

#[test]
fn settings_root_takes_precedence_over_environment_root() {
    let ext = WorkmanExtension::new();
    let doc = doc_with_location(None, None, Some("settings/root"));
    let (config, _) = ext
        .resolve_server_paths(&doc, &Some("env/root".to_string()), "proj", false)
        .unwrap_or_else(|_| panic!("expected paths"));
    assert_eq!(config, "settings/root/lsp/server/deno.json");
}

#[test]
fn default_convention_succeeds_when_the_script_exists() {
    let ext = WorkmanExtension::new();
    let (config, script) = ext
        .resolve_server_paths(&SettingsDoc::empty(), &None, "proj", true)
        .unwrap_or_else(|_| panic!("expected paths"));
    assert_eq!(config, "proj/lsp/server/deno.json");
    assert_eq!(script, "proj/lsp/server/src/server.ts");
}

#[test]
fn default_convention_fails_when_the_script_is_missing() {
    let ext = WorkmanExtension::new();
    let r = ext.resolve_server_paths(&SettingsDoc::empty(), &None, "proj", false);
    match r {
        Err(ResolveError::ServerNotFound { script_path }) => {
            assert_eq!(script_path, "proj/lsp/server/src/server.ts");
        }
        _ => panic!("expected ServerNotFound"),
    }
}

#[test]
fn argument_override_is_used_verbatim() {
    let ext = WorkmanExtension::new();
    let args = ext.resolve_arguments(
        Some(strings(&["a", "b", "c"])),
        "ignored/deno.json".to_string(),
        "ignored/server.ts".to_string(),
    );
    assert_eq!(args, strings(&["a", "b", "c"]));
}

#[test]
fn default_arguments_wrap_the_resolved_paths() {
    let ext = WorkmanExtension::new();
    let args = ext.resolve_arguments(
        None,
        "proj/lsp/server/deno.json".to_string(),
        "proj/lsp/server/src/server.ts".to_string(),
    );
    assert_eq!(
        args,
        strings(&[
            "run",
            "--allow-all",
            "--config",
            "proj/lsp/server/deno.json",
            "proj/lsp/server/src/server.ts",
        ])
    );
}

#[test]
fn windows_environment_is_empty() {
    let ext = WorkmanExtension::new();
    let shell = vec![("PATH".to_string(), "/usr/bin".to_string())];
    assert_eq!(ext.resolve_environment(Os::Windows, shell), vec![]);
}

#[test]
fn unix_environments_inherit_the_shell() {
    let ext = WorkmanExtension::new();
    let shell = vec![
        ("PATH".to_string(), "/usr/bin".to_string()),
        ("LANG".to_string(), "C.UTF-8".to_string()),
    ];
    assert_eq!(ext.resolve_environment(Os::Mac, shell.clone()), shell);
    assert_eq!(ext.resolve_environment(Os::Linux, shell.clone()), shell);
}

#[test]
fn full_command_from_defaults() {
    let mut ext = WorkmanExtension::new();
    let shell = vec![("PATH".to_string(), "/usr/bin".to_string())];
    let cmd = ext
        .language_server_command(
            "workman",
            SettingsDoc::empty(),
            Some("/usr/bin/deno".to_string()),
            None,
            "proj",
            true,
            Os::Linux,
            shell.clone(),
        )
        .unwrap_or_else(|_| panic!("expected a command"));
    assert_eq!(cmd.command, "/usr/bin/deno");
    assert_eq!(
        cmd.args,
        strings(&[
            "run",
            "--allow-all",
            "--config",
            "proj/lsp/server/deno.json",
            "proj/lsp/server/src/server.ts",
        ])
    );
    assert_eq!(cmd.env, shell);
}

#[test]
fn full_command_with_every_override() {
    let mut ext = WorkmanExtension::new();
    let doc = SettingsDoc {
        binary: Some(BinaryOverride {
            path: Some("my/deno".to_string()),
            arguments: Some(strings(&["serve"])),
        }),
        settings: Some(LocationOverride {
            server_path: Some("x/y/z.ts".to_string()),
            deno_config: Some("x/deno.json".to_string()),
            server_root: Some("ignored".to_string()),
        }),
    };
    let cmd = ext
        .language_server_command(
            "workman",
            doc,
            None,
            Some("also/ignored".to_string()),
            "proj",
            false,
            Os::Windows,
            vec![("HOME".to_string(), "/root".to_string())],
        )
        .unwrap_or_else(|_| panic!("expected a command"));
    assert_eq!(cmd.command, "my/deno");
    assert_eq!(cmd.args, strings(&["serve"]));
    assert_eq!(cmd.env, vec![]);
}

#[test]
fn full_command_binary_failure_comes_first() {
    let mut ext = WorkmanExtension::new();
    let r = ext.language_server_command(
        "workman",
        SettingsDoc::empty(),
        None,
        None,
        "proj",
        false,
        Os::Linux,
        vec![],
    );
    match r {
        Err(ResolveError::BinaryNotFound { language_server_id }) => {
            assert_eq!(language_server_id, "workman");
        }
        _ => panic!("expected BinaryNotFound"),
    }
}

#[test]
fn join_inserts_a_separator_only_where_needed() {
    assert_eq!(workman_lsp::paths::join_path_exec("a", "b"), "a/b");
    assert_eq!(workman_lsp::paths::join_path_exec("a/", "b"), "a/b");
    assert_eq!(workman_lsp::paths::join_path_exec("", "b"), "b");
}

#[test]
fn parent_drops_the_final_component() {
    assert_eq!(workman_lsp::paths::parent_path_exec("a/b/c"), Some("a/b".to_string()));
    assert_eq!(workman_lsp::paths::parent_path_exec("a"), Some("".to_string()));
    assert_eq!(workman_lsp::paths::parent_path_exec("a/"), Some("".to_string()));
    assert_eq!(workman_lsp::paths::parent_path_exec("/a"), Some("/".to_string()));
    assert_eq!(workman_lsp::paths::parent_path_exec("a//b"), Some("a".to_string()));
    assert_eq!(workman_lsp::paths::parent_path_exec(""), None);
    assert_eq!(workman_lsp::paths::parent_path_exec("/"), None);
}

#[test]
fn path_search_is_skipped_under_a_binary_override() {
    let ext = WorkmanExtension::new();
    assert!(!ext.needs_path_search(&doc_with_binary(Some("my/deno"), None)));
    assert!(ext.needs_path_search(&doc_with_binary(None, Some(vec!["run"]))));
    assert!(ext.needs_path_search(&SettingsDoc::empty()));
}

#[test]
fn script_probe_is_skipped_under_any_location_override() {
    let ext = WorkmanExtension::new();
    assert!(!ext.needs_script_probe(&doc_with_location(Some("a/b.ts"), None, None), &None));
    assert!(!ext.needs_script_probe(&doc_with_location(None, None, Some("root")), &None));
    assert!(!ext.needs_script_probe(&SettingsDoc::empty(), &Some("root".to_string())));
    assert!(ext.needs_script_probe(&SettingsDoc::empty(), &None));
    assert!(ext.needs_script_probe(&doc_with_location(None, Some("deno.json"), None), &None));
}

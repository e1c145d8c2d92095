use codex_teams::order::StringMap;
use codex_teams::permissions::{
    overlay_network_domain_permissions, FileSystemAccessMode, FilesystemPermissionToml,
    FilesystemPermissionsToml, NetworkDomainPermissionToml, NetworkDomainPermissionsToml,
    NetworkDomainUpsert, NetworkMitmActionToml, NetworkMitmHookToml,
    NetworkMitmInjectedHeaderToml, NetworkMitmToml, NetworkMode, NetworkProxyConfig,
    NetworkProxySettings, NetworkToml, NetworkUnixSocketPermissionToml,
    NetworkUnixSocketPermissionsToml, PermissionsToml,
};

fn text(value: &str) -> String {
    value.to_string()
}

fn domains(entries: &[(&str, NetworkDomainPermissionToml)]) -> NetworkDomainPermissionsToml {
    let mut map = StringMap::new();
    for (pattern, permission) in entries {
        map.insert(text(pattern), *permission);
    }
    NetworkDomainPermissionsToml { entries: map }
}

fn default_config() -> NetworkProxyConfig {
    NetworkProxyConfig {
        network: NetworkProxySettings {
            enabled: false,
            proxy_url: text("http://127.0.0.1:3128"),
            enable_socks5: true,
            socks_url: text("http://127.0.0.1:8081"),
            enable_socks5_udp: true,
            allow_upstream_proxy: true,
            dangerously_allow_non_loopback_proxy: false,
            dangerously_allow_all_unix_sockets: false,
            mode: NetworkMode::Full,
            domain_upserts: Vec::new(),
            unix_sockets: None,
            allow_local_binding: false,
            mitm: false,
            mitm_hooks: Vec::new(),
        },
    }
}

fn empty_network() -> NetworkToml {
    NetworkToml {
        enabled: None,
        proxy_url: None,
        enable_socks5: None,
        socks_url: None,
        enable_socks5_udp: None,
        allow_upstream_proxy: None,
        dangerously_allow_non_loopback_proxy: None,
        dangerously_allow_all_unix_sockets: None,
        mode: None,
        domains: None,
        unix_sockets: None,
        allow_local_binding: None,
        mitm: None,
    }
}

fn header(name: &str) -> NetworkMitmInjectedHeaderToml {
    NetworkMitmInjectedHeaderToml {
        name: text(name),
        secret_env_var: Some(text("TOKEN")),
        secret_file: None,
        prefix: Some(text("Bearer ")),
    }
}

fn action(strip: &[&str], inject: Vec<NetworkMitmInjectedHeaderToml>) -> NetworkMitmActionToml {
    NetworkMitmActionToml {
        strip_request_headers: strip.iter().map(|name| text(name)).collect(),
        inject_request_headers: inject,
    }
}

fn hook(actions: &[&str]) -> NetworkMitmHookToml {
    NetworkMitmHookToml {
        host: text("api.example.com"),
        methods: vec![text("GET")],
        path_prefixes: vec![text("/v1")],
        query: StringMap::new(),
        headers: StringMap::new(),
        body: None,
        action: actions.iter().map(|name| text(name)).collect(),
    }
}

fn mitm(hook_actions: &[&str], names: &[(&str, NetworkMitmActionToml)]) -> NetworkMitmToml {
    let mut hooks = StringMap::new();
    hooks.insert(text("h"), hook(hook_actions));
    let mut actions = StringMap::new();
    for (name, action) in names {
        actions.insert(text(name), action.clone());
    }
    NetworkMitmToml { enabled: Some(true), hooks: Some(hooks), actions: Some(actions) }
}

#[test]
fn empty_permissions_are_empty() {
    assert!(PermissionsToml { entries: StringMap::new() }.is_empty());
    assert!(FilesystemPermissionsToml { glob_scan_max_depth: Some(3), entries: StringMap::new() }
        .is_empty());
    let mut entries = StringMap::new();
    entries.insert(text("/"), FilesystemPermissionToml::Access(FileSystemAccessMode::Read));
    assert!(!FilesystemPermissionsToml { glob_scan_max_depth: None, entries }.is_empty());
    assert!(domains(&[]).is_empty());
    assert!(action(&[], Vec::new()).is_empty());
    assert!(!action(&["a"], Vec::new()).is_empty());
    assert!(!action(&[], vec![header("a")]).is_empty());
}

#[test]
fn domains_are_allowed_or_denied() {
    let list = domains(&[
        ("b.com", NetworkDomainPermissionToml::Allow),
        ("a.com", NetworkDomainPermissionToml::Allow),
        ("c.com", NetworkDomainPermissionToml::Deny),
    ]);
    assert_eq!(list.allowed_domains(), Some(vec![text("a.com"), text("b.com")]));
    assert_eq!(list.denied_domains(), Some(vec![text("c.com")]));
    assert_eq!(domains(&[]).allowed_domains(), None);
    assert_eq!(domains(&[]).denied_domains(), None);
    assert_eq!(NetworkDomainPermissionToml::Allow.label(), "allow");
    assert_eq!(NetworkDomainPermissionToml::Deny.label(), "deny");
}

#[test]
fn sockets_are_allowed_by_path() {
    let mut entries = StringMap::new();
    entries.insert(text("/b"), NetworkUnixSocketPermissionToml::Allow);
    entries.insert(text("/a"), NetworkUnixSocketPermissionToml::NoAccess);
    let sockets = NetworkUnixSocketPermissionsToml { entries };
    assert!(!sockets.is_empty());
    assert_eq!(sockets.allow_unix_sockets(), vec![text("/b")]);
    assert_eq!(NetworkUnixSocketPermissionToml::NoAccess.label(), "none");
    assert_eq!(NetworkUnixSocketPermissionToml::Allow.label(), "allow");
}

#[test]
fn action_references_are_checked() {
    assert_eq!(mitm(&["a"], &[("a", action(&["x"], Vec::new()))]).validate_action_references(), Ok(()));
    assert_eq!(
        mitm(&["b"], &[("a", action(&["x"], Vec::new()))]).validate_action_references(),
        Err(text("network.mitm.hooks.h.action references undefined action `b`"))
    );
    assert_eq!(
        mitm(&[], &[("a", action(&["x"], Vec::new()))]).validate_action_references(),
        Err(text("network.mitm.hooks.h.action must not be empty"))
    );
    let empty = mitm(&["a"], &[("a", action(&[], Vec::new()))]).validate_action_references();
    assert!(empty.expect_err("empty action").contains("network.mitm.actions.a"));
}

#[test]
fn hooks_take_their_actions_in_order() {
    let config = mitm(
        &["second", "first"],
        &[
            ("first", action(&["x"], vec![header("one")])),
            ("second", action(&["y"], vec![header("two")])),
        ],
    );
    let hooks = config.hooks.expect("hooks");
    let runtime = hooks.as_items()[0].1.to_runtime(&config.actions);
    assert_eq!(runtime.host, "api.example.com");
    assert_eq!(runtime.matcher.methods, vec![text("GET")]);
    assert_eq!(runtime.actions.strip_request_headers, vec![text("y"), text("x")]);
    let names: Vec<&str> =
        runtime.actions.inject_request_headers.iter().map(|header| header.name.as_str()).collect();
    assert_eq!(names, vec!["two", "one"]);
    assert_eq!(runtime.actions.inject_request_headers[0].prefix, Some(text("Bearer ")));
}

#[test]
fn domains_are_put_into_the_proxy_in_order() {
    let upsert = |pattern: &str, permission| NetworkDomainUpsert {
        pattern: text(pattern),
        permission,
    };
    let mut config = default_config();
    let first = domains(&[("A.com", NetworkDomainPermissionToml::Deny)]);
    overlay_network_domain_permissions(&mut config, &first);
    let mut network = empty_network();
    network.domains = Some(domains(&[
        ("b.com", NetworkDomainPermissionToml::Deny),
        ("a.com", NetworkDomainPermissionToml::Allow),
    ]));
    network.apply_to_network_proxy_config(&mut config);
    assert_eq!(
        config.network.domain_upserts,
        vec![
            upsert("A.com", NetworkDomainPermissionToml::Deny),
            upsert("a.com", NetworkDomainPermissionToml::Allow),
            upsert("b.com", NetworkDomainPermissionToml::Deny),
        ]
    );
}

#[test]
fn an_empty_profile_changes_nothing() {
    let config = empty_network().to_network_proxy_config(default_config());
    assert_eq!(config, default_config());
}

#[test]
fn a_profile_sets_what_it_says() {
    let mut network = empty_network();
    network.enabled = Some(true);
    network.proxy_url = Some(text("http://p"));
    network.mode = Some(NetworkMode::Limited);
    network.allow_local_binding = Some(true);
    network.mitm = Some(mitm(&["a"], &[("a", action(&["x"], Vec::new()))]));
    let mut entries = StringMap::new();
    entries.insert(text("/s"), NetworkUnixSocketPermissionToml::Allow);
    network.unix_sockets = Some(NetworkUnixSocketPermissionsToml { entries });
    let mut config = default_config();
    network.apply_to_network_proxy_config(&mut config);
    assert!(config.network.enabled);
    assert_eq!(config.network.proxy_url, "http://p");
    assert_eq!(config.network.socks_url, "http://127.0.0.1:8081");
    assert_eq!(config.network.mode, NetworkMode::Limited);
    assert!(config.network.allow_local_binding);
    assert!(config.network.mitm);
    assert_eq!(config.network.mitm_hooks.len(), 1);
    assert!(config.network.unix_sockets.expect("sockets").contains_key("/s"));
}

//! Permission profiles and what they mean for the network proxy.

use vstd::prelude::*;

use crate::json::Json;
use crate::mcp_resource::arguments_view;
use crate::order::{items_map, items_map_holds_items, keys_ascend, keys_of, StringMap};
use crate::split::filter_of_next;
use crate::text::{clone_strings, opt_view, text_or, views};

verus! {

// ---------------------------------------------------------------------------
// Profiles
// ---------------------------------------------------------------------------

/// How files may be accessed.
#[derive(Clone, Copy, Debug, PartialEq, Eq, Structural)]
pub enum FileSystemAccessMode {
    Read,
    Write,
    NoAccess,
}

/// The permission profiles, by their names.
#[derive(Debug, PartialEq, Eq)]
pub struct PermissionsToml {
    pub entries: StringMap<PermissionProfileToml>,
}

impl PermissionsToml {
    /// Whether there are no profiles.
    pub fn is_empty(&self) -> (empty: bool)
        ensures
            empty == (self.entries@ == Map::<Seq<char>, PermissionProfileToml>::empty()),
    {
        self.entries.is_empty()
    }
}

/// A permission profile.
#[derive(Debug, PartialEq, Eq)]
pub struct PermissionProfileToml {
    pub filesystem: Option<FilesystemPermissionsToml>,
    pub network: Option<NetworkToml>,
}

/// What a profile says about files, by path patterns.
#[derive(Debug, PartialEq, Eq)]
pub struct FilesystemPermissionsToml {
    /// The maximum depth for expanding unreadable glob patterns on platforms that snapshot glob
    /// matches before the sandbox starts.
    pub glob_scan_max_depth: Option<usize>,
    pub entries: StringMap<FilesystemPermissionToml>,
}

impl FilesystemPermissionsToml {
    /// Whether nothing is said about files.
    pub fn is_empty(&self) -> (empty: bool)
        ensures
            empty == (self.entries@ == Map::<Seq<char>, FilesystemPermissionToml>::empty()),
    {
        self.entries.is_empty()
    }
}

/// What a profile says about one path pattern: one access mode, or one for each sub-pattern.
#[derive(Debug, PartialEq, Eq)]
pub enum FilesystemPermissionToml {
    Access(FileSystemAccessMode),
    Scoped(StringMap<FileSystemAccessMode>),
}

// ---------------------------------------------------------------------------
// Domains
// ---------------------------------------------------------------------------

/// Whether a domain may be reached.
#[derive(Clone, Copy, Debug, PartialEq, Eq, Structural)]
pub enum NetworkDomainPermissionToml {
    Allow,
    Deny,
}

impl NetworkDomainPermissionToml {
    /// The permission as it is written.
    pub open spec fn text(self) -> Seq<char> {
        match self {
            NetworkDomainPermissionToml::Allow => "allow"@,
            NetworkDomainPermissionToml::Deny => "deny"@,
        }
    }

    /// The permission as it is written.
    pub fn label(self) -> (out: &'static str)
        ensures
            out@ == self.text(),
    {
        match self {
            NetworkDomainPermissionToml::Allow => "allow",
            NetworkDomainPermissionToml::Deny => "deny",
        }
    }
}

/// What a profile says about domains, by host patterns.
#[derive(Debug, PartialEq, Eq)]
pub struct NetworkDomainPermissionsToml {
    pub entries: StringMap<NetworkDomainPermissionToml>,
}

/// The items with a permission.
pub open spec fn has_permission(permission: NetworkDomainPermissionToml) -> spec_fn(
    (String, NetworkDomainPermissionToml),
) -> bool {
    |item: (String, NetworkDomainPermissionToml)| item.1 == permission
}

/// The patterns with a permission, in the order of the patterns.
pub open spec fn domains_with(
    items: Seq<(String, NetworkDomainPermissionToml)>,
    permission: NetworkDomainPermissionToml,
) -> Seq<Seq<char>> {
    keys_of(items.filter(has_permission(permission)))
}

/// A list, or none where it is empty.
pub open spec fn some_list(list: Seq<Seq<char>>) -> Option<Seq<Seq<char>>> {
    if list.len() == 0 {
        None
    } else {
        Some(list)
    }
}

/// The texts of an optional list of strings.
pub open spec fn list_view(list: Option<Vec<String>>) -> Option<Seq<Seq<char>>> {
    match list {
        Some(list) => Some(views(list@)),
        None => None,
    }
}

impl NetworkDomainPermissionsToml {
    /// Whether nothing is said about domains.
    pub fn is_empty(&self) -> (empty: bool)
        ensures
            empty == (self.entries@ == Map::<Seq<char>, NetworkDomainPermissionToml>::empty()),
    {
        self.entries.is_empty()
    }

    fn patterns_with(&self, permission: NetworkDomainPermissionToml) -> (out: Option<Vec<String>>)
        ensures
            list_view(out) == some_list(domains_with(self.entries.items(), permission)),
    {
        let items = self.entries.as_items();
        let ghost keep = has_permission(permission);
        let mut out: Vec<String> = Vec::new();
        reveal(Seq::filter);
        assert(views(out@) =~= keys_of(items@.take(0).filter(keep)));
        for i in 0..items.len()
            invariant
                keep == has_permission(permission),
                views(out@) == keys_of(items@.take(i as int).filter(keep)),
        {
            let ghost before = views(out@);
            proof {
                filter_of_next(items@, keep, i as int);
            }
            if items[i].1 == permission {
                out.push(items[i].0.clone());
                assert(views(out@) =~= before.push(items@[i as int].0@));
                assert(views(out@) =~= keys_of(items@.take(i + 1).filter(keep)));
            }
        }
        assert(items@.take(items@.len() as int) =~= items@);
        if out.len() == 0 {
            None
        } else {
            Some(out)
        }
    }

    /// The allowed patterns in their order, or none where there are none.
    pub fn allowed_domains(&self) -> (out: Option<Vec<String>>)
        ensures
            list_view(out) == some_list(
                domains_with(self.entries.items(), NetworkDomainPermissionToml::Allow),
            ),
    {
        self.patterns_with(NetworkDomainPermissionToml::Allow)
    }

    /// The denied patterns in their order, or none where there are none.
    pub fn denied_domains(&self) -> (out: Option<Vec<String>>)
        ensures
            list_view(out) == some_list(
                domains_with(self.entries.items(), NetworkDomainPermissionToml::Deny),
            ),
    {
        self.patterns_with(NetworkDomainPermissionToml::Deny)
    }
}

/// Every pattern is allowed or denied, and none is both: a pattern is in the list of a permission
/// exactly if it has that permission.
pub proof fn domains_are_split(
    items: Seq<(String, NetworkDomainPermissionToml)>,
    permission: NetworkDomainPermissionToml,
    pattern: Seq<char>,
)
    requires
        keys_ascend(items),
    ensures
        domains_with(items, permission).contains(pattern) <==> (items_map(items).contains_key(
            pattern,
        ) && items_map(items)[pattern] == permission),
{
    items_map_holds_items(items);
    let keep = has_permission(permission);
    let kept = items.filter(keep);
    let listed = domains_with(items, permission);
    if listed.contains(pattern) {
        let i = choose|i: int| 0 <= i < listed.len() && listed[i] == pattern;
        assert(kept.contains(kept[i]));
        items.lemma_filter_contains_rev(keep, kept[i]);
        items.lemma_filter_pred(keep, i);
        let j = choose|j: int| 0 <= j < items.len() && items[j] == kept[i];
        assert(items[j].0@ == pattern);
    }
    if items_map(items).contains_key(pattern) && items_map(items)[pattern] == permission {
        let j = choose|j: int| 0 <= j < items.len() && #[trigger] items[j].0@ == pattern;
        items.lemma_filter_contains(keep, j);
        let i = choose|i: int| 0 <= i < kept.len() && kept[i] == items[j];
        assert(listed[i] == pattern);
    }
}

// ---------------------------------------------------------------------------
// Unix sockets
// ---------------------------------------------------------------------------

/// Whether a socket may be used.
#[derive(Clone, Copy, Debug, PartialEq, Eq, Structural)]
pub enum NetworkUnixSocketPermissionToml {
    Allow,
    NoAccess,
}

impl NetworkUnixSocketPermissionToml {
    /// The permission as it is written.
    pub open spec fn text(self) -> Seq<char> {
        match self {
            NetworkUnixSocketPermissionToml::Allow => "allow"@,
            NetworkUnixSocketPermissionToml::NoAccess => "none"@,
        }
    }

    /// The permission as it is written.
    pub fn label(self) -> (out: &'static str)
        ensures
            out@ == self.text(),
    {
        match self {
            NetworkUnixSocketPermissionToml::Allow => "allow",
            NetworkUnixSocketPermissionToml::NoAccess => "none",
        }
    }
}

/// What a profile says about sockets, by their paths.
#[derive(Debug, PartialEq, Eq)]
pub struct NetworkUnixSocketPermissionsToml {
    pub entries: StringMap<NetworkUnixSocketPermissionToml>,
}

/// The items that allow a socket.
pub open spec fn allows_socket() -> spec_fn((String, NetworkUnixSocketPermissionToml)) -> bool {
    |item: (String, NetworkUnixSocketPermissionToml)|
        item.1 == NetworkUnixSocketPermissionToml::Allow
}

/// The allowed paths, in their order.
pub open spec fn allowed_sockets(items: Seq<(String, NetworkUnixSocketPermissionToml)>) -> Seq<
    Seq<char>,
> {
    keys_of(items.filter(allows_socket()))
}

impl NetworkUnixSocketPermissionsToml {
    /// Whether nothing is said about sockets.
    pub fn is_empty(&self) -> (empty: bool)
        ensures
            empty == (self.entries@ == Map::<Seq<char>, NetworkUnixSocketPermissionToml>::empty()),
    {
        self.entries.is_empty()
    }

    /// The allowed paths, in their order.
    pub fn allow_unix_sockets(&self) -> (out: Vec<String>)
        ensures
            views(out@) == allowed_sockets(self.entries.items()),
    {
        let items = self.entries.as_items();
        let ghost keep = allows_socket();
        let mut out: Vec<String> = Vec::new();
        reveal(Seq::filter);
        assert(views(out@) =~= keys_of(items@.take(0).filter(keep)));
        for i in 0..items.len()
            invariant
                keep == allows_socket(),
                views(out@) == keys_of(items@.take(i as int).filter(keep)),
        {
            let ghost before = views(out@);
            proof {
                filter_of_next(items@, keep, i as int);
            }
            if items[i].1 == NetworkUnixSocketPermissionToml::Allow {
                out.push(items[i].0.clone());
                assert(views(out@) =~= before.push(items@[i as int].0@));
                assert(views(out@) =~= keys_of(items@.take(i + 1).filter(keep)));
            }
        }
        assert(items@.take(items@.len() as int) =~= items@);
        out
    }
}

// ---------------------------------------------------------------------------
// Interception
// ---------------------------------------------------------------------------

/// A header that is put into requests.
#[derive(Clone, Debug, PartialEq, Eq)]
pub struct NetworkMitmInjectedHeaderToml {
    pub name: String,
    pub secret_env_var: Option<String>,
    pub secret_file: Option<String>,
    pub prefix: Option<String>,
}

/// A header that the proxy puts into requests.
#[derive(Clone, Debug, PartialEq, Eq)]
pub struct InjectedHeaderConfig {
    pub name: String,
    pub secret_env_var: Option<String>,
    pub secret_file: Option<String>,
    pub prefix: Option<String>,
}

/// What a header says.
#[verifier::ext_equal]
pub struct HeaderView {
    pub name: Seq<char>,
    pub secret_env_var: Option<Seq<char>>,
    pub secret_file: Option<Seq<char>>,
    pub prefix: Option<Seq<char>>,
}

impl View for NetworkMitmInjectedHeaderToml {
    type V = HeaderView;

    open spec fn view(&self) -> HeaderView {
        HeaderView {
            name: self.name@,
            secret_env_var: opt_view(self.secret_env_var),
            secret_file: opt_view(self.secret_file),
            prefix: opt_view(self.prefix),
        }
    }
}

impl View for InjectedHeaderConfig {
    type V = HeaderView;

    open spec fn view(&self) -> HeaderView {
        HeaderView {
            name: self.name@,
            secret_env_var: opt_view(self.secret_env_var),
            secret_file: opt_view(self.secret_file),
            prefix: opt_view(self.prefix),
        }
    }
}

impl NetworkMitmInjectedHeaderToml {
    /// The header for the proxy.
    pub fn to_runtime(&self) -> (out: InjectedHeaderConfig)
        ensures
            out@ == self@,
    {
        InjectedHeaderConfig {
            name: self.name.clone(),
            secret_env_var: self.secret_env_var.clone(),
            secret_file: self.secret_file.clone(),
            prefix: self.prefix.clone(),
        }
    }
}

/// What is done to a request that a hook catches.
#[derive(Clone, Debug, PartialEq, Eq)]
pub struct NetworkMitmActionToml {
    pub strip_request_headers: Vec<String>,
    pub inject_request_headers: Vec<NetworkMitmInjectedHeaderToml>,
}

impl NetworkMitmActionToml {
    /// The action does nothing.
    pub open spec fn does_nothing(self) -> bool {
        self.strip_request_headers@.len() == 0 && self.inject_request_headers@.len() == 0
    }

    /// Whether the action does nothing.
    pub fn is_empty(&self) -> (empty: bool)
        ensures
            empty == self.does_nothing(),
    {
        self.strip_request_headers.len() == 0 && self.inject_request_headers.len() == 0
    }
}

/// Which requests are caught, and by which actions they are changed.
#[derive(Debug, PartialEq, Eq)]
pub struct NetworkMitmHookToml {
    pub host: String,
    pub methods: Vec<String>,
    pub path_prefixes: Vec<String>,
    pub query: StringMap<Vec<String>>,
    pub headers: StringMap<Vec<String>>,
    pub body: Option<Json>,
    pub action: Vec<String>,
}

/// Interception: hooks that catch requests, and the actions that they name.
#[derive(Debug, PartialEq, Eq)]
pub struct NetworkMitmToml {
    pub enabled: Option<bool>,
    pub hooks: Option<StringMap<NetworkMitmHookToml>>,
    pub actions: Option<StringMap<NetworkMitmActionToml>>,
}

/// The name of the first action that does nothing.
pub open spec fn first_empty_action(items: Seq<(String, NetworkMitmActionToml)>) -> Option<
    Seq<char>,
>
    decreases items.len(),
{
    if items.len() == 0 {
        None
    } else if items[0].1.does_nothing() {
        Some(items[0].0@)
    } else {
        first_empty_action(items.drop_first())
    }
}

/// The action is defined.
pub open spec fn is_defined(actions: Option<StringMap<NetworkMitmActionToml>>, name: Seq<char>) -> bool {
    match actions {
        Some(actions) => actions@.contains_key(name),
        None => false,
    }
}

/// The first of the names that is not defined.
pub open spec fn first_undefined(
    names: Seq<Seq<char>>,
    actions: Option<StringMap<NetworkMitmActionToml>>,
) -> Option<Seq<char>>
    decreases names.len(),
{
    if names.len() == 0 {
        None
    } else if !is_defined(actions, names[0]) {
        Some(names[0])
    } else {
        first_undefined(names.drop_first(), actions)
    }
}

/// What is wrong with a hook.
pub open spec fn hook_fault(
    name: Seq<char>,
    hook: NetworkMitmHookToml,
    actions: Option<StringMap<NetworkMitmActionToml>>,
) -> Option<Seq<char>> {
    if hook.action@.len() == 0 {
        Some("network.mitm.hooks."@ + name + ".action must not be empty"@)
    } else {
        match first_undefined(views(hook.action@), actions) {
            Some(action) => Some(
                "network.mitm.hooks."@ + name + ".action references undefined action `"@ + action
                    + "`"@,
            ),
            None => None,
        }
    }
}

/// What is wrong with the first faulty hook.
pub open spec fn first_hook_fault(
    items: Seq<(String, NetworkMitmHookToml)>,
    actions: Option<StringMap<NetworkMitmActionToml>>,
) -> Option<Seq<char>>
    decreases items.len(),
{
    if items.len() == 0 {
        None
    } else {
        match hook_fault(items[0].0@, items[0].1, actions) {
            Some(fault) => Some(fault),
            None => first_hook_fault(items.drop_first(), actions),
        }
    }
}

impl NetworkMitmToml {
    /// What is wrong with the actions and the hooks, the actions first, each in the order of their
    /// names.
    pub open spec fn fault(self) -> Option<Seq<char>> {
        let empty = match self.actions {
            Some(actions) => first_empty_action(actions.items()),
            None => None,
        };
        match (empty, self.hooks) {
            (Some(action), _) => Some(
                "network.mitm.actions."@ + action + " must define at least one operation"@,
            ),
            (None, Some(hooks)) => first_hook_fault(hooks.items(), self.actions),
            (None, None) => None,
        }
    }

    /// Checks that every action does something and that every hook names actions, all of them
    /// defined; says what is wrong with the first that does not.
    pub fn validate_action_references(&self) -> (out: Result<(), String>)
        ensures
            match out {
                Ok(_) => self.fault() is None,
                Err(message) => self.fault() == Some(message@),
            },
    {
        if let Some(actions) = &self.actions {
            let items = actions.as_items();
            assert(items@.skip(0) =~= items@);
            for i in 0..items.len()
                invariant
                    self.actions == Some(*actions),
                    items@ == actions.items(),
                    first_empty_action(items@) == first_empty_action(items@.skip(i as int)),
            {
                assert(items@.skip(i as int).drop_first() =~= items@.skip(i + 1));
                if items[i].1.is_empty() {
                    let mut message = "network.mitm.actions.".to_string();
                    message.append(items[i].0.as_str());
                    message.append(" must define at least one operation");
                    return Err(message);
                }
            }
        }
        let hooks = match &self.hooks {
            Some(hooks) => hooks,
            None => {
                return Ok(());
            },
        };
        let items = hooks.as_items();
        assert(items@.skip(0) =~= items@);
        for i in 0..items.len()
            invariant
                self.hooks == Some(*hooks),
                items@ == hooks.items(),
                match self.actions {
                    Some(actions) => first_empty_action(actions.items()) is None,
                    None => true,
                },
                first_hook_fault(items@, self.actions) == first_hook_fault(
                    items@.skip(i as int),
                    self.actions,
                ),
        {
            assert(items@.skip(i as int).drop_first() =~= items@.skip(i + 1));
            let name = items[i].0.as_str();
            let hook = &items[i].1;
            if hook.action.len() == 0 {
                let mut message = "network.mitm.hooks.".to_string();
                message.append(name);
                message.append(".action must not be empty");
                return Err(message);
            }
            let ghost names = views(hook.action@);
            assert(names.skip(0) =~= names);
            for j in 0..hook.action.len()
                invariant
                    i < items@.len(),
                    self.hooks == Some(*hooks),
                    items@ == hooks.items(),
                    match self.actions {
                        Some(actions) => first_empty_action(actions.items()) is None,
                        None => true,
                    },
                    first_hook_fault(items@, self.actions) == first_hook_fault(
                        items@.skip(i as int),
                        self.actions,
                    ),
                    name@ == items@[i as int].0@,
                    *hook == items@[i as int].1,
                    hook.action@.len() > 0,
                    names == views(hook.action@),
                    first_undefined(names, self.actions) == first_undefined(
                        names.skip(j as int),
                        self.actions,
                    ),
            {
                assert(names.skip(j as int).drop_first() =~= names.skip(j + 1));
                let wanted = hook.action[j].as_str();
                let defined = match &self.actions {
                    Some(actions) => actions.contains_key(wanted),
                    None => false,
                };
                if !defined {
                    let mut message = "network.mitm.hooks.".to_string();
                    message.append(name);
                    message.append(".action references undefined action `");
                    message.append(wanted);
                    message.append("`");
                    return Err(message);
                }
            }
        }
        Ok(())
    }
}

// ---------------------------------------------------------------------------
// Hooks for the proxy
// ---------------------------------------------------------------------------

/// What the proxy does to requests that a hook catches.
#[derive(Clone, Debug, PartialEq, Eq)]
pub struct MitmHookActionsConfig {
    pub strip_request_headers: Vec<String>,
    pub inject_request_headers: Vec<InjectedHeaderConfig>,
}

/// Which requests the proxy's hook catches.
#[derive(Debug, PartialEq, Eq)]
pub struct MitmHookMatchConfig {
    pub methods: Vec<String>,
    pub path_prefixes: Vec<String>,
    pub query: StringMap<Vec<String>>,
    pub headers: StringMap<Vec<String>>,
    pub body: Option<Json>,
}

/// A hook of the proxy.
#[derive(Debug, PartialEq, Eq)]
pub struct MitmHookConfig {
    pub host: String,
    pub matcher: MitmHookMatchConfig,
    pub actions: MitmHookActionsConfig,
}

/// The texts of a map of lists.
pub open spec fn lists_view(map: Map<Seq<char>, Vec<String>>) -> Map<Seq<char>, Seq<Seq<char>>> {
    map.map_values(|list: Vec<String>| views(list@))
}

fn copy_lists(lists: &StringMap<Vec<String>>) -> (out: StringMap<Vec<String>>)
    ensures
        lists_view(out@) == lists_view(lists@),
{
    let items = lists.as_items();
    let mut out: StringMap<Vec<String>> = StringMap::new();
    assert(lists_view(out@) =~= lists_view(items_map(items@.take(0))));
    for i in 0..items.len()
        invariant
            lists_view(out@) == lists_view(items_map(items@.take(i as int))),
    {
        assert(items@.take(i + 1).drop_last() =~= items@.take(i as int));
        let ghost before = lists_view(out@);
        let copy = clone_strings(&items[i].1);
        out.insert(items[i].0.clone(), copy);
        assert(lists_view(out@) =~= before.insert(items@[i as int].0@, views(copy@)));
        assert(lists_view(items_map(items@.take(i + 1))) =~= before.insert(
            items@[i as int].0@,
            views(items@[i as int].1@),
        ));
    }
    assert(items@.take(items@.len() as int) =~= items@);
    out
}

/// The headers that the named actions strip, in the order of the names; names without an action
/// count for nothing.
pub open spec fn stripped_headers(
    names: Seq<Seq<char>>,
    actions: Map<Seq<char>, NetworkMitmActionToml>,
) -> Seq<Seq<char>>
    decreases names.len(),
{
    if names.len() == 0 {
        seq![]
    } else {
        let before = stripped_headers(names.drop_last(), actions);
        if actions.contains_key(names.last()) {
            before + views(actions[names.last()].strip_request_headers@)
        } else {
            before
        }
    }
}

/// The views of a list of headers.
pub open spec fn header_views(headers: Seq<NetworkMitmInjectedHeaderToml>) -> Seq<HeaderView> {
    headers.map_values(|header: NetworkMitmInjectedHeaderToml| header@)
}

/// The views of a list of the proxy's headers.
pub open spec fn runtime_header_views(headers: Seq<InjectedHeaderConfig>) -> Seq<HeaderView> {
    headers.map_values(|header: InjectedHeaderConfig| header@)
}

/// The headers that the named actions inject, in the order of the names.
pub open spec fn injected_headers(
    names: Seq<Seq<char>>,
    actions: Map<Seq<char>, NetworkMitmActionToml>,
) -> Seq<HeaderView>
    decreases names.len(),
{
    if names.len() == 0 {
        seq![]
    } else {
        let before = injected_headers(names.drop_last(), actions);
        if actions.contains_key(names.last()) {
            before + header_views(actions[names.last()].inject_request_headers@)
        } else {
            before
        }
    }
}

/// The actions by their names; none where none are given.
pub open spec fn action_map(actions: Option<StringMap<NetworkMitmActionToml>>) -> Map<
    Seq<char>,
    NetworkMitmActionToml,
> {
    match actions {
        Some(actions) => actions@,
        None => Map::empty(),
    }
}

/// The hook of the proxy is the hook of the profile.
pub open spec fn is_runtime_hook(
    out: MitmHookConfig,
    hook: NetworkMitmHookToml,
    actions: Option<StringMap<NetworkMitmActionToml>>,
) -> bool {
    &&& out.host@ == hook.host@
    &&& out.matcher.methods@ == hook.methods@
    &&& out.matcher.path_prefixes@ == hook.path_prefixes@
    &&& lists_view(out.matcher.query@) == lists_view(hook.query@)
    &&& lists_view(out.matcher.headers@) == lists_view(hook.headers@)
    &&& arguments_view(out.matcher.body) == arguments_view(hook.body)
    &&& views(out.actions.strip_request_headers@) == stripped_headers(
        views(hook.action@),
        action_map(actions),
    )
    &&& runtime_header_views(out.actions.inject_request_headers@) == injected_headers(
        views(hook.action@),
        action_map(actions),
    )
}

proof fn no_actions_give_nothing(names: Seq<Seq<char>>)
    ensures
        stripped_headers(names, Map::empty()) == Seq::<Seq<char>>::empty(),
        injected_headers(names, Map::empty()) == Seq::<HeaderView>::empty(),
    decreases names.len(),
{
    if names.len() > 0 {
        no_actions_give_nothing(names.drop_last());
    }
}

impl NetworkMitmHookToml {
    /// What the named actions do together, in the order of the names.
    pub fn selected_actions(&self, actions: &Option<StringMap<NetworkMitmActionToml>>) -> (out:
        MitmHookActionsConfig)
        ensures
            views(out.strip_request_headers@) == stripped_headers(
                views(self.action@),
                action_map(*actions),
            ),
            runtime_header_views(out.inject_request_headers@) == injected_headers(
                views(self.action@),
                action_map(*actions),
            ),
    {
        let mut strip: Vec<String> = Vec::new();
        let mut inject: Vec<InjectedHeaderConfig> = Vec::new();
        let by_name = match actions {
            Some(by_name) => by_name,
            None => {
                proof {
                    no_actions_give_nothing(views(self.action@));
                    assert(views(strip@) =~= seq![]);
                    assert(runtime_header_views(inject@) =~= seq![]);
                }
                return MitmHookActionsConfig {
                    strip_request_headers: strip,
                    inject_request_headers: inject,
                };
            },
        };
        let ghost names = views(self.action@);
        let ghost map = by_name@;
        assert(views(strip@) =~= stripped_headers(names.take(0), map));
        assert(runtime_header_views(inject@) =~= injected_headers(names.take(0), map));
        for i in 0..self.action.len()
            invariant
                names == views(self.action@),
                map == by_name@,
                views(strip@) == stripped_headers(names.take(i as int), map),
                runtime_header_views(inject@) == injected_headers(names.take(i as int), map),
        {
            assert(names.take(i + 1).drop_last() =~= names.take(i as int));
            if let Some(action) = by_name.get(self.action[i].as_str()) {
                let ghost before = views(strip@);
                let ghost more = views(action.strip_request_headers@);
                assert(before + more.take(0) =~= before);
                for j in 0..action.strip_request_headers.len()
                    invariant
                        more == views(action.strip_request_headers@),
                        views(strip@) == before + more.take(j as int),
                {
                    let ghost done = views(strip@);
                    strip.push(action.strip_request_headers[j].clone());
                    assert(views(strip@) =~= done.push(more[j as int]));
                    assert(views(strip@) =~= before + more.take(j + 1));
                }
                assert(more.take(action.strip_request_headers@.len() as int) =~= more);
                let ghost before_inject = runtime_header_views(inject@);
                let ghost headers = header_views(action.inject_request_headers@);
                assert(before_inject + headers.take(0) =~= before_inject);
                for j in 0..action.inject_request_headers.len()
                    invariant
                        headers == header_views(action.inject_request_headers@),
                        runtime_header_views(inject@) == before_inject + headers.take(j as int),
                {
                    let ghost done = runtime_header_views(inject@);
                    let header = action.inject_request_headers[j].to_runtime();
                    inject.push(header);
                    assert(header@ == headers[j as int]);
                    assert(runtime_header_views(inject@) =~= done.push(header@));
                    assert(runtime_header_views(inject@) =~= before_inject + headers.take(j + 1));
                }
                assert(headers.take(action.inject_request_headers@.len() as int) =~= headers);
            }
        }
        assert(names.take(self.action@.len() as int) =~= names);
        MitmHookActionsConfig { strip_request_headers: strip, inject_request_headers: inject }
    }

    /// The hook for the proxy.
    pub fn to_runtime(&self, actions: &Option<StringMap<NetworkMitmActionToml>>) -> (out:
        MitmHookConfig)
        ensures
            is_runtime_hook(out, *self, *actions),
    {
        let body = match &self.body {
            Some(body) => Some(body.copy()),
            None => None,
        };
        MitmHookConfig {
            host: self.host.clone(),
            matcher: MitmHookMatchConfig {
                methods: clone_strings(&self.methods),
                path_prefixes: clone_strings(&self.path_prefixes),
                query: copy_lists(&self.query),
                headers: copy_lists(&self.headers),
                body,
            },
            actions: self.selected_actions(actions),
        }
    }
}

// ---------------------------------------------------------------------------
// The proxy's configuration
// ---------------------------------------------------------------------------

/// Which requests the proxy lets through.
#[derive(Clone, Copy, Debug, PartialEq, Eq, Structural)]
pub enum NetworkMode {
    Limited,
    Full,
}

/// A host pattern that is put into the proxy's domains with its permission. Which patterns it
/// takes the place of is up to the proxy.
#[derive(Clone, Debug, PartialEq, Eq)]
pub struct NetworkDomainUpsert {
    pub pattern: String,
    pub permission: NetworkDomainPermissionToml,
}

/// What is put into the proxy's domains.
#[verifier::ext_equal]
pub struct DomainView {
    pub pattern: Seq<char>,
    pub permission: NetworkDomainPermissionToml,
}

impl View for NetworkDomainUpsert {
    type V = DomainView;

    open spec fn view(&self) -> DomainView {
        DomainView { pattern: self.pattern@, permission: self.permission }
    }
}

/// The views of a list of host patterns.
pub open spec fn domain_views(upserts: Seq<NetworkDomainUpsert>) -> Seq<DomainView> {
    upserts.map_values(|upsert: NetworkDomainUpsert| upsert@)
}

/// The network settings of the proxy.
#[derive(Debug, PartialEq, Eq)]
pub struct NetworkProxySettings {
    pub enabled: bool,
    pub proxy_url: String,
    pub enable_socks5: bool,
    pub socks_url: String,
    pub enable_socks5_udp: bool,
    pub allow_upstream_proxy: bool,
    pub dangerously_allow_non_loopback_proxy: bool,
    pub dangerously_allow_all_unix_sockets: bool,
    pub mode: NetworkMode,
    /// What is put into the proxy's domains, in order.
    pub domain_upserts: Vec<NetworkDomainUpsert>,
    pub unix_sockets: Option<StringMap<NetworkUnixSocketPermissionToml>>,
    pub allow_local_binding: bool,
    pub mitm: bool,
    pub mitm_hooks: Vec<MitmHookConfig>,
}

/// The configuration of the proxy.
#[derive(Debug, PartialEq, Eq)]
pub struct NetworkProxyConfig {
    pub network: NetworkProxySettings,
}

/// What a profile says about the network. What it leaves out stays as it is.
#[derive(Debug, PartialEq, Eq)]
pub struct NetworkToml {
    pub enabled: Option<bool>,
    pub proxy_url: Option<String>,
    pub enable_socks5: Option<bool>,
    pub socks_url: Option<String>,
    pub enable_socks5_udp: Option<bool>,
    pub allow_upstream_proxy: Option<bool>,
    pub dangerously_allow_non_loopback_proxy: Option<bool>,
    pub dangerously_allow_all_unix_sockets: Option<bool>,
    pub mode: Option<NetworkMode>,
    pub domains: Option<NetworkDomainPermissionsToml>,
    pub unix_sockets: Option<NetworkUnixSocketPermissionsToml>,
    pub allow_local_binding: Option<bool>,
    pub mitm: Option<NetworkMitmToml>,
}

/// The host patterns of a profile, in their order.
pub open spec fn upserts_of(items: Seq<(String, NetworkDomainPermissionToml)>) -> Seq<DomainView> {
    items.map_values(
        |item: (String, NetworkDomainPermissionToml)|
            DomainView { pattern: item.0@, permission: item.1 },
    )
}

/// Has the host patterns of a profile put into the proxy's domains, behind those that are to be
/// put there already.
pub fn overlay_network_domain_permissions(
    config: &mut NetworkProxyConfig,
    domains: &NetworkDomainPermissionsToml,
)
    ensures
        domain_views(final(config).network.domain_upserts@) == domain_views(
            old(config).network.domain_upserts@,
        ) + upserts_of(domains.entries.items()),
        same_but_domains(final(config).network, old(config).network),
{
    let items = domains.entries.as_items();
    let ghost start = domain_views(config.network.domain_upserts@);
    let ghost wanted = upserts_of(items@);
    assert(start =~= start + wanted.take(0));
    for i in 0..items.len()
        invariant
            items@ == domains.entries.items(),
            wanted == upserts_of(items@),
            domain_views(config.network.domain_upserts@) == start + wanted.take(i as int),
            same_but_domains(config.network, old(config).network),
    {
        let ghost before = domain_views(config.network.domain_upserts@);
        let upsert = NetworkDomainUpsert { pattern: items[i].0.clone(), permission: items[i].1 };
        assert(upsert@ == wanted[i as int]);
        config.network.domain_upserts.push(upsert);
        assert(domain_views(config.network.domain_upserts@) =~= before.push(upsert@));
        assert(before.push(upsert@) =~= start + wanted.take(i + 1));
    }
    assert(wanted.take(items@.len() as int) =~= wanted);
}

/// Two settings differ at most in their domains.
pub open spec fn same_but_domains(a: NetworkProxySettings, b: NetworkProxySettings) -> bool {
    &&& a.enabled == b.enabled
    &&& a.proxy_url == b.proxy_url
    &&& a.enable_socks5 == b.enable_socks5
    &&& a.socks_url == b.socks_url
    &&& a.enable_socks5_udp == b.enable_socks5_udp
    &&& a.allow_upstream_proxy == b.allow_upstream_proxy
    &&& a.dangerously_allow_non_loopback_proxy == b.dangerously_allow_non_loopback_proxy
    &&& a.dangerously_allow_all_unix_sockets == b.dangerously_allow_all_unix_sockets
    &&& a.mode == b.mode
    &&& a.unix_sockets == b.unix_sockets
    &&& a.allow_local_binding == b.allow_local_binding
    &&& a.mitm == b.mitm
    &&& a.mitm_hooks == b.mitm_hooks
}

/// The sockets by their paths; none where none are given.
pub open spec fn socket_map(sockets: Option<StringMap<NetworkUnixSocketPermissionToml>>) -> Map<
    Seq<char>,
    NetworkUnixSocketPermissionToml,
> {
    match sockets {
        Some(sockets) => sockets@,
        None => Map::empty(),
    }
}

/// A given value, or the old one.
pub open spec fn or_old<T>(given: Option<T>, old: T) -> T {
    match given {
        Some(value) => value,
        None => old,
    }
}

/// The plain settings are those that the profile gives, or the old ones.
pub open spec fn switches_applied(
    toml: NetworkToml,
    before: NetworkProxySettings,
    after: NetworkProxySettings,
) -> bool {
    &&& after.enabled == or_old(toml.enabled, before.enabled)
    &&& after.proxy_url@ == text_or(toml.proxy_url, before.proxy_url@)
    &&& after.enable_socks5 == or_old(toml.enable_socks5, before.enable_socks5)
    &&& after.socks_url@ == text_or(toml.socks_url, before.socks_url@)
    &&& after.enable_socks5_udp == or_old(toml.enable_socks5_udp, before.enable_socks5_udp)
    &&& after.allow_upstream_proxy == or_old(
        toml.allow_upstream_proxy,
        before.allow_upstream_proxy,
    )
    &&& after.dangerously_allow_non_loopback_proxy == or_old(
        toml.dangerously_allow_non_loopback_proxy,
        before.dangerously_allow_non_loopback_proxy,
    )
    &&& after.dangerously_allow_all_unix_sockets == or_old(
        toml.dangerously_allow_all_unix_sockets,
        before.dangerously_allow_all_unix_sockets,
    )
    &&& after.mode == or_old(toml.mode, before.mode)
    &&& after.allow_local_binding == or_old(toml.allow_local_binding, before.allow_local_binding)
    &&& after.mitm == match toml.mitm {
        Some(mitm) => or_old(mitm.enabled, before.mitm),
        None => before.mitm,
    }
}

/// The profile's host patterns are put into the proxy's domains last.
pub open spec fn domains_applied(
    toml: NetworkToml,
    before: Seq<DomainView>,
    after: Seq<DomainView>,
) -> bool {
    after == match toml.domains {
        Some(domains) => before + upserts_of(domains.entries.items()),
        None => before,
    }
}

/// The profile's sockets are put into the sockets, which are left out where there are none.
pub open spec fn sockets_applied(
    toml: NetworkToml,
    before: Option<StringMap<NetworkUnixSocketPermissionToml>>,
    after: Option<StringMap<NetworkUnixSocketPermissionToml>>,
) -> bool {
    match toml.unix_sockets {
        Some(sockets) => {
            &&& socket_map(after) == socket_map(before).union_prefer_right(sockets.entries@)
            &&& after is None <==> socket_map(after) == Map::<
                Seq<char>,
                NetworkUnixSocketPermissionToml,
            >::empty()
        },
        None => after == before,
    }
}

/// The profile's hooks take the place of the hooks, in the order of their names.
pub open spec fn hooks_applied(
    toml: NetworkToml,
    before: Seq<MitmHookConfig>,
    after: Seq<MitmHookConfig>,
) -> bool {
    match toml.mitm {
        Some(mitm) => match mitm.hooks {
            Some(hooks) => {
                &&& after.len() == hooks.items().len()
                &&& forall|i: int|
                    0 <= i < hooks.items().len() ==> is_runtime_hook(
                        #[trigger] after[i],
                        hooks.items()[i].1,
                        mitm.actions,
                    )
            },
            None => after == before,
        },
        None => after == before,
    }
}

/// What a profile makes of the proxy's settings: it replaces what it gives and keeps the rest;
/// domains and sockets are put into those that are there.
pub open spec fn is_applied(
    toml: NetworkToml,
    before: NetworkProxySettings,
    after: NetworkProxySettings,
) -> bool {
    &&& switches_applied(toml, before, after)
    &&& domains_applied(
        toml,
        domain_views(before.domain_upserts@),
        domain_views(after.domain_upserts@),
    )
    &&& sockets_applied(toml, before.unix_sockets, after.unix_sockets)
    &&& hooks_applied(toml, before.mitm_hooks@, after.mitm_hooks@)
}

/// Two settings have the same plain settings.
pub open spec fn same_switches(a: NetworkProxySettings, b: NetworkProxySettings) -> bool {
    &&& a.enabled == b.enabled
    &&& a.proxy_url == b.proxy_url
    &&& a.enable_socks5 == b.enable_socks5
    &&& a.socks_url == b.socks_url
    &&& a.enable_socks5_udp == b.enable_socks5_udp
    &&& a.allow_upstream_proxy == b.allow_upstream_proxy
    &&& a.dangerously_allow_non_loopback_proxy == b.dangerously_allow_non_loopback_proxy
    &&& a.dangerously_allow_all_unix_sockets == b.dangerously_allow_all_unix_sockets
    &&& a.mode == b.mode
    &&& a.allow_local_binding == b.allow_local_binding
    &&& a.mitm == b.mitm
}

fn given_or_old<T: Copy>(given: Option<T>, old_value: T) -> (out: T)
    ensures
        out == or_old(given, old_value),
{
    match given {
        Some(value) => value,
        None => old_value,
    }
}

fn merge_sockets(
    old_sockets: Option<StringMap<NetworkUnixSocketPermissionToml>>,
    new_sockets: &StringMap<NetworkUnixSocketPermissionToml>,
) -> (out: Option<StringMap<NetworkUnixSocketPermissionToml>>)
    ensures
        socket_map(out) == socket_map(old_sockets).union_prefer_right(new_sockets@),
        out is None <==> socket_map(out) == Map::<
            Seq<char>,
            NetworkUnixSocketPermissionToml,
        >::empty(),
{
    let ghost start = socket_map(old_sockets);
    let mut sockets = match old_sockets {
        Some(sockets) => sockets,
        None => StringMap::new(),
    };
    let items = new_sockets.as_items();
    assert(sockets@ =~= start.union_prefer_right(items_map(items@.take(0))));
    for i in 0..items.len()
        invariant
            sockets@ == start.union_prefer_right(items_map(items@.take(i as int))),
    {
        assert(items@.take(i + 1).drop_last() =~= items@.take(i as int));
        sockets.insert(items[i].0.clone(), items[i].1);
        assert(sockets@ =~= start.union_prefer_right(items_map(items@.take(i + 1))));
    }
    assert(items@.take(items@.len() as int) =~= items@);
    if sockets.is_empty() {
        None
    } else {
        Some(sockets)
    }
}

impl NetworkToml {
    #[verifier::rlimit(40)]
    fn apply_switches(&self, network: &mut NetworkProxySettings)
        ensures
            switches_applied(*self, *old(network), *final(network)),
            final(network).domain_upserts == old(network).domain_upserts,
            final(network).unix_sockets == old(network).unix_sockets,
            final(network).mitm_hooks == old(network).mitm_hooks,
    {
        network.enabled = given_or_old(self.enabled, network.enabled);
        if let Some(proxy_url) = &self.proxy_url {
            network.proxy_url = proxy_url.clone();
        }
        network.enable_socks5 = given_or_old(self.enable_socks5, network.enable_socks5);
        if let Some(socks_url) = &self.socks_url {
            network.socks_url = socks_url.clone();
        }
        network.enable_socks5_udp = given_or_old(
            self.enable_socks5_udp,
            network.enable_socks5_udp,
        );
        network.allow_upstream_proxy = given_or_old(
            self.allow_upstream_proxy,
            network.allow_upstream_proxy,
        );
        network.dangerously_allow_non_loopback_proxy = given_or_old(
            self.dangerously_allow_non_loopback_proxy,
            network.dangerously_allow_non_loopback_proxy,
        );
        network.dangerously_allow_all_unix_sockets = given_or_old(
            self.dangerously_allow_all_unix_sockets,
            network.dangerously_allow_all_unix_sockets,
        );
        network.mode = given_or_old(self.mode, network.mode);
        network.allow_local_binding = given_or_old(
            self.allow_local_binding,
            network.allow_local_binding,
        );
        if let Some(mitm) = &self.mitm {
            network.mitm = given_or_old(mitm.enabled, network.mitm);
        }
    }

    fn runtime_hooks(mitm: &NetworkMitmToml, hooks: &StringMap<NetworkMitmHookToml>) -> (out: Vec<
        MitmHookConfig,
    >)
        ensures
            out@.len() == hooks.items().len(),
            forall|i: int|
                0 <= i < hooks.items().len() ==> is_runtime_hook(
                    #[trigger] out@[i],
                    hooks.items()[i].1,
                    mitm.actions,
                ),
    {
        let items = hooks.as_items();
        let mut runtime: Vec<MitmHookConfig> = Vec::new();
        for i in 0..items.len()
            invariant
                items@ == hooks.items(),
                runtime@.len() == i,
                forall|j: int|
                    0 <= j < i ==> is_runtime_hook(
                        #[trigger] runtime@[j],
                        items@[j].1,
                        mitm.actions,
                    ),
        {
            runtime.push(items[i].1.to_runtime(&mitm.actions));
        }
        runtime
    }

    /// Puts what the profile says into the proxy's configuration.
    #[verifier::rlimit(40)]
    pub fn apply_to_network_proxy_config(&self, config: &mut NetworkProxyConfig)
        ensures
            is_applied(*self, old(config).network, final(config).network),
    {
        let ghost before = config.network;
        self.apply_switches(&mut config.network);
        let ghost switched = config.network;
        if let Some(domains) = &self.domains {
            overlay_network_domain_permissions(config, domains);
        }
        let ghost overlaid_settings = config.network;
        assert(same_switches(overlaid_settings, switched));
        if let Some(sockets) = &self.unix_sockets {
            let old_sockets = config.network.unix_sockets.take();
            config.network.unix_sockets = merge_sockets(old_sockets, &sockets.entries);
        }
        assert(sockets_applied(*self, before.unix_sockets, config.network.unix_sockets));
        if let Some(mitm) = &self.mitm {
            if let Some(hooks) = &mitm.hooks {
                config.network.mitm_hooks = Self::runtime_hooks(mitm, hooks);
            }
        }
        assert(hooks_applied(*self, before.mitm_hooks@, config.network.mitm_hooks@));
        assert(same_switches(config.network, switched));
        assert(config.network.domain_upserts == overlaid_settings.domain_upserts);
    }

    /// The proxy's configuration that the profile gives, with `default` for what it leaves out.
    pub fn to_network_proxy_config(&self, default: NetworkProxyConfig) -> (out: NetworkProxyConfig)
        ensures
            is_applied(*self, default.network, out.network),
    {
        let mut config = default;
        self.apply_to_network_proxy_config(&mut config);
        config
    }
}

/// A profile that says nothing changes nothing.
pub proof fn empty_profile_changes_nothing(
    toml: NetworkToml,
    before: NetworkProxySettings,
    after: NetworkProxySettings,
)
    requires
        toml.enabled is None,
        toml.proxy_url is None,
        toml.enable_socks5 is None,
        toml.socks_url is None,
        toml.enable_socks5_udp is None,
        toml.allow_upstream_proxy is None,
        toml.dangerously_allow_non_loopback_proxy is None,
        toml.dangerously_allow_all_unix_sockets is None,
        toml.mode is None,
        toml.domains is None,
        toml.unix_sockets is None,
        toml.allow_local_binding is None,
        toml.mitm is None,
        is_applied(toml, before, after),
    ensures
        after.proxy_url@ == before.proxy_url@,
        after.socks_url@ == before.socks_url@,
        domain_views(after.domain_upserts@) == domain_views(before.domain_upserts@),
        after.enabled == before.enabled,
        after.enable_socks5 == before.enable_socks5,
        after.enable_socks5_udp == before.enable_socks5_udp,
        after.allow_upstream_proxy == before.allow_upstream_proxy,
        after.dangerously_allow_non_loopback_proxy == before.dangerously_allow_non_loopback_proxy,
        after.dangerously_allow_all_unix_sockets == before.dangerously_allow_all_unix_sockets,
        after.mode == before.mode,
        after.unix_sockets == before.unix_sockets,
        after.allow_local_binding == before.allow_local_binding,
        after.mitm == before.mitm,
        after.mitm_hooks@ == before.mitm_hooks@,
{
}

/// Names that are all defined leave none out: where the references are valid, every named action
/// takes part in what its hook does.
pub proof fn valid_references_are_defined(
    names: Seq<Seq<char>>,
    actions: Option<StringMap<NetworkMitmActionToml>>,
)
    requires
        first_undefined(names, actions) is None,
    ensures
        forall|i: int| 0 <= i < names.len() ==> is_defined(actions, #[trigger] names[i]),
    decreases names.len(),
{
    if names.len() > 0 {
        let rest = names.drop_first();
        valid_references_are_defined(rest, actions);
        assert forall|i: int| 0 <= i < names.len() implies is_defined(
            actions,
            #[trigger] names[i],
        ) by {
            if i > 0 {
                assert(names[i] == rest[i - 1]);
            }
        }
    }
}

} // verus!

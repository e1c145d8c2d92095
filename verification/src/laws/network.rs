//! What a permission profile does to the proxy.

use vstd::prelude::*;

use crate::laws::sum_over;
use crate::order::{items_map_holds_items, keys_ascend, keys_of, text_less, StringMap};
use crate::permissions::{
    allowed_sockets, allows_socket, domain_views, domains_are_split, domains_with,
    first_empty_action, first_hook_fault, first_undefined, has_permission, header_views,
    injected_headers, is_applied, is_runtime_hook, runtime_header_views, some_list,
    stripped_headers, MitmHookConfig, NetworkDomainPermissionToml, NetworkMitmActionToml,
    NetworkMitmHookToml, NetworkMitmInjectedHeaderToml, NetworkMitmToml, NetworkProxySettings,
    NetworkToml, NetworkUnixSocketPermissionToml,
};
use crate::text::views;

verus! {

// ---------------------------------------------------------------------------
// Hooks
// ---------------------------------------------------------------------------

/// The action that is defined under a name, where one is.
pub open spec fn action_named(
    actions: Option<StringMap<NetworkMitmActionToml>>,
    name: Seq<char>,
) -> Option<NetworkMitmActionToml> {
    if actions is Some && actions->0@.contains_key(name) {
        Some(actions->0@[name])
    } else {
        None
    }
}

/// How many headers the action under a name strips.
pub open spec fn strips(actions: Option<StringMap<NetworkMitmActionToml>>) -> spec_fn(
    Seq<char>,
) -> int {
    |name: Seq<char>|
        match action_named(actions, name) {
            Some(action) => action.strip_request_headers@.len() as int,
            None => 0,
        }
}

/// How many headers the action under a name injects.
pub open spec fn injects(actions: Option<StringMap<NetworkMitmActionToml>>) -> spec_fn(
    Seq<char>,
) -> int {
    |name: Seq<char>|
        match action_named(actions, name) {
            Some(action) => action.inject_request_headers@.len() as int,
            None => 0,
        }
}

proof fn sum_is_not_negative(names: Seq<Seq<char>>, figure: spec_fn(Seq<char>) -> int)
    requires
        forall|name: Seq<char>| #[trigger] figure(name) >= 0,
    ensures
        sum_over(names, figure) >= 0,
    decreases names.len(),
{
    if names.len() > 0 {
        sum_is_not_negative(names.drop_last(), figure);
        assert(figure(names.last()) >= 0);
    }
}

/// The map holds the actions that are defined.
spec fn is_action_map(
    map: Map<Seq<char>, NetworkMitmActionToml>,
    actions: Option<StringMap<NetworkMitmActionToml>>,
) -> bool {
    forall|name: Seq<char>|
        match #[trigger] action_named(actions, name) {
            Some(action) => map.contains_key(name) && map[name] == action,
            None => !map.contains_key(name),
        }
}

proof fn stripped_at(
    names: Seq<Seq<char>>,
    actions: Option<StringMap<NetworkMitmActionToml>>,
    map: Map<Seq<char>, NetworkMitmActionToml>,
    k: int,
    j: int,
)
    requires
        is_action_map(map, actions),
        0 <= k < names.len(),
        action_named(actions, names[k]) is Some,
        0 <= j < action_named(actions, names[k])->0.strip_request_headers@.len(),
    ensures
        0 <= sum_over(names.take(k), strips(actions)) + j < stripped_headers(names, map).len(),
        stripped_headers(names, map)[sum_over(names.take(k), strips(actions)) + j] == action_named(
            actions,
            names[k],
        )->0.strip_request_headers@[j]@,
    decreases names.len(),
{
    let before = names.drop_last();
    let head = stripped_headers(before, map);
    assert(action_named(actions, names.last()) is Some <==> map.contains_key(names.last()));
    count_of_stripped(before, actions, map);
    if k < names.len() - 1 {
        assert(before[k] == names[k]);
        stripped_at(before, actions, map, k, j);
        assert(before.take(k) =~= names.take(k));
    } else {
        assert(names.take(k) =~= before);
        sum_is_not_negative(before, strips(actions));
        let more = views(map[names.last()].strip_request_headers@);
        assert(more[j] == action_named(actions, names[k])->0.strip_request_headers@[j]@);
    }
}

proof fn count_of_stripped(
    names: Seq<Seq<char>>,
    actions: Option<StringMap<NetworkMitmActionToml>>,
    map: Map<Seq<char>, NetworkMitmActionToml>,
)
    requires
        is_action_map(map, actions),
    ensures
        stripped_headers(names, map).len() == sum_over(names, strips(actions)),
    decreases names.len(),
{
    if names.len() > 0 {
        count_of_stripped(names.drop_last(), actions, map);
        assert(action_named(actions, names.last()) is Some <==> map.contains_key(names.last()));
    }
}

proof fn injected_at(
    names: Seq<Seq<char>>,
    actions: Option<StringMap<NetworkMitmActionToml>>,
    map: Map<Seq<char>, NetworkMitmActionToml>,
    k: int,
    j: int,
)
    requires
        is_action_map(map, actions),
        0 <= k < names.len(),
        action_named(actions, names[k]) is Some,
        0 <= j < action_named(actions, names[k])->0.inject_request_headers@.len(),
    ensures
        0 <= sum_over(names.take(k), injects(actions)) + j < injected_headers(names, map).len(),
        injected_headers(names, map)[sum_over(names.take(k), injects(actions)) + j] == action_named(
            actions,
            names[k],
        )->0.inject_request_headers@[j]@,
    decreases names.len(),
{
    let before = names.drop_last();
    let head = injected_headers(before, map);
    assert(action_named(actions, names.last()) is Some <==> map.contains_key(names.last()));
    count_of_injected(before, actions, map);
    if k < names.len() - 1 {
        assert(before[k] == names[k]);
        injected_at(before, actions, map, k, j);
        assert(before.take(k) =~= names.take(k));
    } else {
        assert(names.take(k) =~= before);
        sum_is_not_negative(before, injects(actions));
        let more = header_views(map[names.last()].inject_request_headers@);
        assert(more[j] == action_named(actions, names[k])->0.inject_request_headers@[j]@);
    }
}

proof fn count_of_injected(
    names: Seq<Seq<char>>,
    actions: Option<StringMap<NetworkMitmActionToml>>,
    map: Map<Seq<char>, NetworkMitmActionToml>,
)
    requires
        is_action_map(map, actions),
    ensures
        injected_headers(names, map).len() == sum_over(names, injects(actions)),
    decreases names.len(),
{
    if names.len() > 0 {
        count_of_injected(names.drop_last(), actions, map);
        assert(action_named(actions, names.last()) is Some <==> map.contains_key(names.last()));
    }
}

/// The headers of a hook are those of its actions, one behind the other in the order in which the
/// hook names them: each action that is defined has all its headers stripped, whatever it
/// injects, and all its headers injected, whatever it strips; names without an action count for
/// nothing.
pub proof fn hooks_do_what_their_actions_say(
    out: MitmHookConfig,
    hook: NetworkMitmHookToml,
    actions: Option<StringMap<NetworkMitmActionToml>>,
)
    requires
        is_runtime_hook(out, hook, actions),
    ensures
        out.actions.strip_request_headers@.len() == sum_over(
            views(hook.action@),
            strips(actions),
        ),
        out.actions.inject_request_headers@.len() == sum_over(
            views(hook.action@),
            injects(actions),
        ),
        forall|k: int, j: int|
            0 <= k < hook.action@.len() && action_named(actions, hook.action@[k]@) is Some && 0
                <= j < action_named(actions, hook.action@[k]@)->0.strip_request_headers@.len()
                ==> out.actions.strip_request_headers@[sum_over(
                views(hook.action@).take(k),
                strips(actions),
            ) + j]@ == (#[trigger] action_named(
                actions,
                hook.action@[k]@,
            )->0.strip_request_headers@[j])@,
        forall|k: int, j: int|
            0 <= k < hook.action@.len() && action_named(actions, hook.action@[k]@) is Some && 0
                <= j < action_named(actions, hook.action@[k]@)->0.inject_request_headers@.len()
                ==> injects_the_header(
                out,
                sum_over(views(hook.action@).take(k), injects(actions)) + j,
                #[trigger] action_named(
                    actions,
                    hook.action@[k]@,
                )->0.inject_request_headers@[j],
            ),
{
    let map = crate::permissions::action_map(actions);
    let names = views(hook.action@);
    assert(is_action_map(map, actions));
    count_of_stripped(names, actions, map);
    count_of_injected(names, actions, map);
    let strip = out.actions.strip_request_headers@;
    let inject = out.actions.inject_request_headers@;
    assert(strip.len() == views(strip).len());
    assert(inject.len() == runtime_header_views(inject).len());
    assert forall|k: int, j: int|
        0 <= k < hook.action@.len() && action_named(actions, hook.action@[k]@) is Some && 0 <= j
            < action_named(
            actions,
            hook.action@[k]@,
        )->0.strip_request_headers@.len() implies strip[sum_over(
        names.take(k),
        strips(actions),
    ) + j]@ == (#[trigger] action_named(
        actions,
        hook.action@[k]@,
    )->0.strip_request_headers@[j])@ by {
        assert(names[k] == hook.action@[k]@);
        let header = action_named(actions, names[k])->0.strip_request_headers@[j];
        let at = sum_over(names.take(k), strips(actions)) + j;
        stripped_at(names, actions, map, k, j);
        assert(views(strip)[at] == header@);
    }
    assert forall|k: int, j: int|
        0 <= k < hook.action@.len() && action_named(actions, hook.action@[k]@) is Some && 0 <= j
            < action_named(
            actions,
            hook.action@[k]@,
        )->0.inject_request_headers@.len() implies injects_the_header(
        out,
        sum_over(names.take(k), injects(actions)) + j,
        #[trigger] action_named(actions, hook.action@[k]@)->0.inject_request_headers@[j],
    ) by {
        assert(names[k] == hook.action@[k]@);
        let header = action_named(actions, names[k])->0.inject_request_headers@[j];
        let at = sum_over(names.take(k), injects(actions)) + j;
        injected_at(names, actions, map, k, j);
        assert(runtime_header_views(inject)[at] == header@);
    }
}

/// The proxy's hook injects the header at a place.
pub open spec fn injects_the_header(
    out: MitmHookConfig,
    at: int,
    header: NetworkMitmInjectedHeaderToml,
) -> bool {
    let made = out.actions.inject_request_headers@[at];
    &&& 0 <= at < out.actions.inject_request_headers@.len()
    &&& made.name@ == header.name@
    &&& same_text_or_none(made.secret_env_var, header.secret_env_var)
    &&& same_text_or_none(made.secret_file, header.secret_file)
    &&& same_text_or_none(made.prefix, header.prefix)
}

/// Both are the same text, or both are none.
pub open spec fn same_text_or_none(a: Option<String>, b: Option<String>) -> bool {
    &&& a is Some <==> b is Some
    &&& a is Some ==> a->0@ == b->0@
}

/// Both maps hold the same lists under the same keys.
pub open spec fn same_lists(a: Map<Seq<char>, Vec<String>>, b: Map<Seq<char>, Vec<String>>) -> bool {
    forall|key: Seq<char>|
        (#[trigger] a.contains_key(key) <==> b.contains_key(key)) && (a.contains_key(key)
            ==> views(a[key]@) == views(b[key]@))
}

/// The proxy's hook catches the same requests as the profile's.
pub proof fn hooks_catch_what_they_say(
    out: MitmHookConfig,
    hook: NetworkMitmHookToml,
    actions: Option<StringMap<NetworkMitmActionToml>>,
)
    requires
        is_runtime_hook(out, hook, actions),
    ensures
        out.host@ == hook.host@,
        views(out.matcher.methods@) == views(hook.methods@),
        views(out.matcher.path_prefixes@) == views(hook.path_prefixes@),
        same_lists(out.matcher.query@, hook.query@),
        same_lists(out.matcher.headers@, hook.headers@),
        out.matcher.body is Some <==> hook.body is Some,
        out.matcher.body is Some ==> out.matcher.body->0@ == hook.body->0@,
{
    lists_are_same(out.matcher.query@, hook.query@);
    lists_are_same(out.matcher.headers@, hook.headers@);
}

proof fn lists_are_same(a: Map<Seq<char>, Vec<String>>, b: Map<Seq<char>, Vec<String>>)
    requires
        crate::permissions::lists_view(a) == crate::permissions::lists_view(b),
    ensures
        same_lists(a, b),
{
    let x = crate::permissions::lists_view(a);
    let y = crate::permissions::lists_view(b);
    assert forall|key: Seq<char>|
        (#[trigger] a.contains_key(key) <==> b.contains_key(key)) && (a.contains_key(key)
            ==> views(a[key]@) == views(b[key]@)) by {
        assert(x.contains_key(key) <==> a.contains_key(key));
        assert(y.contains_key(key) <==> b.contains_key(key));
        if a.contains_key(key) {
            assert(x[key] == views(a[key]@));
            assert(y[key] == views(b[key]@));
        }
    }
}

// ---------------------------------------------------------------------------
// Settings
// ---------------------------------------------------------------------------

/// A setting is the one that is given, or the old one where none is.
pub open spec fn is_set<T>(after: T, given: Option<T>, before: T) -> bool {
    &&& given is Some ==> after == given->0
    &&& given is None ==> after == before
}

/// A text is the one that is given, or the old one where none is.
pub open spec fn is_set_text(after: String, given: Option<String>, before: String) -> bool {
    &&& given is Some ==> after@ == given->0@
    &&& given is None ==> after@ == before@
}

/// Every setting that a profile gives is the proxy's, and every other one stays as it was.
pub proof fn profiles_set_what_they_give(
    toml: NetworkToml,
    before: NetworkProxySettings,
    after: NetworkProxySettings,
)
    requires
        is_applied(toml, before, after),
    ensures
        is_set(after.enabled, toml.enabled, before.enabled),
        is_set_text(after.proxy_url, toml.proxy_url, before.proxy_url),
        is_set(after.enable_socks5, toml.enable_socks5, before.enable_socks5),
        is_set_text(after.socks_url, toml.socks_url, before.socks_url),
        is_set(after.enable_socks5_udp, toml.enable_socks5_udp, before.enable_socks5_udp),
        is_set(after.allow_upstream_proxy, toml.allow_upstream_proxy, before.allow_upstream_proxy),
        is_set(
            after.dangerously_allow_non_loopback_proxy,
            toml.dangerously_allow_non_loopback_proxy,
            before.dangerously_allow_non_loopback_proxy,
        ),
        is_set(
            after.dangerously_allow_all_unix_sockets,
            toml.dangerously_allow_all_unix_sockets,
            before.dangerously_allow_all_unix_sockets,
        ),
        is_set(after.mode, toml.mode, before.mode),
        is_set(after.allow_local_binding, toml.allow_local_binding, before.allow_local_binding),
        toml.mitm is Some ==> is_set(after.mitm, toml.mitm->0.enabled, before.mitm),
        toml.mitm is None ==> after.mitm == before.mitm,
{
}

/// The permission of a socket, where there is one.
pub open spec fn socket_permission(
    sockets: Option<StringMap<NetworkUnixSocketPermissionToml>>,
    path: Seq<char>,
) -> Option<NetworkUnixSocketPermissionToml> {
    if sockets is Some && sockets->0@.contains_key(path) {
        Some(sockets->0@[path])
    } else {
        None
    }
}

/// A socket has the permission that a profile gives it, or the one that it had; where no socket
/// has any, there are none.
pub proof fn profiles_set_sockets(
    toml: NetworkToml,
    before: NetworkProxySettings,
    after: NetworkProxySettings,
    path: Seq<char>,
)
    requires
        is_applied(toml, before, after),
    ensures
        toml.unix_sockets is Some && toml.unix_sockets->0.entries@.contains_key(path)
            ==> socket_permission(after.unix_sockets, path) == Some(
            toml.unix_sockets->0.entries@[path],
        ),
        !(toml.unix_sockets is Some && toml.unix_sockets->0.entries@.contains_key(path))
            ==> socket_permission(after.unix_sockets, path) == socket_permission(
            before.unix_sockets,
            path,
        ),
        toml.unix_sockets is Some ==> (after.unix_sockets is None <==> forall|p: Seq<char>|
            (#[trigger] socket_permission(after.unix_sockets, p)) is None),
{
    let merged = crate::permissions::socket_map(after.unix_sockets);
    let old_map = crate::permissions::socket_map(before.unix_sockets);
    assert forall|p: Seq<char>| (#[trigger] socket_permission(after.unix_sockets, p)) is Some
        <==> merged.contains_key(p) by {}
    assert(socket_permission(before.unix_sockets, path) is Some <==> old_map.contains_key(path));
    if toml.unix_sockets is Some {
        if forall|p: Seq<char>| (#[trigger] socket_permission(after.unix_sockets, p)) is None {
            assert forall|p: Seq<char>| !merged.contains_key(p) by {
                assert(socket_permission(after.unix_sockets, p) is None);
            }
            assert(merged =~= Map::empty());
        }
    }
}

/// The patterns of a profile are put into the proxy's domains behind those that are to be put
/// there already: one for each pattern, with its permission, in the order of the profile.
pub proof fn profiles_put_in_their_domains(
    toml: NetworkToml,
    before: NetworkProxySettings,
    after: NetworkProxySettings,
)
    requires
        is_applied(toml, before, after),
    ensures
        after.domain_upserts@.len() == before.domain_upserts@.len() + match toml.domains {
            Some(domains) => domains.entries.items().len(),
            None => 0,
        },
        forall|i: int|
            0 <= i < before.domain_upserts@.len() ==> (#[trigger] after.domain_upserts@[i])@
                == before.domain_upserts@[i]@,
        toml.domains is Some ==> forall|i: int|
            0 <= i < toml.domains->0.entries.items().len() ==> puts_in(
                after,
                before.domain_upserts@.len() + i,
                #[trigger] toml.domains->0.entries.items()[i],
            ),
{
    let a = domain_views(before.domain_upserts@);
    let c = domain_views(after.domain_upserts@);
    assert(a.len() == before.domain_upserts@.len());
    assert(c.len() == after.domain_upserts@.len());
    assert forall|i: int| 0 <= i < before.domain_upserts@.len() implies (
    #[trigger] after.domain_upserts@[i])@ == before.domain_upserts@[i]@ by {
        assert(c[i] == a[i]);
    }
    if toml.domains is Some {
        let items = toml.domains->0.entries.items();
        assert forall|i: int| 0 <= i < items.len() implies puts_in(
            after,
            before.domain_upserts@.len() + i,
            #[trigger] items[i],
        ) by {
            assert(c[a.len() + i].pattern == items[i].0@);
            assert(after.domain_upserts@[a.len() + i]@ == c[a.len() + i]);
        }
    }
}

/// At a place the proxy puts in the pattern with its permission.
pub open spec fn puts_in(
    after: NetworkProxySettings,
    at: int,
    item: (String, NetworkDomainPermissionToml),
) -> bool {
    &&& 0 <= at < after.domain_upserts@.len()
    &&& after.domain_upserts@[at].pattern@ == item.0@
    &&& after.domain_upserts@[at].permission == item.1
}

/// The hooks of a profile take the place of the proxy's, one for each; without any, the proxy
/// keeps its own.
pub proof fn profiles_replace_hooks(
    toml: NetworkToml,
    before: NetworkProxySettings,
    after: NetworkProxySettings,
)
    requires
        is_applied(toml, before, after),
    ensures
        toml.mitm is Some && toml.mitm->0.hooks is Some ==> {
            let hooks = toml.mitm->0.hooks->0.items();
            &&& after.mitm_hooks@.len() == hooks.len()
            &&& forall|i: int|
                0 <= i < hooks.len() ==> is_runtime_hook(
                    #[trigger] after.mitm_hooks@[i],
                    hooks[i].1,
                    toml.mitm->0.actions,
                )
        },
        !(toml.mitm is Some && toml.mitm->0.hooks is Some) ==> after.mitm_hooks@
            == before.mitm_hooks@,
{
}

// ---------------------------------------------------------------------------
// Lists
// ---------------------------------------------------------------------------

/// A list of patterns holds exactly those with the permission, each once and in order, and is left
/// out exactly where there are none.
pub proof fn domain_lists_are_complete(
    items: Seq<(String, NetworkDomainPermissionToml)>,
    permission: NetworkDomainPermissionToml,
)
    requires
        keys_ascend(items),
    ensures
        forall|i: int|
            0 <= i < items.len() ==> (domains_with(items, permission).contains(
                #[trigger] items[i].0@,
            ) <==> items[i].1 == permission),
        forall|p: Seq<char>| #[trigger]
            domains_with(items, permission).contains(p) ==> exists|i: int|
                0 <= i < items.len() && #[trigger] items[i].0@ == p,
        forall|i: int, j: int|
            0 <= i < j < domains_with(items, permission).len() ==> text_less(
                #[trigger] domains_with(items, permission)[i],
                #[trigger] domains_with(items, permission)[j],
            ),
        some_list(domains_with(items, permission)) is None <==> forall|i: int|
            0 <= i < items.len() ==> (#[trigger] items[i]).1 != permission,
        some_list(domains_with(items, permission)) is Some ==> some_list(
            domains_with(items, permission),
        )->0 == domains_with(items, permission),
{
    items_map_holds_items(items);
    let listed = domains_with(items, permission);
    assert forall|i: int| 0 <= i < items.len() implies (listed.contains(#[trigger] items[i].0@)
        <==> items[i].1 == permission) by {
        domains_are_split(items, permission, items[i].0@);
    }
    assert forall|p: Seq<char>| #[trigger] listed.contains(p) implies exists|i: int|
        0 <= i < items.len() && #[trigger] items[i].0@ == p by {
        domains_are_split(items, permission, p);
    }
    filtered_keys_ascend(items, has_permission(permission));
    if listed.len() == 0 {
        assert forall|i: int| 0 <= i < items.len() implies (#[trigger] items[i]).1
            != permission by {
            assert(!listed.contains(items[i].0@));
        }
    } else {
        assert(listed.contains(listed[0]));
        let i = choose|i: int| 0 <= i < items.len() && #[trigger] items[i].0@ == listed[0];
        assert(items[i].1 == permission);
    }
}

proof fn filtered_keys_ascend<V>(items: Seq<(String, V)>, keep: spec_fn((String, V)) -> bool)
    requires
        keys_ascend(items),
    ensures
        forall|i: int, j: int|
            0 <= i < j < items.filter(keep).len() ==> text_less(
                #[trigger] keys_of(items.filter(keep))[i],
                #[trigger] keys_of(items.filter(keep))[j],
            ),
    decreases items.len(),
{
    reveal(Seq::filter);
    if items.len() > 0 {
        let before = items.drop_last();
        assert(keys_ascend(before)) by {
            assert forall|i: int, j: int| 0 <= i < j < before.len() implies text_less(
                #[trigger] before[i].0@,
                #[trigger] before[j].0@,
            ) by {
                assert(before[i] == items[i] && before[j] == items[j]);
            }
        }
        filtered_keys_ascend(before, keep);
        let head = before.filter(keep);
        let out = items.filter(keep);
        assert forall|i: int, j: int| 0 <= i < j < out.len() implies text_less(
            #[trigger] keys_of(out)[i],
            #[trigger] keys_of(out)[j],
        ) by {
            assert(out[i] == head[i]);
            if j < head.len() {
                assert(out[j] == head[j]);
                assert(text_less(keys_of(head)[i], keys_of(head)[j]));
            } else {
                assert(head.contains(head[i]));
                before.lemma_filter_contains_rev(keep, head[i]);
                let k = choose|k: int| 0 <= k < before.len() && before[k] == head[i];
                assert(items[k] == head[i]);
                assert(text_less(items[k].0@, items[items.len() - 1].0@));
            }
        }
    }
}

/// The list of allowed sockets holds exactly those that are allowed, each once and in order.
pub proof fn socket_lists_are_complete(items: Seq<(String, NetworkUnixSocketPermissionToml)>)
    requires
        keys_ascend(items),
    ensures
        forall|i: int|
            0 <= i < items.len() && (#[trigger] items[i]).1 is Allow ==> allowed_sockets(
                items,
            ).contains(items[i].0@),
        forall|p: Seq<char>| #[trigger]
            allowed_sockets(items).contains(p) ==> exists|i: int|
                0 <= i < items.len() && #[trigger] items[i].0@ == p && items[i].1 is Allow,
        forall|i: int, j: int|
            0 <= i < j < allowed_sockets(items).len() ==> text_less(
                #[trigger] allowed_sockets(items)[i],
                #[trigger] allowed_sockets(items)[j],
            ),
{
    let keep = allows_socket();
    let kept = items.filter(keep);
    let listed = allowed_sockets(items);
    filtered_keys_ascend(items, keep);
    assert forall|i: int| 0 <= i < items.len() && (#[trigger] items[i]).1 is Allow implies
        listed.contains(items[i].0@) by {
        items.lemma_filter_contains(keep, i);
        let k = choose|k: int| 0 <= k < kept.len() && kept[k] == items[i];
        assert(listed[k] == items[i].0@);
    }
    assert forall|p: Seq<char>| #[trigger] listed.contains(p) implies exists|i: int|
        0 <= i < items.len() && #[trigger] items[i].0@ == p && items[i].1 is Allow by {
        let k = choose|k: int| 0 <= k < listed.len() && listed[k] == p;
        assert(kept.contains(kept[k]));
        items.lemma_filter_contains_rev(keep, kept[k]);
        items.lemma_filter_pred(keep, k);
        let i = choose|i: int| 0 <= i < items.len() && items[i] == kept[k];
        assert(items[i].0@ == p && items[i].1 is Allow);
    }
}

// ---------------------------------------------------------------------------
// Faults
// ---------------------------------------------------------------------------

/// The action neither strips nor injects anything.
pub open spec fn is_idle(action: NetworkMitmActionToml) -> bool {
    action.strip_request_headers@.len() == 0 && action.inject_request_headers@.len() == 0
}

/// The hook names at least one action, and every action that it names is defined.
pub open spec fn is_sound(
    hook: NetworkMitmHookToml,
    actions: Option<StringMap<NetworkMitmActionToml>>,
) -> bool {
    &&& hook.action@.len() > 0
    &&& forall|k: int|
        0 <= k < hook.action@.len() ==> action_named(
            actions,
            (#[trigger] hook.action@[k])@,
        ) is Some
}

/// The complaint is that the action `i` is the first idle one.
pub open spec fn blames_action(
    message: Seq<char>,
    items: Seq<(String, NetworkMitmActionToml)>,
    i: int,
) -> bool {
    &&& 0 <= i < items.len()
    &&& is_idle(items[i].1)
    &&& forall|j: int| 0 <= j < i ==> !is_idle((#[trigger] items[j]).1)
    &&& message == "network.mitm.actions."@ + items[i].0@ + " must define at least one operation"@
}

/// The complaint is about the hook `i`, which is the first unsound one: it names no action, or
/// the action `k` that it names is the first that is not defined.
pub open spec fn blames_hook(
    message: Seq<char>,
    items: Seq<(String, NetworkMitmHookToml)>,
    actions: Option<StringMap<NetworkMitmActionToml>>,
    i: int,
    k: int,
) -> bool {
    let hook = items[i].1;
    &&& 0 <= i < items.len()
    &&& forall|j: int| 0 <= j < i ==> is_sound((#[trigger] items[j]).1, actions)
    &&& {
        ||| hook.action@.len() == 0 && message == "network.mitm.hooks."@ + items[i].0@
            + ".action must not be empty"@
        ||| {
            &&& 0 <= k < hook.action@.len()
            &&& action_named(actions, hook.action@[k]@) is None
            &&& forall|j: int|
                0 <= j < k ==> action_named(actions, (#[trigger] hook.action@[j])@) is Some
            &&& message == "network.mitm.hooks."@ + items[i].0@
                + ".action references undefined action `"@ + hook.action@[k]@ + "`"@
        }
    }
}

proof fn first_idle_action(items: Seq<(String, NetworkMitmActionToml)>)
    ensures
        first_empty_action(items) is None ==> forall|i: int|
            0 <= i < items.len() ==> !is_idle((#[trigger] items[i]).1),
        first_empty_action(items) is Some ==> exists|i: int|
            0 <= i < items.len() && is_idle((#[trigger] items[i]).1) && items[i].0@
                == first_empty_action(items)->0 && forall|j: int|
                0 <= j < i ==> !is_idle((#[trigger] items[j]).1),
    decreases items.len(),
{
    if items.len() > 0 && !items[0].1.does_nothing() {
        let rest = items.drop_first();
        first_idle_action(rest);
        assert(!is_idle(items[0].1));
        if first_empty_action(items) is None {
            assert forall|i: int| 0 <= i < items.len() implies !is_idle((#[trigger] items[i]).1) by {
                if i > 0 {
                    assert(rest[i - 1] == items[i]);
                }
            }
        } else {
            let r = choose|r: int|
                0 <= r < rest.len() && is_idle((#[trigger] rest[r]).1) && rest[r].0@
                    == first_empty_action(rest)->0 && forall|j: int|
                    0 <= j < r ==> !is_idle((#[trigger] rest[j]).1);
            assert(items[r + 1] == rest[r]);
            assert forall|j: int| 0 <= j < r + 1 implies !is_idle((#[trigger] items[j]).1) by {
                if j > 0 {
                    assert(rest[j - 1] == items[j]);
                }
            }
        }
    }
}

proof fn first_missing_name(
    names: Seq<Seq<char>>,
    actions: Option<StringMap<NetworkMitmActionToml>>,
)
    ensures
        first_undefined(names, actions) is None ==> forall|k: int|
            0 <= k < names.len() ==> action_named(actions, #[trigger] names[k]) is Some,
        first_undefined(names, actions) is Some ==> exists|k: int|
            0 <= k < names.len() && action_named(actions, #[trigger] names[k]) is None && names[k]
                == first_undefined(names, actions)->0 && forall|j: int|
                0 <= j < k ==> action_named(actions, #[trigger] names[j]) is Some,
    decreases names.len(),
{
    if names.len() > 0 && crate::permissions::is_defined(actions, names[0]) {
        let rest = names.drop_first();
        first_missing_name(rest, actions);
        assert(action_named(actions, names[0]) is Some);
        if first_undefined(names, actions) is None {
            assert forall|k: int| 0 <= k < names.len() implies action_named(
                actions,
                #[trigger] names[k],
            ) is Some by {
                if k > 0 {
                    assert(rest[k - 1] == names[k]);
                }
            }
        } else {
            let r = choose|r: int|
                0 <= r < rest.len() && action_named(actions, #[trigger] rest[r]) is None && rest[r]
                    == first_undefined(rest, actions)->0 && forall|j: int|
                    0 <= j < r ==> action_named(actions, #[trigger] rest[j]) is Some;
            assert(names[r + 1] == rest[r]);
            assert forall|j: int| 0 <= j < r + 1 implies action_named(
                actions,
                #[trigger] names[j],
            ) is Some by {
                if j > 0 {
                    assert(rest[j - 1] == names[j]);
                }
            }
        }
    }
}

proof fn first_unsound_hook(
    items: Seq<(String, NetworkMitmHookToml)>,
    actions: Option<StringMap<NetworkMitmActionToml>>,
)
    ensures
        first_hook_fault(items, actions) is None ==> forall|i: int|
            0 <= i < items.len() ==> is_sound((#[trigger] items[i]).1, actions),
        first_hook_fault(items, actions) is Some ==> exists|i: int, k: int| #[trigger]
            blames_hook(first_hook_fault(items, actions)->0, items, actions, i, k),
    decreases items.len(),
{
    if items.len() > 0 {
        let hook = items[0].1;
        let names = views(hook.action@);
        first_missing_name(names, actions);
        assert forall|k: int| 0 <= k < hook.action@.len() implies (#[trigger] hook.action@[k])@
            == names[k] by {}
        let rest = items.drop_first();
        first_unsound_hook(rest, actions);
        if hook.action@.len() == 0 {
            assert(blames_hook(first_hook_fault(items, actions)->0, items, actions, 0, 0));
        } else if first_undefined(names, actions) is Some {
            let k = choose|k: int|
                0 <= k < names.len() && action_named(actions, #[trigger] names[k]) is None
                    && names[k] == first_undefined(names, actions)->0 && forall|j: int|
                    0 <= j < k ==> action_named(actions, #[trigger] names[j]) is Some;
            assert(hook.action@[k]@ == names[k]);
            assert(blames_hook(first_hook_fault(items, actions)->0, items, actions, 0, k));
        } else {
            assert(is_sound(hook, actions));
            if first_hook_fault(items, actions) is None {
                assert forall|i: int| 0 <= i < items.len() implies is_sound(
                    (#[trigger] items[i]).1,
                    actions,
                ) by {
                    if i > 0 {
                        assert(rest[i - 1] == items[i]);
                    }
                }
            } else {
                let message = first_hook_fault(rest, actions)->0;
                let (r, k) = choose|r: int, k: int| #[trigger]
                    blames_hook(message, rest, actions, r, k);
                assert(items[r + 1] == rest[r]);
                assert forall|j: int| 0 <= j < r + 1 implies is_sound(
                    (#[trigger] items[j]).1,
                    actions,
                ) by {
                    if j > 0 {
                        assert(rest[j - 1] == items[j]);
                    }
                }
                assert(blames_hook(message, items, actions, r + 1, k));
            }
        }
    }
}

/// An interception section is accepted exactly if every action does something and every hook names
/// actions, all of them defined. Otherwise the complaint is about the first idle action, or where
/// there is none about the first unsound hook.
pub proof fn faults_are_found(mitm: NetworkMitmToml)
    ensures
        mitm.fault() is None <==> {
            &&& mitm.actions is Some ==> forall|i: int|
                0 <= i < mitm.actions->0.items().len() ==> !is_idle(
                    (#[trigger] mitm.actions->0.items()[i]).1,
                )
            &&& mitm.hooks is Some ==> forall|i: int|
                0 <= i < mitm.hooks->0.items().len() ==> is_sound(
                    (#[trigger] mitm.hooks->0.items()[i]).1,
                    mitm.actions,
                )
        },
        mitm.fault() is Some ==> {
            ||| mitm.actions is Some && exists|i: int| #[trigger]
                blames_action(mitm.fault()->0, mitm.actions->0.items(), i)
            ||| {
                &&& mitm.actions is Some ==> forall|i: int|
                    0 <= i < mitm.actions->0.items().len() ==> !is_idle(
                        (#[trigger] mitm.actions->0.items()[i]).1,
                    )
                &&& mitm.hooks is Some
                &&& exists|i: int, k: int| #[trigger]
                    blames_hook(mitm.fault()->0, mitm.hooks->0.items(), mitm.actions, i, k)
            }
        },
{
    if mitm.actions is Some {
        let items = mitm.actions->0.items();
        first_idle_action(items);
        if first_empty_action(items) is Some {
            let i = choose|i: int|
                0 <= i < items.len() && is_idle((#[trigger] items[i]).1) && items[i].0@
                    == first_empty_action(items)->0 && forall|j: int|
                    0 <= j < i ==> !is_idle((#[trigger] items[j]).1);
            assert(blames_action(mitm.fault()->0, items, i));
        }
    }
    if mitm.hooks is Some {
        let items = mitm.hooks->0.items();
        first_unsound_hook(items, mitm.actions);
        if first_hook_fault(items, mitm.actions) is Some {
            let (i, k) = choose|i: int, k: int| #[trigger]
                blames_hook(first_hook_fault(items, mitm.actions)->0, items, mitm.actions, i, k);
            assert(!is_sound(items[i].1, mitm.actions));
        }
    }
}

} // verus!

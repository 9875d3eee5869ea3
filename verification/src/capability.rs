//! The capability metadata that ACP messages carry: the reserved object
//! `symposium` inside a message's `meta`, with one boolean per capability.

use crate::error::opt_json_view;
use crate::json::{lookup, with_member, without_member, Json, JsonView};
use crate::json::{lookup_put_other, lookup_put_same, lookup_without_other, lookup_without_same};
use vstd::prelude::*;

verus! {

/// The name of the reserved object inside `meta`.
pub open spec fn namespace() -> Seq<char> {
    "symposium"@
}

/// The capability by which a component offers or accepts the proxy role.
pub open spec fn proxy_capability() -> Seq<char> {
    "proxy"@
}

/// The capability by which an agent says that it speaks MCP over ACP itself.
pub open spec fn mcp_acp_transport_capability() -> Seq<char> {
    "mcp_acp_transport"@
}

/// The reserved object of `meta`, if it has one.
pub open spec fn namespace_of(meta: Option<JsonView>) -> Option<JsonView> {
    match meta {
        Some(m) => lookup(m, namespace()),
        None => None,
    }
}

/// Whether `meta` holds the capability `name`, set to `true`.
pub open spec fn holds(meta: Option<JsonView>, name: Seq<char>) -> bool {
    match namespace_of(meta) {
        Some(ns) => lookup(ns, name) == Some(JsonView::Bool(true)),
        None => false,
    }
}

/// `meta` with the capability `name` set to `true`. Every other member of
/// `meta`, and every other capability, stays.
pub open spec fn granted(meta: Option<JsonView>, name: Seq<char>) -> Option<JsonView> {
    let m = match meta {
        Some(m) => m,
        None => JsonView::Null,
    };
    let ns = match lookup(m, namespace()) {
        Some(ns) => ns,
        None => JsonView::Null,
    };
    Some(with_member(m, namespace(), with_member(ns, name, JsonView::Bool(true))))
}

/// `meta` without the capability `name`. Where `meta` has no reserved
/// object it is left as it is.
pub open spec fn revoked(meta: Option<JsonView>, name: Seq<char>) -> Option<JsonView> {
    match meta {
        Some(m) => match lookup(m, namespace()) {
            Some(ns) => Some(with_member(m, namespace(), without_member(ns, name))),
            None => Some(m),
        },
        None => None,
    }
}

/// Whether `meta` holds the capability `name`.
pub fn has_capability(meta: &Option<Json>, name: &str) -> (r: bool)
    ensures
        r == holds(opt_json_view(*meta), name@),
{
    match meta {
        Some(m) => match m.get("symposium") {
            Some(ns) => match ns.get(name) {
                Some(flag) => flag.is_true(),
                None => false,
            },
            None => false,
        },
        None => false,
    }
}

/// `meta` with the capability `name` added.
pub fn add_capability(meta: Option<Json>, name: &str) -> (r: Option<Json>)
    ensures
        opt_json_view(r) == granted(opt_json_view(meta), name@),
{
    let m = match meta {
        Some(m) => m,
        None => Json::Null,
    };
    let ns = match m.get("symposium") {
        Some(ns) => ns.clone(),
        None => Json::Null,
    };
    let ns = ns.set(name, Json::Bool(true));
    Some(m.set("symposium", ns))
}

/// `meta` with the capability `name` taken out.
pub fn remove_capability(meta: Option<Json>, name: &str) -> (r: Option<Json>)
    ensures
        opt_json_view(r) == revoked(opt_json_view(meta), name@),
{
    match meta {
        Some(m) => {
            let ns = match m.get("symposium") {
                Some(ns) => Some(ns.clone()),
                None => None,
            };
            match ns {
                Some(ns) => {
                    let ns = ns.remove(name);
                    Some(m.set("symposium", ns))
                },
                None => Some(m),
            }
        },
        None => None,
    }
}

/// A capability that was granted is held.
pub proof fn granted_is_held(meta: Option<JsonView>, name: Seq<char>)
    ensures
        holds(granted(meta, name), name),
{
    let m = match meta {
        Some(m) => m,
        None => JsonView::Null,
    };
    let ns = match lookup(m, namespace()) {
        Some(ns) => ns,
        None => JsonView::Null,
    };
    lookup_put_same(crate::json::members_of(m), namespace(), with_member(ns, name, JsonView::Bool(true)));
    lookup_put_same(crate::json::members_of(ns), name, JsonView::Bool(true));
}

/// A capability that was revoked is not held.
pub proof fn revoked_is_not_held(meta: Option<JsonView>, name: Seq<char>)
    ensures
        !holds(revoked(meta, name), name),
{
    match meta {
        Some(m) => match lookup(m, namespace()) {
            Some(ns) => {
                lookup_put_same(crate::json::members_of(m), namespace(), without_member(ns, name));
                lookup_without_same(ns, name);
            },
            None => {},
        },
        None => {},
    }
}

/// Granting one capability neither adds nor removes another.
pub proof fn granted_keeps_others(meta: Option<JsonView>, name: Seq<char>, other: Seq<char>)
    requires
        other != name,
    ensures
        holds(granted(meta, name), other) == holds(meta, other),
{
    let m = match meta {
        Some(m) => m,
        None => JsonView::Null,
    };
    let ns = match lookup(m, namespace()) {
        Some(ns) => ns,
        None => JsonView::Null,
    };
    lookup_put_same(crate::json::members_of(m), namespace(), with_member(ns, name, JsonView::Bool(true)));
    lookup_put_other(crate::json::members_of(ns), name, JsonView::Bool(true), other);
    crate::json::find_from_is_first(crate::json::members_of(ns), other, 0);
}

/// Revoking one capability neither adds nor removes another.
pub proof fn revoked_keeps_others(meta: Option<JsonView>, name: Seq<char>, other: Seq<char>)
    requires
        other != name,
    ensures
        holds(revoked(meta, name), other) == holds(meta, other),
{
    match meta {
        Some(m) => match lookup(m, namespace()) {
            Some(ns) => {
                lookup_put_same(crate::json::members_of(m), namespace(), without_member(ns, name));
                lookup_without_other(ns, name, other);
            },
            None => {},
        },
        None => {},
    }
}

/// Granting or revoking a capability leaves every member of `meta` but the
/// reserved object as it was.
pub proof fn capabilities_keep_other_members(meta: JsonView, name: Seq<char>, key: Seq<char>)
    requires
        key != namespace(),
    ensures
        lookup(granted(Some(meta), name)->Some_0, key) == lookup(meta, key),
        lookup(revoked(Some(meta), name)->Some_0, key) == lookup(meta, key),
{
    let ns = match lookup(meta, namespace()) {
        Some(ns) => ns,
        None => JsonView::Null,
    };
    lookup_put_other(
        crate::json::members_of(meta),
        namespace(),
        with_member(ns, name, JsonView::Bool(true)),
        key,
    );
    lookup_put_other(crate::json::members_of(meta), namespace(), without_member(ns, name), key);
    crate::json::find_from_is_first(crate::json::members_of(meta), key, 0);
}

} // verus!

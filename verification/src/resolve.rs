//! Resolver: turns a (group name, command name) request against a catalog
//! into an ordered list of work items, applying per-host alias overrides.

use vstd::prelude::*;
use crate::config::{
    entries_view, lookup, lookup_entry, Command, CommandView, Host, HostView, Hosts, HostsView,
    MusshToml, MusshTomlView,
};

verus! {

/// Why resolution failed.  Resolution errors are fatal to the whole run:
/// nothing is executed and no connection is opened.
#[derive(Clone, Copy, PartialEq, Eq, Structural, Debug)]
pub enum ResolveError {
    /// The requested group name is not in the catalog's group mapping.
    UnknownGroup,
    /// The requested command name is not in the catalog's command mapping.
    UnknownCommand,
    /// The group references a host name absent from the host catalog.
    UnknownHost,
}

/// Spec-level image of a [`ResolvedWorkItem`].
#[verifier::ext_equal]
pub struct WorkItemView {
    pub name: Seq<char>,
    pub host: HostView,
    pub command: Seq<char>,
}

/// One resolved unit of work: a host (by catalog name), its connection
/// spec, and the effective command string to run there.  Created fresh per
/// run and immutable afterwards.
#[derive(Debug)]
pub struct ResolvedWorkItem {
    pub name: String,
    pub host: Host,
    pub command: String,
}

impl View for ResolvedWorkItem {
    type V = WorkItemView;

    open spec fn view(&self) -> WorkItemView {
        WorkItemView { name: self.name@, host: self.host@, command: self.command@ }
    }
}

/// The override string of the last alias for `cname`, if any.  When a
/// host declares several aliases for one command name, the one declared
/// last wins.
pub open spec fn alias_lookup(aliases: Seq<crate::config::AliasView>, cname: Seq<char>) -> Option<
    Seq<char>,
>
    decreases aliases.len(),
{
    if aliases.len() == 0 {
        None
    } else if aliases.last().aliasfor == cname {
        Some(aliases.last().command)
    } else {
        alias_lookup(aliases.drop_last(), cname)
    }
}

/// The command a host runs for command name `cname` whose base template is
/// `base`: the host's alias override when one matches, else `base`.
pub open spec fn effective_command(h: HostView, cname: Seq<char>, base: Seq<char>) -> Seq<char> {
    match alias_lookup(h.alias, cname) {
        Some(c) => c,
        None => base,
    }
}

/// The group mapping entry for `g`, if any.
pub open spec fn group_of(c: MusshTomlView, g: Seq<char>) -> Option<HostsView> {
    match c.hostlist {
        Some(m) => lookup(m, g),
        None => None,
    }
}

/// The host mapping entry for `h`, if any.
pub open spec fn host_of(c: MusshTomlView, h: Seq<char>) -> Option<HostView> {
    match c.hosts {
        Some(m) => lookup(m, h),
        None => None,
    }
}

/// The command mapping entry for `n`, if any.
pub open spec fn cmd_of(c: MusshTomlView, n: Seq<char>) -> Option<CommandView> {
    match c.cmd {
        Some(m) => lookup(m, n),
        None => None,
    }
}

/// Resolution succeeds exactly when the group and the command exist and
/// every host the group lists is in the host catalog.
pub open spec fn resolve_ok(c: MusshTomlView, g: Seq<char>, cname: Seq<char>) -> bool {
    &&& group_of(c, g) is Some
    &&& cmd_of(c, cname) is Some
    &&& forall|i: int|
        0 <= i < group_of(c, g).unwrap().hostnames.len() ==> host_of(
            c,
            group_of(c, g).unwrap().hostnames[i],
        ) is Some
}

/// Which error resolution reports when it fails: an unknown group is
/// reported first, then an unknown command, then an unknown host.
pub open spec fn resolve_err(c: MusshTomlView, g: Seq<char>, cname: Seq<char>) -> ResolveError {
    if group_of(c, g) is None {
        ResolveError::UnknownGroup
    } else if cmd_of(c, cname) is None {
        ResolveError::UnknownCommand
    } else {
        ResolveError::UnknownHost
    }
}

/// The work items a successful resolution yields: one per host name of the
/// group, in the group's declared order, each carrying the host's spec and
/// its effective command.
pub open spec fn resolved_items(c: MusshTomlView, g: Seq<char>, cname: Seq<char>) -> Seq<
    WorkItemView,
>
    recommends
        resolve_ok(c, g, cname),
{
    group_of(c, g).unwrap().hostnames.map_values(
        |hn: Seq<char>|
            WorkItemView {
                name: hn,
                host: host_of(c, hn).unwrap(),
                command: effective_command(
                    host_of(c, hn).unwrap(),
                    cname,
                    cmd_of(c, cname).unwrap().command,
                ),
            },
    )
}

/// Spec-level image of a work-item list.
pub open spec fn items_view(items: Seq<ResolvedWorkItem>) -> Seq<WorkItemView> {
    items.map_values(|w: ResolvedWorkItem| w@)
}

/// The command `host` runs for command name `cmd_name` whose base template
/// is `base`: the last matching alias override, else the base string.
pub fn effective_cmd(host: &Host, cmd_name: &String, base: &String) -> (r: String)
    ensures
        r@ == effective_command(host@, cmd_name@, base@),
{
    let ghost aliases = host@.alias;
    let n = host.alias.len();
    let mut found: Option<&String> = None;
    let mut i: usize = 0;
    proof {
        assert(aliases.take(0) =~= Seq::<crate::config::AliasView>::empty());
    }
    while i < n
        invariant
            n == host.alias@.len(),
            aliases == host@.alias,
            aliases.len() == n,
            i <= n,
            match found {
                Some(c) => alias_lookup(aliases.take(i as int), cmd_name@) == Some(c@),
                None => alias_lookup(aliases.take(i as int), cmd_name@) is None,
            },
        decreases n - i,
    {
        proof {
            assert(aliases[i as int] == host.alias@[i as int]@);
            assert(aliases.take(i as int + 1).drop_last() =~= aliases.take(i as int));
            assert(aliases.take(i as int + 1).last() == aliases[i as int]);
        }
        let a = &host.alias[i];
        if a.aliasfor.eq(cmd_name) {
            found = Some(&a.command);
        }
        i += 1;
    }
    proof {
        assert(aliases.take(n as int) =~= aliases);
    }
    match found {
        Some(c) => c.clone(),
        None => base.clone(),
    }
}

/// Turns a (group, command) request into the ordered work-item list, or the
/// resolution error.  Deterministic: the result is a function of the
/// catalog's content and the two names alone.
pub fn resolve(catalog: &MusshToml, group: &String, cmd_name: &String) -> (r: Result<
    Vec<ResolvedWorkItem>,
    ResolveError,
>)
    ensures
        r is Ok <==> resolve_ok(catalog@, group@, cmd_name@),
        r matches Ok(items) ==> items_view(items@) == resolved_items(catalog@, group@, cmd_name@),
        r matches Err(e) ==> e == resolve_err(catalog@, group@, cmd_name@),
{
    let ghost c = catalog@;
    let group_hosts = match &catalog.hostlist {
        Some(m) => match lookup_entry(m, group) {
            Some(h) => h,
            None => {
                return Err(ResolveError::UnknownGroup);
            },
        },
        None => {
            return Err(ResolveError::UnknownGroup);
        },
    };
    let base = match &catalog.cmd {
        Some(m) => match lookup_entry(m, cmd_name) {
            Some(cm) => cm,
            None => {
                return Err(ResolveError::UnknownCommand);
            },
        },
        None => {
            return Err(ResolveError::UnknownCommand);
        },
    };
    let ghost g_view = group_of(c, group@).unwrap();
    let ghost base_view = cmd_of(c, cmd_name@).unwrap();
    let mut items: Vec<ResolvedWorkItem> = Vec::new();
    let n = group_hosts.hostnames.len();
    proof {
        assert(g_view.hostnames.len() == n);
    }
    let mut i: usize = 0;
    while i < n
        invariant
            c == catalog@,
            n == group_hosts.hostnames@.len(),
            group_of(c, group@) == Some(group_hosts@),
            g_view == group_hosts@,
            cmd_of(c, cmd_name@) == Some(base_view),
            base_view.command == base.command@,
            i <= n,
            items@.len() == i,
            forall|j: int| 0 <= j < i ==> host_of(c, g_view.hostnames[j]) is Some,
            forall|j: int|
                0 <= j < i ==> #[trigger] items@[j]@ == (WorkItemView {
                    name: g_view.hostnames[j],
                    host: host_of(c, g_view.hostnames[j]).unwrap(),
                    command: effective_command(
                        host_of(c, g_view.hostnames[j]).unwrap(),
                        cmd_name@,
                        base_view.command,
                    ),
                }),
        decreases n - i,
    {
        proof {
            assert(g_view.hostnames[i as int] == group_hosts.hostnames@[i as int]@);
        }
        let hn = &group_hosts.hostnames[i];
        let host = match &catalog.hosts {
            Some(m) => match lookup_entry(m, hn) {
                Some(h) => h,
                None => {
                    assert(host_of(c, g_view.hostnames[i as int]) is None);
                    return Err(ResolveError::UnknownHost);
                },
            },
            None => {
                assert(host_of(c, g_view.hostnames[i as int]) is None);
                return Err(ResolveError::UnknownHost);
            },
        };
        let command = effective_cmd(host, cmd_name, &base.command);
        items.push(ResolvedWorkItem { name: hn.clone(), host: host.clone(), command });
        i += 1;
    }
    proof {
        assert(items_view(items@) =~= resolved_items(c, group@, cmd_name@));
    }
    Ok(items)
}

/// For every group/command pair the catalog can resolve, the work-item
/// list has exactly one item per host of the group, and its order is the
/// group's declared host order.
pub proof fn lemma_resolve_length_order(c: MusshTomlView, g: Seq<char>, cname: Seq<char>)
    requires
        resolve_ok(c, g, cname),
    ensures
        resolved_items(c, g, cname).len() == group_of(c, g).unwrap().hostnames.len(),
        forall|i: int|
            0 <= i < resolved_items(c, g, cname).len() ==> #[trigger] resolved_items(
                c,
                g,
                cname,
            )[i].name == group_of(c, g).unwrap().hostnames[i],
{
}

/// A host with an alias entry for the requested command runs the alias
/// string (the last matching entry, when several share the name), never
/// the base command string.
pub proof fn lemma_alias_overrides(c: MusshTomlView, g: Seq<char>, cname: Seq<char>, i: int)
    requires
        resolve_ok(c, g, cname),
        0 <= i < resolved_items(c, g, cname).len(),
        alias_lookup(resolved_items(c, g, cname)[i].host.alias, cname) is Some,
    ensures
        resolved_items(c, g, cname)[i].command == alias_lookup(
            resolved_items(c, g, cname)[i].host.alias,
            cname,
        ).unwrap(),
{
}

/// A host without a matching alias runs the catalog's base command
/// template exactly, unchanged.
pub proof fn lemma_base_without_alias(c: MusshTomlView, g: Seq<char>, cname: Seq<char>, i: int)
    requires
        resolve_ok(c, g, cname),
        0 <= i < resolved_items(c, g, cname).len(),
        alias_lookup(resolved_items(c, g, cname)[i].host.alias, cname) is None,
    ensures
        resolved_items(c, g, cname)[i].command == cmd_of(c, cname).unwrap().command,
{
}

/// Resolution is idempotent: it is a function of the catalog's content
/// and the two names alone, so re-running it with the same content always
/// yields the identical result — whether it succeeds, the work-item list,
/// and the error are all the same.
pub proof fn lemma_resolve_deterministic(
    a: &MusshToml,
    b: &MusshToml,
    g: Seq<char>,
    cname: Seq<char>,
)
    requires
        a@ == b@,
    ensures
        resolve_ok(a@, g, cname) == resolve_ok(b@, g, cname),
        resolved_items(a@, g, cname) == resolved_items(b@, g, cname),
        resolve_err(a@, g, cname) == resolve_err(b@, g, cname),
{
}

} // verus!

//! Catalog data model: host groups, host connection specs, command
//! templates and per-host command aliases.
//!
//! The catalog is an already-parsed, read-only input to the engine.  Each
//! mapping is kept as an ordered list of `(name, value)` entries; lookup
//! returns the first entry with the requested name.

use vstd::prelude::*;

verus! {

/// Spec-level image of an [`Alias`].
#[verifier::ext_equal]
pub struct AliasView {
    pub command: Seq<char>,
    pub aliasfor: Seq<char>,
}

/// Spec-level image of a [`Hosts`] group.
#[verifier::ext_equal]
pub struct HostsView {
    pub hostnames: Seq<Seq<char>>,
}

/// Spec-level image of a [`Host`] connection spec.
#[verifier::ext_equal]
pub struct HostView {
    pub hostname: Seq<char>,
    pub pem: Option<Seq<char>>,
    pub port: Option<u16>,
    pub username: Seq<char>,
    pub alias: Seq<AliasView>,
}

/// Spec-level image of a [`Command`].
#[verifier::ext_equal]
pub struct CommandView {
    pub command: Seq<char>,
}

/// Spec-level image of a [`MusshToml`] catalog.
#[verifier::ext_equal]
pub struct MusshTomlView {
    pub hostlist: Option<Seq<(Seq<char>, HostsView)>>,
    pub hosts: Option<Seq<(Seq<char>, HostView)>>,
    pub cmd: Option<Seq<(Seq<char>, CommandView)>>,
}

/// A command-name override for one host: when the requested command name
/// equals `aliasfor`, the host runs `command` in place of the catalog's
/// base command string.
#[derive(Debug)]
pub struct Alias {
    pub command: String,
    pub aliasfor: String,
}

/// A named, ordered group of host names.
#[derive(Debug)]
pub struct Hosts {
    pub hostnames: Vec<String>,
}

/// Connection parameters for one host: network address, login name, an
/// optional TCP port (22 when absent), an optional private-key path, and
/// the host's command aliases.
#[derive(Debug)]
pub struct Host {
    pub hostname: String,
    pub pem: Option<String>,
    pub port: Option<u16>,
    pub username: String,
    pub alias: Vec<Alias>,
}

/// A literal shell command template, stored verbatim.
#[derive(Debug)]
pub struct Command {
    pub command: String,
}

/// The catalog: group name to host names, host name to connection spec,
/// and command name to command template.  Every mapping is optional, as a
/// configuration document may omit any of the three sections.
#[derive(Debug)]
pub struct MusshToml {
    pub hostlist: Option<Vec<(String, Hosts)>>,
    pub hosts: Option<Vec<(String, Host)>>,
    pub cmd: Option<Vec<(String, Command)>>,
}

impl View for Alias {
    type V = AliasView;

    open spec fn view(&self) -> AliasView {
        AliasView { command: self.command@, aliasfor: self.aliasfor@ }
    }
}

impl View for Hosts {
    type V = HostsView;

    open spec fn view(&self) -> HostsView {
        HostsView { hostnames: self.hostnames@.map_values(|h: String| h@) }
    }
}

impl View for Host {
    type V = HostView;

    open spec fn view(&self) -> HostView {
        HostView {
            hostname: self.hostname@,
            pem: match self.pem {
                Some(p) => Some(p@),
                None => None,
            },
            port: self.port,
            username: self.username@,
            alias: self.alias@.map_values(|a: Alias| a@),
        }
    }
}

impl View for Command {
    type V = CommandView;

    open spec fn view(&self) -> CommandView {
        CommandView { command: self.command@ }
    }
}

/// Spec-level image of one name-to-value entry list.
pub open spec fn entries_view<T: View>(entries: Seq<(String, T)>) -> Seq<(Seq<char>, T::V)> {
    entries.map_values(|p: (String, T)| (p.0@, p.1@))
}

impl View for MusshToml {
    type V = MusshTomlView;

    open spec fn view(&self) -> MusshTomlView {
        MusshTomlView {
            hostlist: match self.hostlist {
                Some(m) => Some(entries_view(m@)),
                None => None,
            },
            hosts: match self.hosts {
                Some(m) => Some(entries_view(m@)),
                None => None,
            },
            cmd: match self.cmd {
                Some(m) => Some(entries_view(m@)),
                None => None,
            },
        }
    }
}

/// The value of the first entry named `k`, if any.
pub open spec fn lookup<T>(m: Seq<(Seq<char>, T)>, k: Seq<char>) -> Option<T>
    decreases m.len(),
{
    if m.len() == 0 {
        None
    } else if m[0].0 == k {
        Some(m[0].1)
    } else {
        lookup(m.drop_first(), k)
    }
}

proof fn lemma_lookup_skip<T>(m: Seq<(Seq<char>, T)>, k: Seq<char>, i: int)
    requires
        0 <= i < m.len(),
        m[i].0 != k,
    ensures
        lookup(m.skip(i), k) == lookup(m.skip(i + 1), k),
{
    assert(m.skip(i).drop_first() =~= m.skip(i + 1));
}

/// First entry named `key` in an ordered entry list, scanning from the
/// front, as the spec-level [`lookup`] does.
pub fn lookup_entry<'a, T: View>(entries: &'a Vec<(String, T)>, key: &String) -> (r: Option<
    &'a T,
>)
    ensures
        match r {
            Some(v) => lookup(entries_view(entries@), key@) == Some(v@),
            None => lookup(entries_view(entries@), key@) is None,
        },
{
    let ghost m = entries_view(entries@);
    proof {
        assert(m.skip(0) =~= m);
    }
    let n = entries.len();
    let mut i: usize = 0;
    while i < n
        invariant
            n == entries@.len(),
            m == entries_view(entries@),
            m.len() == n,
            i <= n,
            lookup(m, key@) == lookup(m.skip(i as int), key@),
        decreases n - i,
    {
        proof {
            assert(m[i as int] == (entries@[i as int].0@, entries@[i as int].1@));
        }
        let e = &entries[i];
        if e.0.eq(key) {
            assert(m.skip(i as int)[0] == m[i as int]);
            return Some(&e.1);
        }
        proof {
            lemma_lookup_skip(m, key@, i as int);
        }
        i += 1;
    }
    assert(m.skip(n as int).len() == 0);
    None
}

impl Clone for Alias {
    fn clone(&self) -> (r: Self)
        ensures
            r@ == self@,
    {
        Alias { command: self.command.clone(), aliasfor: self.aliasfor.clone() }
    }
}

impl Clone for Host {
    fn clone(&self) -> (r: Self)
        ensures
            r@ == self@,
    {
        let mut alias: Vec<Alias> = Vec::new();
        let n = self.alias.len();
        let mut i: usize = 0;
        while i < n
            invariant
                n == self.alias@.len(),
                i <= n,
                alias@.len() == i,
                forall|j: int| 0 <= j < i ==> alias@[j]@ == self.alias@[j]@,
            decreases n - i,
        {
            alias.push(self.alias[i].clone());
            i += 1;
        }
        let r = Host {
            hostname: self.hostname.clone(),
            pem: match &self.pem {
                Some(p) => Some(p.clone()),
                None => None,
            },
            port: self.port,
            username: self.username.clone(),
            alias,
        };
        proof {
            assert(r@.alias =~= self@.alias);
            assert(r@ =~= self@);
        }
        r
    }
}

impl MusshToml {
    /// A catalog built from its three already-parsed mappings.
    pub fn new(
        hostlist: Option<Vec<(String, Hosts)>>,
        hosts: Option<Vec<(String, Host)>>,
        cmd: Option<Vec<(String, Command)>>,
    ) -> (r: MusshToml)
        ensures
            r == (MusshToml { hostlist, hosts, cmd }),
    {
        MusshToml { hostlist, hosts, cmd }
    }

    /// The group mapping, if the catalog has one.
    pub fn hostlist(&self) -> (r: Option<&Vec<(String, Hosts)>>)
        ensures
            match r {
                Some(m) => self.hostlist == Some(*m),
                None => self.hostlist is None,
            },
    {
        match self.hostlist {
            Some(ref h) => Some(h),
            None => None,
        }
    }

    /// The host mapping, if the catalog has one.
    pub fn hosts(&self) -> (r: Option<&Vec<(String, Host)>>)
        ensures
            match r {
                Some(m) => self.hosts == Some(*m),
                None => self.hosts is None,
            },
    {
        match self.hosts {
            Some(ref h) => Some(h),
            None => None,
        }
    }

    /// The command mapping, if the catalog has one.
    pub fn cmd(&self) -> (r: Option<&Vec<(String, Command)>>)
        ensures
            match r {
                Some(m) => self.cmd == Some(*m),
                None => self.cmd is None,
            },
    {
        match self.cmd {
            Some(ref c) => Some(c),
            None => None,
        }
    }
}

impl Hosts {
    /// The group's host names, in declared order.
    pub fn hostnames(&self) -> (r: &Vec<String>)
        ensures
            r == &self.hostnames,
    {
        &self.hostnames
    }
}

impl Host {
    /// The network address to connect to.
    pub fn hostname(&self) -> (r: &String)
        ensures
            r == &self.hostname,
    {
        &self.hostname
    }

    /// The configured TCP port, if any; connection uses 22 when absent.
    pub fn port(&self) -> (r: Option<u16>)
        ensures
            r == self.port,
    {
        self.port
    }

    /// The TCP port a session connects to: the configured port when one
    /// is set, else 22.
    pub fn effective_port(&self) -> (r: u16)
        ensures
            r == (match self.port {
                Some(p) => p,
                None => 22u16,
            }),
    {
        match self.port {
            Some(p) => p,
            None => 22,
        }
    }

    /// The login name.
    pub fn username(&self) -> (r: &String)
        ensures
            r == &self.username,
    {
        &self.username
    }

    /// The private-key path, if one is configured.
    pub fn pem(&self) -> (r: Option<&String>)
        ensures
            match r {
                Some(p) => self.pem == Some(*p),
                None => self.pem is None,
            },
    {
        match self.pem {
            Some(ref p) => Some(p),
            None => None,
        }
    }

    /// The host's aliases as `(command name, override string)` entries, in
    /// declared order, or `None` when the host declares no alias.  When
    /// several entries share a command name, resolution lets the last one
    /// win.
    pub fn alias(&self) -> (r: Option<Vec<(String, String)>>)
        ensures
            match r {
                Some(v) => self.alias@.len() > 0 && v@.len() == self.alias@.len() && forall|
                    i: int,
                |
                    0 <= i < v@.len() ==> v@[i].0@ == self.alias@[i]@.aliasfor && v@[i].1@
                        == self.alias@[i]@.command,
                None => self.alias@.len() == 0,
            },
    {
        let n = self.alias.len();
        if n == 0 {
            return None;
        }
        let mut aliases: Vec<(String, String)> = Vec::new();
        let mut i: usize = 0;
        while i < n
            invariant
                n == self.alias@.len(),
                i <= n,
                aliases@.len() == i,
                forall|j: int|
                    0 <= j < i ==> aliases@[j].0@ == self.alias@[j]@.aliasfor && aliases@[j].1@
                        == self.alias@[j]@.command,
            decreases n - i,
        {
            let a = &self.alias[i];
            aliases.push((a.aliasfor.clone(), a.command.clone()));
            i += 1;
        }
        Some(aliases)
    }
}

impl Command {
    /// The literal command template.
    pub fn command(&self) -> (r: &String)
        ensures
            r == &self.command,
    {
        &self.command
    }
}

impl Alias {
    /// The override command string.
    pub fn command(&self) -> (r: &String)
        ensures
            r == &self.command,
    {
        &self.command
    }

    /// The command name this alias overrides.
    pub fn aliasfor(&self) -> (r: &String)
        ensures
            r == &self.aliasfor,
    {
        &self.aliasfor
    }
}

} // verus!

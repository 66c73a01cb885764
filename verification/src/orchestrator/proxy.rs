//! The runtimes on a node and the routes to them.

use crate::ids::SandboxId;
use crate::orchestrator::metadata::SandboxMetadata;
use crate::orchestrator::types::SandboxState;
use crate::text;
use std::collections::HashMap;
use vstd::prelude::*;

verus! {

/// The address of a guest on its host.
#[derive(Clone, Copy, Debug, PartialEq, Eq, Structural)]
pub struct ProxyTarget {
    pub first: u8,
    pub second: u8,
    pub third: u8,
    pub fourth: u8,
}

impl ProxyTarget {
    pub fn new(first: u8, second: u8, third: u8, fourth: u8) -> (target: ProxyTarget)
        ensures
            target == (ProxyTarget { first, second, third, fourth }),
    {
        ProxyTarget { first, second, third, fourth }
    }

    pub open spec fn shown(self) -> Seq<char> {
        text::decimal(self.first as nat) + "."@ + text::decimal(self.second as nat) + "."@
            + text::decimal(self.third as nat) + "."@ + text::decimal(self.fourth as nat)
    }

    pub fn to_text(self) -> (shown: String)
        ensures
            shown@ == self.shown(),
    {
        text::concat7(
            text::decimal_text(self.first as u64).as_str(),
            ".",
            text::decimal_text(self.second as u64).as_str(),
            ".",
            text::decimal_text(self.third as u64).as_str(),
            ".",
            text::decimal_text(self.fourth as u64).as_str(),
        )
    }
}

/// A route to a guest. Every publication of a route has a version of its own.
#[derive(Clone, Copy, Debug, PartialEq, Eq, Structural)]
pub struct ProxyRoute {
    pub target: ProxyTarget,
    pub version: u64,
}

/// Whether a sandbox can be reached.
#[derive(Clone, Copy, Debug, PartialEq, Eq, Structural)]
pub enum ProxyLookupResult {
    Ready(ProxyTarget),
    NotFound,
    /// The sandbox runs, and no route to it is known.
    RouteMissing,
    Paused { auto_resume: bool },
    Unavailable(SandboxState),
}

/// What a lookup finds, given the route and the metadata of a sandbox.
pub open spec fn found(route: Option<ProxyRoute>, metadata: Option<SandboxMetadata>) -> ProxyLookupResult {
    match (route, metadata) {
        (Some(route), _) => ProxyLookupResult::Ready(route.target),
        (None, None) => ProxyLookupResult::NotFound,
        (None, Some(metadata)) => match metadata.state {
            SandboxState::Running => ProxyLookupResult::RouteMissing,
            SandboxState::Paused => ProxyLookupResult::Paused { auto_resume: metadata.auto_resume },
            state => ProxyLookupResult::Unavailable(state),
        },
    }
}

/// The runtimes by sandbox, each under a number that tells one runtime of a sandbox from the next,
/// and the routes to them.
#[derive(Debug)]
pub struct RuntimeTable {
    runtimes: HashMap<u128, u64>,
    routes: HashMap<u128, ProxyRoute>,
    next_version: u64,
}

impl RuntimeTable {
    /// The runtime of each sandbox.
    pub closed spec fn runtimes(&self) -> Map<u128, u64> {
        self.runtimes@
    }

    /// The route to each sandbox.
    pub closed spec fn routes(&self) -> Map<u128, ProxyRoute> {
        self.routes@
    }

    /// The version of the next route.
    pub closed spec fn next_version(&self) -> u64 {
        self.next_version
    }

    /// The version after the next one.
    pub open spec fn version_after(&self) -> u64 {
        if self.next_version() == u64::MAX {
            0
        } else {
            (self.next_version() + 1) as u64
        }
    }

    pub fn new() -> (table: RuntimeTable)
        ensures
            table.runtimes() == Map::<u128, u64>::empty(),
            table.routes() == Map::<u128, ProxyRoute>::empty(),
            table.next_version() == 1,
    {
        broadcast use vstd::std_specs::hash::group_hash_axioms;

        RuntimeTable { runtimes: HashMap::new(), routes: HashMap::new(), next_version: 1 }
    }

    /// The runtime of a sandbox.
    pub fn runtime(&self, sandbox_id: SandboxId) -> (runtime: Option<u64>)
        ensures
            match runtime {
                Some(runtime) => self.runtimes().contains_key(sandbox_id.value)
                    && self.runtimes()[sandbox_id.value] == runtime,
                None => !self.runtimes().contains_key(sandbox_id.value),
            },
    {
        broadcast use vstd::std_specs::hash::group_hash_axioms;

        match self.runtimes.get(&sandbox_id.value) {
            Some(runtime) => Some(*runtime),
            None => None,
        }
    }

    /// The route to a sandbox.
    pub fn route(&self, sandbox_id: SandboxId) -> (route: Option<ProxyRoute>)
        ensures
            match route {
                Some(route) => self.routes().contains_key(sandbox_id.value)
                    && self.routes()[sandbox_id.value] == route,
                None => !self.routes().contains_key(sandbox_id.value),
            },
    {
        broadcast use vstd::std_specs::hash::group_hash_axioms;

        match self.routes.get(&sandbox_id.value) {
            Some(route) => Some(*route),
            None => None,
        }
    }

    /// Registers the runtime of a sandbox.
    pub fn attach(&mut self, sandbox_id: SandboxId, runtime: u64)
        ensures
            final(self).runtimes() == old(self).runtimes().insert(sandbox_id.value, runtime),
            final(self).routes() == old(self).routes(),
            final(self).next_version() == old(self).next_version(),
    {
        broadcast use vstd::std_specs::hash::group_hash_axioms;

        self.runtimes.insert(sandbox_id.value, runtime);
    }

    /// Publishes a route under a version of its own.
    pub fn upsert_proxy_route(&mut self, sandbox_id: SandboxId, target: ProxyTarget)
        ensures
            final(self).runtimes() == old(self).runtimes(),
            final(self).routes() == old(self).routes().insert(
                sandbox_id.value,
                ProxyRoute { target, version: old(self).next_version() },
            ),
            final(self).next_version() == old(self).version_after(),
    {
        broadcast use vstd::std_specs::hash::group_hash_axioms;

        let version: u64 = self.next_version;
        self.next_version =
        if version == u64::MAX {
            0
        } else {
            version + 1
        };
        self.routes.insert(sandbox_id.value, ProxyRoute { target, version });
    }

    /// Publishes a route to a runtime, unless another runtime has taken its place.
    pub fn upsert_proxy_route_if_current_handle(
        &mut self,
        sandbox_id: SandboxId,
        runtime: u64,
        target: ProxyTarget,
    ) -> (published: bool)
        ensures
            published == (old(self).runtimes().contains_key(sandbox_id.value) && old(
                self,
            ).runtimes()[sandbox_id.value] == runtime),
            final(self).runtimes() == old(self).runtimes(),
            published ==> final(self).routes() == old(self).routes().insert(
                sandbox_id.value,
                ProxyRoute { target, version: old(self).next_version() },
            ) && final(self).next_version() == old(self).version_after(),
            !published ==> final(self).routes() == old(self).routes() && final(self).next_version()
                == old(self).next_version(),
    {
        match self.runtime(sandbox_id) {
            Some(current) => if current == runtime {
                self.upsert_proxy_route(sandbox_id, target);
                true
            } else {
                false
            },
            None => false,
        }
    }

    /// Publishes a route again that was taken out.
    pub fn restore_proxy_route(&mut self, sandbox_id: SandboxId, route: Option<ProxyRoute>)
        ensures
            final(self).runtimes() == old(self).runtimes(),
            match route {
                Some(route) => final(self).routes() == old(self).routes().insert(
                    sandbox_id.value,
                    ProxyRoute { target: route.target, version: old(self).next_version() },
                ) && final(self).next_version() == old(self).version_after(),
                None => final(self).routes() == old(self).routes() && final(self).next_version()
                    == old(self).next_version(),
            },
    {
        if let Some(route) = route {
            self.upsert_proxy_route(sandbox_id, route.target);
        }
    }

    /// Takes a runtime and the route to it out.
    pub fn detach_sandbox_handle_and_route(&mut self, sandbox_id: SandboxId) -> (detached: (
        Option<u64>,
        Option<ProxyRoute>,
    ))
        ensures
            final(self).runtimes() == old(self).runtimes().remove(sandbox_id.value),
            final(self).routes() == old(self).routes().remove(sandbox_id.value),
            final(self).next_version() == old(self).next_version(),
            match detached.0 {
                Some(runtime) => old(self).runtimes().contains_key(sandbox_id.value) && old(
                    self,
                ).runtimes()[sandbox_id.value] == runtime,
                None => !old(self).runtimes().contains_key(sandbox_id.value),
            },
            match detached.1 {
                Some(route) => old(self).routes().contains_key(sandbox_id.value) && old(
                    self,
                ).routes()[sandbox_id.value] == route,
                None => !old(self).routes().contains_key(sandbox_id.value),
            },
    {
        broadcast use vstd::std_specs::hash::group_hash_axioms;

        let runtime = self.runtime(sandbox_id);
        let route = self.route(sandbox_id);
        let _removed_runtime = self.runtimes.remove(&sandbox_id.value);
        let _removed_route = self.routes.remove(&sandbox_id.value);
        (runtime, route)
    }

    /// Takes the runtime of a failed launch out, and tells whether the shared state of the sandbox
    /// is to be rolled back: not where another runtime has taken its place.
    pub fn detach_launch_runtime_if_current(
        &mut self,
        sandbox_id: SandboxId,
        runtime: u64,
        detach_proxy_route: bool,
    ) -> (rolls_back: bool)
        ensures
            ({
                let known = old(self).runtimes().contains_key(sandbox_id.value);
                let current = known && old(self).runtimes()[sandbox_id.value] == runtime;
                &&& rolls_back == (!known || current)
                &&& final(self).runtimes() == if current {
                    old(self).runtimes().remove(sandbox_id.value)
                } else {
                    old(self).runtimes()
                }
                &&& final(self).routes() == if current && detach_proxy_route {
                    old(self).routes().remove(sandbox_id.value)
                } else {
                    old(self).routes()
                }
                &&& final(self).next_version() == old(self).next_version()
            }),
    {
        broadcast use vstd::std_specs::hash::group_hash_axioms;

        match self.runtime(sandbox_id) {
            None => true,
            Some(current) => {
                if current != runtime {
                    return false;
                }
                let _removed_runtime = self.runtimes.remove(&sandbox_id.value);
                if detach_proxy_route {
                    let _removed_route = self.routes.remove(&sandbox_id.value);
                }
                true
            },
        }
    }
}

/// Tells whether a sandbox can be reached: by its route where there is one, else by its metadata.
pub fn proxy_lookup_for(route: Option<ProxyRoute>, metadata: &Option<SandboxMetadata>) -> (lookup:
    ProxyLookupResult)
    ensures
        lookup == found(route, *metadata),
{
    if let Some(route) = route {
        return ProxyLookupResult::Ready(route.target);
    }
    match metadata {
        None => ProxyLookupResult::NotFound,
        Some(metadata) => match metadata.state {
            SandboxState::Running => ProxyLookupResult::RouteMissing,
            SandboxState::Paused => ProxyLookupResult::Paused { auto_resume: metadata.auto_resume },
            state => ProxyLookupResult::Unavailable(state),
        },
    }
}

/// A sandbox with a route is reached by it, whatever its metadata says. Without one, a sandbox that is
/// not known is not found; one that runs lacks its route; one that is paused is told as such, with
/// whether it resumes by itself; and for any other its state is told.
pub proof fn routes_come_before_states(route: Option<ProxyRoute>, metadata: Option<SandboxMetadata>)
    ensures
        route is Some <==> found(route, metadata) is Ready,
        route is Some ==> found(route, metadata)->Ready_0 == route->0.target,
        route is None && metadata is None <==> found(route, metadata) is NotFound,
        route is None && metadata is Some && metadata->0.state is Running <==> found(
            route,
            metadata,
        ) is RouteMissing,
        route is None && metadata is Some && metadata->0.state is Paused <==> found(route, metadata)
            is Paused,
        found(route, metadata) matches ProxyLookupResult::Paused { auto_resume } ==> auto_resume
            == metadata->0.auto_resume,
        found(route, metadata) matches ProxyLookupResult::Unavailable(state) ==> metadata->0.state
            == state,
{
}

/// Two routes in a row never have the same version; versions count up until they start anew.
pub proof fn versions_tell_routes_apart(table: RuntimeTable)
    ensures
        table.version_after() != table.next_version(),
        table.next_version() < u64::MAX ==> table.version_after() == table.next_version() + 1,
        table.next_version() == u64::MAX ==> table.version_after() == 0,
{
}

/// An address is written as four numbers with a dot between each two.
pub proof fn addresses_are_written_with_dots(address: ProxyTarget)
    ensures
        ({
            let (a, b, c, d) = (
                text::decimal(address.first as nat),
                text::decimal(address.second as nat),
                text::decimal(address.third as nat),
                text::decimal(address.fourth as nat),
            );
            &&& address.shown().len() == a.len() + b.len() + c.len() + d.len() + 3
            &&& a.is_prefix_of(address.shown())
            &&& d.is_suffix_of(address.shown())
            &&& address.shown()[a.len() as int] == '.'
            &&& address.shown()[(a.len() + b.len() + 1) as int] == '.'
            &&& address.shown()[(a.len() + b.len() + c.len() + 2) as int] == '.'
            &&& address.shown().subrange(a.len() as int + 1, (a.len() + b.len() + 1) as int) == b
            &&& address.shown().subrange(
                (a.len() + b.len() + 2) as int,
                (a.len() + b.len() + c.len() + 2) as int,
            ) == c
        }),
{
    reveal_strlit(".");
    let (a, b, c, d) = (
        text::decimal(address.first as nat),
        text::decimal(address.second as nat),
        text::decimal(address.third as nat),
        text::decimal(address.fourth as nat),
    );
    let shown = address.shown();
    assert(shown.take(a.len() as int) =~= a);
    assert(shown.skip(shown.len() - d.len()) =~= d);
    assert(shown.subrange(a.len() as int + 1, (a.len() + b.len() + 1) as int) =~= b);
    assert(shown.subrange(
        (a.len() + b.len() + 2) as int,
        (a.len() + b.len() + c.len() + 2) as int,
    ) =~= c);
}

} // verus!

//! Who stands behind each open connection, by the number of its stream resource.

use std::collections::hash_map::RandomState;

use dashmap::DashMap;
use vstd::prelude::*;

use crate::text::copy_opt;

verus! {

/// A `dashmap::DashMap`, carried as an opaque value.
#[verifier::external_type_specification]
#[verifier::external_body]
#[verifier::reject_recursive_types(K)]
#[verifier::reject_recursive_types(V)]
#[verifier::reject_recursive_types(S)]
pub struct ExDashMap<K, V, S>(DashMap<K, V, S>);

/// What a table of names maps each connection to.
pub uninterp spec fn bound_names(table: DashMap<u32, String, RandomState>) -> Map<u32, Seq<char>>;

/// `DashMap::new` holds nothing.
#[verifier::external_body]
fn new_names() -> (table: DashMap<u32, String, RandomState>)
    ensures
        forall|rep: u32| !(#[trigger] bound_names(table).dom().contains(rep)),
{
    DashMap::new()
}

/// `DashMap::insert` keeps the value under the key, in place of what was there.
#[verifier::external_body]
fn names_insert(table: &mut DashMap<u32, String, RandomState>, rep: u32, name: String)
    ensures
        bound_names(*final(table)) == bound_names(*old(table)).insert(rep, name@),
{
    table.insert(rep, name);
}

/// `DashMap::remove` takes the key out and gives back the value that it held.
#[verifier::external_body]
fn names_remove(table: &mut DashMap<u32, String, RandomState>, rep: u32) -> (name: Option<String>)
    ensures
        bound_names(*final(table)) == bound_names(*old(table)).remove(rep),
        match name {
            Some(text) => bound_names(*old(table)).contains_key(rep) && text@ == bound_names(
                *old(table),
            )[rep],
            None => !bound_names(*old(table)).contains_key(rep),
        },
{
    table.remove(&rep).map(|pair| pair.1)
}

/// The inbound clients of one capsule and the principal each of them counts for.
pub struct ClientConnections {
    table: DashMap<u32, String, RandomState>,
}

impl View for ClientConnections {
    type V = Map<u32, Seq<char>>;

    closed spec fn view(&self) -> Map<u32, Seq<char>> {
        bound_names(self.table)
    }
}

impl ClientConnections {
    /// No client is connected.
    pub fn new() -> (clients: Self)
        ensures
            clients@ == Map::<u32, Seq<char>>::empty(),
    {
        let clients = ClientConnections { table: new_names() };
        assert(clients@ =~= Map::<u32, Seq<char>>::empty());
        clients
    }

    /// The connection `rep` counts for `name`.
    pub fn bind(&mut self, rep: u32, name: String)
        ensures
            final(self)@ == old(self)@.insert(rep, name@),
    {
        names_insert(&mut self.table, rep, name);
    }

    /// The connection `rep` counts no more; the name it counted for is given back.
    pub fn unbind(&mut self, rep: u32) -> (name: Option<String>)
        ensures
            final(self)@ == old(self)@.remove(rep),
            match name {
                Some(text) => old(self)@.contains_key(rep) && text@ == old(self)@[rep],
                None => !old(self)@.contains_key(rep),
            },
    {
        names_remove(&mut self.table, rep)
    }
}

/// The verified identity of a connection.
pub struct ConnectionIdentity {
    /// Who was verified.
    pub principal: String,
    /// The device whose key signed.
    pub device_key_id: Option<String>,
    /// The handle by which requests of this connection are told apart.
    pub request_owner: String,
}

impl ConnectionIdentity {
    /// The same identity.
    pub fn copy(&self) -> (r: Self)
        ensures
            r == *self,
    {
        ConnectionIdentity {
            principal: self.principal.clone(),
            device_key_id: copy_opt(&self.device_key_id),
            request_owner: self.request_owner.clone(),
        }
    }
}

/// What a table of identities maps each connection to.
pub uninterp spec fn bound_identities(
    table: DashMap<u32, ConnectionIdentity, RandomState>,
) -> Map<u32, ConnectionIdentity>;

/// `DashMap::new` holds nothing.
#[verifier::external_body]
fn new_identities() -> (table: DashMap<u32, ConnectionIdentity, RandomState>)
    ensures
        forall|rep: u32| !(#[trigger] bound_identities(table).dom().contains(rep)),
{
    DashMap::new()
}

/// `DashMap::insert` keeps the value under the key, in place of what was there.
#[verifier::external_body]
fn identities_insert(
    table: &mut DashMap<u32, ConnectionIdentity, RandomState>,
    rep: u32,
    identity: ConnectionIdentity,
)
    ensures
        bound_identities(*final(table)) == bound_identities(*old(table)).insert(rep, identity),
{
    table.insert(rep, identity);
}

/// `DashMap::remove` takes the key out.
#[verifier::external_body]
fn identities_remove(table: &mut DashMap<u32, ConnectionIdentity, RandomState>, rep: u32)
    ensures
        bound_identities(*final(table)) == bound_identities(*old(table)).remove(rep),
{
    table.remove(&rep);
}

/// `DashMap::get` reads the value under the key.
#[verifier::external_body]
fn identities_get(table: &DashMap<u32, ConnectionIdentity, RandomState>, rep: u32) -> (identity: Option<
    ConnectionIdentity,
>)
    ensures
        match identity {
            Some(found) => bound_identities(*table).contains_key(rep) && found
                == bound_identities(*table)[rep],
            None => !bound_identities(*table).contains_key(rep),
        },
{
    table.get(&rep).map(|entry| entry.copy())
}

/// The connections of one capsule whose peers were verified.
pub struct Connections {
    table: DashMap<u32, ConnectionIdentity, RandomState>,
}

impl View for Connections {
    type V = Map<u32, ConnectionIdentity>;

    closed spec fn view(&self) -> Map<u32, ConnectionIdentity> {
        bound_identities(self.table)
    }
}

impl Connections {
    /// No connection is bound.
    pub fn new() -> (connections: Self)
        ensures
            connections@ == Map::<u32, ConnectionIdentity>::empty(),
    {
        let connections = Connections { table: new_identities() };
        assert(connections@ =~= Map::<u32, ConnectionIdentity>::empty());
        connections
    }

    /// Binds an identity to the connection `rep`.
    pub fn bind(&mut self, rep: u32, identity: ConnectionIdentity)
        ensures
            final(self)@ == old(self)@.insert(rep, identity),
    {
        identities_insert(&mut self.table, rep, identity);
    }

    /// Removes the binding of `rep`.
    pub fn unbind(&mut self, rep: u32)
        ensures
            final(self)@ == old(self)@.remove(rep),
    {
        identities_remove(&mut self.table, rep);
    }

    /// The identity bound to `rep`.
    pub fn lookup(&self, rep: u32) -> (identity: Option<ConnectionIdentity>)
        ensures
            match identity {
                Some(found) => self@.contains_key(rep) && found == self@[rep],
                None => !self@.contains_key(rep),
            },
    {
        identities_get(&self.table, rep)
    }
}

} // verus!

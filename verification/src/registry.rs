//! The server's tables: which client serves each subdomain, and which public
//! connection waits under each tunnel id for a client's data connection.
//!
//! Clients and public connections are known here by the numbers that the
//! program driving the server gave them; it keeps their channels and sockets.

use vstd::prelude::*;
use dashmap::DashMap;
use crate::http::{extract_subdomain, spec_extract_subdomain};
use crate::protocol::{ControlMessage, ProtocolError, is_registration_ack, registration_ack};

verus! {

#[verifier::external_type_specification]
#[verifier::external_body]
#[verifier::reject_recursive_types(K)]
#[verifier::reject_recursive_types(V)]
#[verifier::reject_recursive_types(S)]
pub struct ExDashMap<K, V, S>(DashMap<K, V, S>);

/// What a table holds: each key with the number stored under it.
pub uninterp spec fn table_entries(m: DashMap<String, u64>) -> Map<Seq<char>, u64>;

/// The number stored under `key`, if any.
pub open spec fn lookup(m: Map<Seq<char>, u64>, key: Seq<char>) -> Option<u64> {
    if m.dom().contains(key) {
        Some(m[key])
    } else {
        None
    }
}

/// `DashMap::new`: an empty map.
#[verifier::external_body]
fn table_new() -> (table: DashMap<String, u64>)
    ensures
        table_entries(table).dom() == Set::<Seq<char>>::empty(),
{
    DashMap::new()
}

/// `DashMap::insert`: stores `value` under `key`, replacing what was there,
/// and returns the value that the key had. The map is taken by `&mut`,
/// though `insert` needs only `&`, so that the change to it can be stated.
#[verifier::external_body]
fn table_insert(m: &mut DashMap<String, u64>, key: String, value: u64) -> (prev: Option<u64>)
    ensures
        table_entries(*final(m)) == table_entries(*old(m)).insert(key@, value),
        prev == lookup(table_entries(*old(m)), key@),
{
    m.insert(key, value)
}

/// `DashMap::get`: the value stored under `key`, if any.
#[verifier::external_body]
fn table_get(m: &DashMap<String, u64>, key: &str) -> (v: Option<u64>)
    ensures
        v == lookup(table_entries(*m), key@),
{
    m.get(key).map(|entry| *entry.value())
}

/// `DashMap::remove`: takes the entry of `key` out of the map and returns its
/// value, if it had one. The map is taken by `&mut` for the same reason as in
/// `table_insert`.
#[verifier::external_body]
fn table_remove(m: &mut DashMap<String, u64>, key: &str) -> (v: Option<u64>)
    ensures
        table_entries(*final(m)) == table_entries(*old(m)).remove(key@),
        v == lookup(table_entries(*old(m)), key@),
{
    m.remove(key).map(|(_, value)| value)
}

/// The form in which `Uuid::to_string` writes a version-4 UUID: 36
/// characters, hyphens at 8, 13, 18 and 23, lower-case hexadecimal digits
/// elsewhere, the version digit `4` at 14 and a variant digit of `8` to `b`
/// at 19.
pub open spec fn is_uuid_v4_text(s: Seq<char>) -> bool {
    &&& s.len() == 36
    &&& forall|i: int|
        0 <= i < 36 ==> if i == 8 || i == 13 || i == 18 || i == 23 {
            #[trigger] s[i] == '-'
        } else {
            ('0' <= s[i] && s[i] <= '9') || ('a' <= s[i] && s[i] <= 'f')
        }
    &&& s[14] == '4'
    &&& ('8' <= s[19] && s[19] <= '9') || ('a' <= s[19] && s[19] <= 'b')
}

/// `Uuid::new_v4`, formatted by `to_string`: a fresh random tunnel id.
/// Nothing is said of which id comes, only of its form; `new_v4` panics
/// when the operating system gives no random bytes.
#[verifier::external_body]
fn new_tunnel_id() -> (id: String)
    ensures
        is_uuid_v4_text(id@),
{
    uuid::Uuid::new_v4().to_string()
}

/// The server's tables as maps.
pub struct ServerModel {
    /// Each registered subdomain with the client that serves it.
    pub clients: Map<Seq<char>, u64>,
    /// Each tunnel id with the public connection that waits under it.
    pub pending: Map<Seq<char>, u64>,
}

impl ServerModel {
    /// The client that serves `subdomain`.
    pub open spec fn client_of(self, subdomain: Seq<char>) -> Option<u64> {
        lookup(self.clients, subdomain)
    }

    /// The public connection that waits under `tunnel_id`.
    pub open spec fn waiting_under(self, tunnel_id: Seq<char>) -> Option<u64> {
        lookup(self.pending, tunnel_id)
    }

    pub open spec fn with_client(self, subdomain: Seq<char>, client: u64) -> ServerModel {
        ServerModel { clients: self.clients.insert(subdomain, client), ..self }
    }

    pub open spec fn without_client(self, subdomain: Seq<char>) -> ServerModel {
        ServerModel { clients: self.clients.remove(subdomain), ..self }
    }

    pub open spec fn with_waiting(self, tunnel_id: Seq<char>, conn: u64) -> ServerModel {
        ServerModel { pending: self.pending.insert(tunnel_id, conn), ..self }
    }

    pub open spec fn without_waiting(self, tunnel_id: Seq<char>) -> ServerModel {
        ServerModel { pending: self.pending.remove(tunnel_id), ..self }
    }

    /// The client that a public request is routed to.
    pub open spec fn route_target(self, request: Seq<char>) -> Option<u64> {
        self.client_of(spec_extract_subdomain(request))
    }

    /// The tables after a public request was admitted under `tunnel_id`.
    pub open spec fn after_route(self, request: Seq<char>, conn: u64, tunnel_id: Seq<char>) -> ServerModel {
        match self.route_target(request) {
            Some(_) => self.with_waiting(tunnel_id, conn),
            None => self,
        }
    }
}

/// A registration that the server accepted.
pub struct Registration {
    /// The subdomain the client now serves.
    pub subdomain: String,
    /// The answer to send the client.
    pub ack: ControlMessage,
    /// The client that served the subdomain before, if one did.
    pub displaced: Option<u64>,
}

/// Where a public connection goes.
#[derive(Debug)]
pub enum PublicRoute {
    /// A client serves the subdomain: the connection waits under
    /// `tunnel_id`, and `message` tells the client so.
    Notify { subdomain: String, client: u64, tunnel_id: String, message: ControlMessage },
    /// No client serves the subdomain.
    NoSuchTunnel { subdomain: String },
}

/// Where a client's data connection goes.
#[derive(Debug, PartialEq, Eq)]
pub enum DataRoute {
    /// It meets the public connection that waited under the id.
    Bridge { tunnel_id: String, conn: u64 },
    /// Nothing waits under the id.
    Unknown { tunnel_id: String },
}

/// `route` is the answer to `request` from the tables `before`, with the
/// tables `after` it, when the connection waits under `tunnel_id`.
pub open spec fn is_route(
    before: ServerModel,
    after: ServerModel,
    request: Seq<char>,
    conn: u64,
    tunnel_id: Seq<char>,
    route: PublicRoute,
) -> bool {
    &&& after == before.after_route(request, conn, tunnel_id)
    &&& match before.route_target(request) {
        Some(c) => {
            &&& route matches PublicRoute::Notify { subdomain, client, tunnel_id: t, message }
            &&& subdomain@ == spec_extract_subdomain(request)
            &&& client == c
            &&& t@ == tunnel_id
            &&& message matches ControlMessage::NewConnection { tunnel_id: m } && m@ == tunnel_id
        },
        None => route matches PublicRoute::NoSuchTunnel { subdomain } && subdomain@
            == spec_extract_subdomain(request),
    }
}

/// The tunnel id a route names, or nothing.
pub open spec fn route_tunnel_id(route: PublicRoute) -> Seq<char> {
    match route {
        PublicRoute::Notify { tunnel_id, .. } => tunnel_id@,
        PublicRoute::NoSuchTunnel { .. } => Seq::empty(),
    }
}

/// The tunnel id that a data connection's opening message claims.
pub open spec fn claimed_id(msg: ControlMessage) -> Option<Seq<char>> {
    match msg {
        ControlMessage::ConnectionAck { tunnel_id } => Some(tunnel_id@),
        _ => None,
    }
}

/// The server's tables.
pub struct ServerState {
    clients: DashMap<String, u64>,
    pending: DashMap<String, u64>,
}

impl View for ServerState {
    type V = ServerModel;

    closed spec fn view(&self) -> ServerModel {
        ServerModel { clients: table_entries(self.clients), pending: table_entries(self.pending) }
    }
}

impl ServerState {
    /// Tables with no client and no waiting connection.
    pub fn new() -> (s: ServerState)
        ensures
            s@.clients == Map::<Seq<char>, u64>::empty(),
            s@.pending == Map::<Seq<char>, u64>::empty(),
    {
        let s = ServerState { clients: table_new(), pending: table_new() };
        assert(s@.clients =~= Map::<Seq<char>, u64>::empty());
        assert(s@.pending =~= Map::<Seq<char>, u64>::empty());
        s
    }

    /// The client that serves `subdomain`.
    pub fn client_of(&self, subdomain: &str) -> (c: Option<u64>)
        ensures
            c == self@.client_of(subdomain@),
    {
        table_get(&self.clients, subdomain)
    }

    /// The opening of a control connection by `client`: a `Register` makes
    /// the client serve its subdomain, in place of any client before it (which
    /// is returned), and is answered with the subdomain's public URL; anything
    /// else is refused.
    pub fn register_client(&mut self, msg: ControlMessage, client: u64) -> (res: Result<Registration, ProtocolError>)
        ensures
            match msg {
                ControlMessage::Register { subdomain } => {
                    &&& res matches Ok(r)
                    &&& r.subdomain@ == subdomain@
                    &&& is_registration_ack(r.ack, subdomain@)
                    &&& r.displaced == old(self)@.client_of(subdomain@)
                    &&& final(self)@ == old(self)@.with_client(subdomain@, client)
                    &&& final(self)@.client_of(subdomain@) == Some(client)
                    &&& forall|other: Seq<char>| other != subdomain@ ==> #[trigger] final(self)@.client_of(
                        other,
                    ) == old(self)@.client_of(other)
                    &&& final(self)@.pending == old(self)@.pending
                },
                _ => {
                    &&& res == Err::<Registration, ProtocolError>(ProtocolError::ExpectedRegister)
                    &&& final(self)@ == old(self)@
                },
            },
    {
        match msg {
            ControlMessage::Register { subdomain } => {
                let displaced = table_insert(&mut self.clients, subdomain.clone(), client);
                let ack = registration_ack(subdomain.clone());
                Ok(Registration { subdomain, ack, displaced })
            },
            _ => Err(ProtocolError::ExpectedRegister),
        }
    }

    /// The end of a client's control connection: its subdomain is served by
    /// no one. Returns the client that served it.
    pub fn unregister_client(&mut self, subdomain: &str) -> (c: Option<u64>)
        ensures
            final(self)@ == old(self)@.without_client(subdomain@),
            c == old(self)@.client_of(subdomain@),
            final(self)@.client_of(subdomain@) is None,
            forall|other: Seq<char>| other != subdomain@ ==> #[trigger] final(self)@.client_of(other)
                == old(self)@.client_of(other),
            final(self)@.pending == old(self)@.pending,
    {
        table_remove(&mut self.clients, subdomain)
    }

    /// The routing of the public connection `conn`, whose request begins
    /// with `request`, when it is to wait under `tunnel_id`.
    pub fn route_public_connection_as(&mut self, request: &str, conn: u64, tunnel_id: String) -> (route: PublicRoute)
        ensures
            is_route(old(self)@, final(self)@, request@, conn, tunnel_id@, route),
    {
        let subdomain = extract_subdomain(request).unwrap_or("default");
        match table_get(&self.clients, subdomain) {
            Some(client) => {
                table_insert(&mut self.pending, tunnel_id.clone(), conn);
                let id = tunnel_id.clone();
                PublicRoute::Notify {
                    subdomain: subdomain.to_owned(),
                    client,
                    tunnel_id,
                    message: ControlMessage::NewConnection { tunnel_id: id },
                }
            },
            None => PublicRoute::NoSuchTunnel { subdomain: subdomain.to_owned() },
        }
    }

    /// The routing of the public connection `conn`, whose request begins
    /// with `request`: when a client serves its subdomain, the connection
    /// waits under a fresh random tunnel id and the client is to be told so;
    /// else the tables stay as they are.
    pub fn route_public_connection(&mut self, request: &str, conn: u64) -> (route: PublicRoute)
        ensures
            is_route(old(self)@, final(self)@, request@, conn, route_tunnel_id(route), route),
            route is Notify ==> is_uuid_v4_text(route_tunnel_id(route)),
    {
        let subdomain = extract_subdomain(request).unwrap_or("default");
        if table_get(&self.clients, subdomain).is_some() {
            let tunnel_id = new_tunnel_id();
            self.route_public_connection_as(request, conn, tunnel_id)
        } else {
            PublicRoute::NoSuchTunnel { subdomain: subdomain.to_owned() }
        }
    }

    /// A public connection whose client could not be told of it stops
    /// waiting. Returns the connection that waited.
    pub fn abandon_tunnel(&mut self, tunnel_id: &str) -> (conn: Option<u64>)
        ensures
            final(self)@ == old(self)@.without_waiting(tunnel_id@),
            conn == old(self)@.waiting_under(tunnel_id@),
    {
        table_remove(&mut self.pending, tunnel_id)
    }

    /// The opening of a client's data connection: a `ConnectionAck` takes
    /// the public connection that waits under its id, if one does; anything
    /// else is refused.
    pub fn claim_tunnel(&mut self, msg: ControlMessage) -> (res: Result<DataRoute, ProtocolError>)
        ensures
            match claimed_id(msg) {
                Some(id) => {
                    &&& final(self)@ == old(self)@.without_waiting(id)
                    &&& match old(self)@.waiting_under(id) {
                        Some(c) => res matches Ok(DataRoute::Bridge { tunnel_id, conn })
                            && tunnel_id@ == id && conn == c,
                        None => res matches Ok(DataRoute::Unknown { tunnel_id }) && tunnel_id@ == id,
                    }
                },
                None => {
                    &&& res == Err::<DataRoute, ProtocolError>(ProtocolError::ExpectedConnectionAck)
                    &&& final(self)@ == old(self)@
                },
            },
    {
        match msg {
            ControlMessage::ConnectionAck { tunnel_id } => {
                match table_remove(&mut self.pending, tunnel_id.as_str()) {
                    Some(conn) => Ok(DataRoute::Bridge { tunnel_id, conn }),
                    None => Ok(DataRoute::Unknown { tunnel_id }),
                }
            },
            _ => Err(ProtocolError::ExpectedConnectionAck),
        }
    }
}

} // verus!

//! What holds across the tunnel's operations.

use vstd::prelude::*;
use crate::http::{is_whitespace, spec_extract_subdomain, law_request_line_routes_by_its_key};
use crate::protocol::{ControlMessage, acknowledged_url, is_registration_ack};
use crate::registry::{ServerModel, claimed_id};
use crate::text::spec_public_url;
use crate::tunnel::{TunnelCommand, TunnelModel};

verus! {

/// A subdomain just registered by a client routes its requests to that
/// client, whatever client served it before.
pub proof fn law_registration_routes_to_the_client(
    m: ServerModel,
    subdomain: Seq<char>,
    client: u64,
    request: Seq<char>,
)
    requires
        spec_extract_subdomain(request) == subdomain,
    ensures
        m.with_client(subdomain, client).route_target(request) == Some(client),
{
}

/// Once a subdomain's client has left, requests for it find no tunnel.
pub proof fn law_unregistered_subdomain_finds_no_tunnel(
    m: ServerModel,
    subdomain: Seq<char>,
    request: Seq<char>,
)
    requires
        spec_extract_subdomain(request) == subdomain,
    ensures
        m.without_client(subdomain).route_target(request) is None,
{
}

/// A public connection routed to a client waits under its tunnel id until
/// one data connection claims it; a second claim finds nothing.
pub proof fn law_waiting_connection_is_claimed_once(
    m: ServerModel,
    request: Seq<char>,
    conn: u64,
    tunnel_id: Seq<char>,
)
    requires
        m.route_target(request) is Some,
    ensures
        m.after_route(request, conn, tunnel_id).waiting_under(tunnel_id) == Some(conn),
        m.after_route(request, conn, tunnel_id).without_waiting(tunnel_id).waiting_under(
            tunnel_id,
        ) is None,
{
}

/// A request for a subdomain that no client serves changes nothing.
pub proof fn law_unserved_request_changes_nothing(
    m: ServerModel,
    request: Seq<char>,
    conn: u64,
    tunnel_id: Seq<char>,
)
    requires
        m.route_target(request) is None,
    ensures
        m.after_route(request, conn, tunnel_id) == m,
{
}

/// Routing and claiming connections leave the registrations as they are;
/// registering and unregistering leave the waiting connections as they are.
pub proof fn law_tables_are_independent(
    m: ServerModel,
    request: Seq<char>,
    conn: u64,
    tunnel_id: Seq<char>,
    subdomain: Seq<char>,
    client: u64,
)
    ensures
        m.after_route(request, conn, tunnel_id).clients == m.clients,
        m.without_waiting(tunnel_id).clients == m.clients,
        m.with_client(subdomain, client).pending == m.pending,
        m.without_client(subdomain).pending == m.pending,
{
}

/// A request whose first line asks for `GET /<key>` reaches the client that
/// registered `key`, for every key a client can be reached by.
pub proof fn law_request_reaches_the_registered_client(
    m: ServerModel,
    key: Seq<char>,
    rest: Seq<char>,
    client: u64,
)
    requires
        key.len() > 0,
        forall|k: int| 0 <= k < key.len() ==> #[trigger] key[k] != '/' && !is_whitespace(key[k]),
        rest.len() == 0 || is_whitespace(rest[0]) || rest[0] == '/',
    ensures
        m.with_client(key, client).route_target(seq!['G', 'E', 'T', ' ', '/'] + key + rest)
            == Some(client),
{
    law_request_line_routes_by_its_key(key, rest);
}

/// The server's answer to a registration gives the client the public URL of
/// the subdomain it asked for.
pub proof fn law_registration_ack_grants_the_public_url(ack: ControlMessage, subdomain: Seq<char>)
    requires
        is_registration_ack(ack, subdomain),
    ensures
        acknowledged_url(ack) == Some(spec_public_url(subdomain)),
{
}

/// The message a client's data connection opens with claims the tunnel id
/// it was told of.
pub proof fn law_connection_ack_claims_its_tunnel(ack: ControlMessage, tunnel_id: Seq<char>)
    requires
        ack matches ControlMessage::ConnectionAck { tunnel_id: t } && t@ == tunnel_id,
    ensures
        claimed_id(ack) == Some(tunnel_id),
{
}

/// A tunnel started and then stopped does not run and has no URL, and is
/// reported `Offline`; a started tunnel is reported `Online`.
pub proof fn law_start_then_stop(t: TunnelModel)
    ensures
        t.started().running,
        t.started().status_word() == "Online"@,
        t.started().stopped() == (TunnelModel { running: false, public_url: None }),
        t.started().stopped().status_word() == "Offline"@,
{
}

/// Whether the last accepted start or stop among `commands`, run from `t`,
/// was a start (`Some(true)`) or a stop (`Some(false)`); `None` if neither
/// was accepted.
pub open spec fn last_switch(t: TunnelModel, commands: Seq<TunnelCommand>) -> Option<bool>
    decreases commands.len(),
{
    if commands.len() == 0 {
        None
    } else {
        let before = t.run(commands.drop_last());
        match commands.last() {
            TunnelCommand::Start if before.accepts(TunnelCommand::Start) => Some(true),
            TunnelCommand::Stop if before.accepts(TunnelCommand::Stop) => Some(false),
            _ => last_switch(t, commands.drop_last()),
        }
    }
}

/// A running tunnel refuses every start until a stop: whatever other
/// commands come, it still runs and a start is still refused.
pub proof fn law_start_refused_until_stopped(t: TunnelModel, commands: Seq<TunnelCommand>)
    requires
        t.running,
        forall|i: int| 0 <= i < commands.len() ==> !(#[trigger] commands[i] is Stop),
    ensures
        t.run(commands).running,
        !t.run(commands).accepts(TunnelCommand::Start),
    decreases commands.len(),
{
    if commands.len() > 0 {
        let rest = commands.drop_last();
        assert forall|i: int| 0 <= i < rest.len() implies !(#[trigger] rest[i] is Stop) by {
            assert(rest[i] == commands[i]);
        }
        law_start_refused_until_stopped(t, rest);
        assert(!(commands[commands.len() - 1] is Stop));
    }
}

/// A tunnel runs, and shows `Online`, exactly when the last start or stop
/// it accepted was a start (or, with none accepted, when it ran before);
/// right after an accepted stop it shows `Offline` and has no URL.
pub proof fn law_status_follows_the_last_start_or_stop(t: TunnelModel, commands: Seq<TunnelCommand>)
    ensures
        t.run(commands).running == match last_switch(t, commands) {
            Some(started) => started,
            None => t.running,
        },
        t.run(commands).status_word() == (if t.run(commands).running {
            "Online"@
        } else {
            "Offline"@
        }),
        commands.len() > 0 && commands.last() is Stop && t.run(commands.drop_last()).accepts(
            TunnelCommand::Stop,
        ) ==> t.run(commands) == (TunnelModel { running: false, public_url: None }),
    decreases commands.len(),
{
    if commands.len() > 0 {
        law_status_follows_the_last_start_or_stop(t, commands.drop_last());
    }
}

/// Registering subdomain `s` for client `c` sets `s` to `c` and leaves every
/// other subdomain with the client it had, and the waiting connections as
/// they were.
pub proof fn law_registration_changes_only_its_subdomain(
    m: ServerModel,
    s: Seq<char>,
    c: u64,
    t: Seq<char>,
)
    ensures
        m.with_client(s, c).client_of(s) == Some(c),
        t != s ==> m.with_client(s, c).client_of(t) == m.client_of(t),
        m.with_client(s, c).pending == m.pending,
{
}

/// Unregistering subdomain `s` leaves it served by no one and every other
/// subdomain with the client it had.
pub proof fn law_unregistration_changes_only_its_subdomain(m: ServerModel, s: Seq<char>, t: Seq<char>)
    ensures
        m.without_client(s).client_of(s) is None,
        t != s ==> m.without_client(s).client_of(t) == m.client_of(t),
        m.without_client(s).pending == m.pending,
{
}

} // verus!

//! A client's tunnel: whether it runs, the URL it was given, and the
//! decisions of its connection loop.

use vstd::prelude::*;
use tokio_util::sync::CancellationToken;

verus! {

#[verifier::external_type_specification]
#[verifier::external_body]
pub struct ExCancellationToken(CancellationToken);

/// `CancellationToken::new`: a token that no one has cancelled.
#[verifier::external_body]
fn token_new() -> CancellationToken {
    CancellationToken::new()
}

/// `CancellationToken::clone`: a handle on the same token, which is
/// cancelled whenever the original is.
#[verifier::external_body]
fn token_clone(token: &CancellationToken) -> (c: CancellationToken)
    ensures
        c == *token,
{
    token.clone()
}

/// `CancellationToken::cancel`: cancels the token for every handle on it.
#[verifier::external_body]
fn token_cancel(token: &CancellationToken) {
    token.cancel()
}

/// `CancellationToken::is_cancelled`. Whether it is depends on what other
/// tasks did, so nothing is said of the answer.
#[verifier::external_body]
fn token_is_cancelled(token: &CancellationToken) -> bool {
    token.is_cancelled()
}

/// A tunnel as its user sees it.
pub struct TunnelModel {
    pub running: bool,
    pub public_url: Option<Seq<char>>,
}

impl TunnelModel {
    /// The tunnel once started.
    pub open spec fn started(self) -> TunnelModel {
        TunnelModel { running: true, ..self }
    }

    /// The tunnel once stopped.
    pub open spec fn stopped(self) -> TunnelModel {
        TunnelModel { running: false, public_url: None }
    }

    /// Whether the tunnel takes `command` in this state: a start only while
    /// it does not run, a stop only while it runs, a URL always.
    pub open spec fn accepts(self, command: TunnelCommand) -> bool {
        match command {
            TunnelCommand::Start => !self.running,
            TunnelCommand::Stop => self.running,
            TunnelCommand::SetPublicUrl(_) => true,
        }
    }

    /// The tunnel after `command`; a refused command changes nothing.
    pub open spec fn apply(self, command: TunnelCommand) -> TunnelModel {
        if !self.accepts(command) {
            self
        } else {
            match command {
                TunnelCommand::Start => self.started(),
                TunnelCommand::Stop => self.stopped(),
                TunnelCommand::SetPublicUrl(url) => TunnelModel { public_url: Some(url), ..self },
            }
        }
    }

    /// The tunnel after `commands`, in order.
    pub open spec fn run(self, commands: Seq<TunnelCommand>) -> TunnelModel
        decreases commands.len(),
    {
        if commands.len() == 0 {
            self
        } else {
            self.run(commands.drop_last()).apply(commands.last())
        }
    }

    /// The status word shown for the tunnel.
    pub open spec fn status_word(self) -> Seq<char> {
        if self.running {
            "Online"@
        } else {
            "Offline"@
        }
    }
}

/// What a tunnel is asked to do.
pub enum TunnelCommand {
    Start,
    Stop,
    SetPublicUrl(Seq<char>),
}

/// The status of a tunnel as reported to its user.
#[derive(Debug, PartialEq, Eq)]
pub struct StatusEvent {
    pub status: String,
    pub public_url: Option<String>,
}

/// The view of an optional string.
pub open spec fn opt_view(s: Option<String>) -> Option<Seq<char>> {
    match s {
        Some(u) => Some(u@),
        None => None,
    }
}

/// What a client keeps of its tunnel.
pub struct TunnelState {
    cancel_token: Option<CancellationToken>,
    public_url: Option<String>,
}

impl View for TunnelState {
    type V = TunnelModel;

    closed spec fn view(&self) -> TunnelModel {
        TunnelModel { running: self.cancel_token is Some, public_url: opt_view(self.public_url) }
    }
}

impl TunnelState {
    /// The token that the tunnel's task was given, while it runs.
    pub closed spec fn token(self) -> Option<CancellationToken> {
        self.cancel_token
    }
}

/// A tunnel that was started.
pub struct Started {
    /// The answer to the user.
    pub message: String,
    /// The token that stops the tunnel's task.
    pub token: CancellationToken,
}

fn owned(s: &str) -> (r: String)
    ensures
        r@ == s@,
{
    s.to_owned()
}

impl TunnelState {
    /// A tunnel that does not run and has no URL.
    pub fn new() -> (t: TunnelState)
        ensures
            t@ == (TunnelModel { running: false, public_url: None }),
    {
        TunnelState { cancel_token: None, public_url: None }
    }

    /// Starts the tunnel, unless it runs already: the tunnel keeps a new
    /// token, and the caller gets a handle on the same token for the
    /// tunnel's task, so that stopping the tunnel stops the task.
    pub fn start_tunnel(&mut self) -> (res: Result<Started, String>)
        ensures
            final(self)@ == old(self)@.apply(TunnelCommand::Start),
            res is Ok <==> old(self)@.accepts(TunnelCommand::Start),
            old(self)@.running ==> {
                &&& res matches Err(e) && e@ == "Tunnel is already running"@
                &&& final(self)@ == old(self)@
                &&& final(self).token() == old(self).token()
            },
            !old(self)@.running ==> {
                &&& res matches Ok(s) && s.message@ == "Tunnel starting..."@
                &&& final(self)@ == old(self)@.started()
                &&& final(self).token() == Some(res->Ok_0.token)
            },
    {
        if self.cancel_token.is_some() {
            return Err(owned("Tunnel is already running"));
        }
        let token = token_new();
        self.cancel_token = Some(token_clone(&token));
        Ok(Started { message: owned("Tunnel starting..."), token })
    }

    /// Stops the tunnel, if it runs: its token is cancelled and its URL
    /// forgotten.
    pub fn stop_tunnel(&mut self) -> (res: Result<(), String>)
        ensures
            final(self)@ == old(self)@.apply(TunnelCommand::Stop),
            res is Ok <==> old(self)@.accepts(TunnelCommand::Stop),
            final(self).token() is None,
            old(self)@.running ==> res is Ok && final(self)@ == old(self)@.stopped(),
            !old(self)@.running ==> {
                &&& res matches Err(e) && e@ == "Tunnel is not running"@
                &&& final(self)@ == old(self)@
            },
    {
        match self.cancel_token.take() {
            Some(token) => {
                token_cancel(&token);
                self.public_url = None;
                Ok(())
            },
            None => Err(owned("Tunnel is not running")),
        }
    }

    /// The tunnel's status: `Online` while it runs, else `Offline`, with its
    /// URL.
    pub fn get_status(&self) -> (status: StatusEvent)
        ensures
            status.status@ == self@.status_word(),
            opt_view(status.public_url) == self@.public_url,
    {
        let word = if self.cancel_token.is_some() {
            owned("Online")
        } else {
            owned("Offline")
        };
        let url = match &self.public_url {
            Some(u) => Some(u.clone()),
            None => None,
        };
        StatusEvent { status: word, public_url: url }
    }

    /// Records the URL that the server gave the tunnel.
    pub fn set_public_url(&mut self, url: String)
        ensures
            final(self)@ == (TunnelModel { public_url: Some(url@), ..old(self)@ }),
            final(self)@ == old(self)@.apply(TunnelCommand::SetPublicUrl(url@)),
            final(self).token() == old(self).token(),
    {
        self.public_url = Some(url);
    }
}

/// How many times a client tries to reach the server before it gives up.
pub const MAX_CONNECT_ATTEMPTS: u32 = 3;

/// The seconds a client waits between two tries to reach the server.
pub const RETRY_DELAY_SECS: u64 = 2;

/// The seconds a client waits before it reconnects after a session ended.
pub const RECONNECT_DELAY_SECS: u64 = 5;

/// What follows a failed try to reach the server.
#[derive(Debug, PartialEq, Eq)]
pub enum RetryStep {
    /// Give up and report the failure.
    GiveUp,
    /// Report that try `attempt` failed, wait, and try again.
    RetryAfter { attempt: u32, delay_secs: u64 },
}

/// The tries to reach the server that failed so far.
pub struct ConnectAttempts {
    failed: u32,
}

impl ConnectAttempts {
    #[verifier::type_invariant]
    spec fn fewer_than_the_limit(self) -> bool {
        self.failed < MAX_CONNECT_ATTEMPTS
    }

    /// The number of failed tries.
    pub closed spec fn failures(self) -> nat {
        self.failed as nat
    }

    /// No try made yet.
    pub fn new() -> (a: ConnectAttempts)
        ensures
            a.failures() == 0,
    {
        ConnectAttempts { failed: 0 }
    }

    /// A try failed: it is the try after the failed ones; a client gives up
    /// on its last allowed try, and otherwise waits and tries again.
    pub fn on_failure(&mut self) -> (step: RetryStep)
        ensures
            old(self).failures() < MAX_CONNECT_ATTEMPTS,
            old(self).failures() + 1 >= MAX_CONNECT_ATTEMPTS ==> step is GiveUp && final(self).failures()
                == old(self).failures(),
            old(self).failures() + 1 < MAX_CONNECT_ATTEMPTS ==> {
                &&& step == (RetryStep::RetryAfter {
                    attempt: (old(self).failures() + 1) as u32,
                    delay_secs: RETRY_DELAY_SECS,
                })
                &&& final(self).failures() == old(self).failures() + 1
            },
    {
        proof {
            use_type_invariant(&*self);
        }
        let attempt = self.failed + 1;
        if attempt >= MAX_CONNECT_ATTEMPTS {
            RetryStep::GiveUp
        } else {
            self.failed = attempt;
            RetryStep::RetryAfter { attempt, delay_secs: RETRY_DELAY_SECS }
        }
    }
}

/// What a client does when a session with the server ended.
#[derive(Debug, PartialEq, Eq)]
pub enum SessionStep {
    /// The tunnel was stopped: leave.
    Stop,
    /// Wait, then connect again.
    ReconnectAfter { delay_secs: u64 },
}

/// The decision after a session, given whether the tunnel was stopped.
pub fn session_step(cancelled: bool) -> (step: SessionStep)
    ensures
        cancelled ==> step is Stop,
        !cancelled ==> step == (SessionStep::ReconnectAfter { delay_secs: RECONNECT_DELAY_SECS }),
{
    if cancelled {
        SessionStep::Stop
    } else {
        SessionStep::ReconnectAfter { delay_secs: RECONNECT_DELAY_SECS }
    }
}

/// The decision after a session of the tunnel whose token is `token`.
pub fn after_session(token: &CancellationToken) -> (step: SessionStep)
    ensures
        step is Stop || step == (SessionStep::ReconnectAfter { delay_secs: RECONNECT_DELAY_SECS }),
{
    session_step(token_is_cancelled(token))
}

/// After the wait between two tries: whether to try again, given whether
/// the tunnel was stopped meanwhile.
pub fn retry_after_wait(cancelled: bool) -> (go_on: bool)
    ensures
        go_on == !cancelled,
{
    !cancelled
}

/// After the wait between two tries of the tunnel whose token is `token`:
/// whether to try again.
pub fn continue_after_wait(token: &CancellationToken) -> bool {
    retry_after_wait(token_is_cancelled(token))
}

} // verus!

//! The server's decisions. Each accepted connection moves through
//! handshake (only when TLS is configured), request reading, handler call and
//! response writing, and ends closed or failed. The runtime performs the
//! action each step names and reports back what happened; a connection's
//! failure touches no other connection and never stops the accept loop.
use vstd::prelude::*;
use crate::config::{Config, ConfigView};

verus! {

/// Where a connection stands.
#[derive(Clone, Copy, Debug, PartialEq, Eq, Structural)]
pub enum Stage {
    Handshaking,
    AwaitingRequest,
    Handling,
    Writing,
    Closed,
    Failed,
}

/// What the runtime observed while performing the last action.
#[derive(Clone, Copy, Debug, PartialEq, Eq, Structural)]
pub enum Event {
    HandshakeDone,
    HandshakeFailed,
    RequestParsed,
    RequestMalformed,
    PeerClosed,
    HandlerSucceeded,
    HandlerFailed,
    ResponseWritten,
    WriteFailed,
}

/// What the runtime is to do next on a connection.
#[derive(Clone, Copy, Debug, PartialEq, Eq, Structural)]
pub enum Action {
    Handshake,
    ReadRequest,
    CallHandler,
    WriteResponse,
    Close,
}

pub open spec fn is_terminal(s: Stage) -> bool {
    s == Stage::Closed || s == Stage::Failed
}

/// The stage of a freshly accepted connection.
pub open spec fn opening(secure: bool) -> Stage {
    if secure {
        Stage::Handshaking
    } else {
        Stage::AwaitingRequest
    }
}

/// The stage after `e` was observed in stage `s`. An event that does not
/// belong to the stage fails the connection; a finished connection stays
/// finished. After a response is written the next request on the same
/// connection is read, so requests are answered in the order they came.
pub open spec fn next(s: Stage, e: Event) -> Stage {
    match s {
        Stage::Handshaking => if e == Event::HandshakeDone {
            Stage::AwaitingRequest
        } else {
            Stage::Failed
        },
        Stage::AwaitingRequest => if e == Event::RequestParsed {
            Stage::Handling
        } else if e == Event::PeerClosed {
            Stage::Closed
        } else {
            Stage::Failed
        },
        Stage::Handling => if e == Event::HandlerSucceeded {
            Stage::Writing
        } else {
            Stage::Failed
        },
        Stage::Writing => if e == Event::ResponseWritten {
            Stage::AwaitingRequest
        } else {
            Stage::Failed
        },
        Stage::Closed => Stage::Closed,
        Stage::Failed => Stage::Failed,
    }
}

/// The action that a stage asks of the runtime.
pub open spec fn action_of(s: Stage) -> Action {
    match s {
        Stage::Handshaking => Action::Handshake,
        Stage::AwaitingRequest => Action::ReadRequest,
        Stage::Handling => Action::CallHandler,
        Stage::Writing => Action::WriteResponse,
        Stage::Closed => Action::Close,
        Stage::Failed => Action::Close,
    }
}

/// The stage reached from `s` after the events `evs`, in order.
pub open spec fn run(s: Stage, evs: Seq<Event>) -> Stage
    decreases evs.len(),
{
    if evs.len() == 0 {
        s
    } else {
        run(next(s, evs[0]), evs.drop_first())
    }
}

/// A closed or failed connection stays so, whatever is reported after.
pub proof fn lemma_finished_stays_finished(s: Stage, evs: Seq<Event>)
    requires
        is_terminal(s),
    ensures
        run(s, evs) == s,
    decreases evs.len(),
{
    if evs.len() > 0 {
        lemma_finished_stays_finished(s, evs.drop_first());
    }
}

/// On a TLS connection nothing is read as a request before the handshake
/// completes: a connection that is still being served had its handshake
/// done first.
pub proof fn lemma_no_request_before_handshake(evs: Seq<Event>)
    requires
        evs.len() > 0,
        !is_terminal(run(opening(true), evs)),
    ensures
        evs[0] == Event::HandshakeDone,
{
    if evs[0] != Event::HandshakeDone {
        lemma_finished_stays_finished(Stage::Failed, evs.drop_first());
    }
}

/// A TLS connection whose first report is anything but a completed handshake
/// (a plaintext client, say) fails there and is never served.
pub proof fn lemma_failed_handshake_never_serves(evs: Seq<Event>)
    requires
        evs.len() > 0,
        evs[0] != Event::HandshakeDone,
    ensures
        run(opening(true), evs) == Stage::Failed,
{
    lemma_finished_stays_finished(Stage::Failed, evs.drop_first());
}

/// A handler error fails its connection, which is then closed, and the
/// connection stays failed whatever is reported after. Recorded in a table
/// of connections, it changes no other connection.
pub proof fn lemma_handler_error_closes(evs: Seq<Event>, conns: Seq<Stage>, id: int, other: int)
    requires
        0 <= id < conns.len(),
        0 <= other < conns.len(),
        other != id,
        conns[id] == Stage::Handling,
    ensures
        conns.update(id, next(conns[id], Event::HandlerFailed))[id] == Stage::Failed,
        conns.update(id, next(conns[id], Event::HandlerFailed))[other] == conns[other],
        next(Stage::Handling, Event::HandlerFailed) == Stage::Failed,
        action_of(Stage::Failed) == Action::Close,
        run(Stage::Handling, seq![Event::HandlerFailed] + evs) == Stage::Failed,
{
    let all = seq![Event::HandlerFailed] + evs;
    assert(all.drop_first() =~= evs);
    lemma_finished_stays_finished(Stage::Failed, evs);
}

/// The stage a newly accepted connection starts in.
pub fn opening_stage(secure: bool) -> (r: Stage)
    ensures
        r == opening(secure),
{
    if secure {
        Stage::Handshaking
    } else {
        Stage::AwaitingRequest
    }
}

/// The stage after `event` was observed in `stage`.
pub fn step(stage: Stage, event: Event) -> (r: Stage)
    ensures
        r == next(stage, event),
{
    match stage {
        Stage::Handshaking => match event {
            Event::HandshakeDone => Stage::AwaitingRequest,
            _ => Stage::Failed,
        },
        Stage::AwaitingRequest => match event {
            Event::RequestParsed => Stage::Handling,
            Event::PeerClosed => Stage::Closed,
            _ => Stage::Failed,
        },
        Stage::Handling => match event {
            Event::HandlerSucceeded => Stage::Writing,
            _ => Stage::Failed,
        },
        Stage::Writing => match event {
            Event::ResponseWritten => Stage::AwaitingRequest,
            _ => Stage::Failed,
        },
        Stage::Closed => Stage::Closed,
        Stage::Failed => Stage::Failed,
    }
}

/// The action that `stage` asks of the runtime.
pub fn action(stage: Stage) -> (r: Action)
    ensures
        r == action_of(stage),
{
    match stage {
        Stage::Handshaking => Action::Handshake,
        Stage::AwaitingRequest => Action::ReadRequest,
        Stage::Handling => Action::CallHandler,
        Stage::Writing => Action::WriteResponse,
        Stage::Closed => Action::Close,
        Stage::Failed => Action::Close,
    }
}

pub fn is_finished(stage: Stage) -> (r: bool)
    ensures
        r == is_terminal(stage),
{
    match stage {
        Stage::Closed | Stage::Failed => true,
        _ => false,
    }
}

/// Abstract value of an [`App`].
pub struct AppView {
    pub config: ConfigView,
    pub accepting: bool,
    pub connections: Seq<Stage>,
}

/// The position a new connection takes: the first finished slot, or a new
/// one after all others.
pub open spec fn is_free_slot(conns: Seq<Stage>, id: int) -> bool {
    &&& 0 <= id <= conns.len()
    &&& forall|j: int| 0 <= j < id ==> !is_terminal(#[trigger] conns[j])
    &&& id < conns.len() ==> is_terminal(conns[id])
}

/// A server: its settings, whether it still accepts connections, and the
/// stage of each connection slot. Slots of finished connections are reused.
pub struct App {
    config: Config,
    accepting: bool,
    connections: Vec<Stage>,
}

impl View for App {
    type V = AppView;

    closed spec fn view(&self) -> AppView {
        AppView { config: self.config@, accepting: self.accepting, connections: self.connections@ }
    }
}

impl Default for App {
    /// A server with the default settings.
    fn default() -> (r: App)
        ensures
            r@.config.port == crate::config::DEFAULT_PORT,
            r@.config.interface == "0.0.0.0"@,
            r@.config.security is None,
            r@.accepting,
            r@.connections.len() == 0,
    {
        App::new(Config::default())
    }
}

impl App {
    /// A server that accepts connections and has none yet.
    pub fn new(config: Config) -> (r: App)
        ensures
            r@.config == config@,
            r@.accepting,
            r@.connections.len() == 0,
    {
        App { config, accepting: true, connections: Vec::new() }
    }

    pub fn config(&self) -> (r: &Config)
        ensures
            r@ == self@.config,
    {
        &self.config
    }

    pub fn is_accepting(&self) -> (r: bool)
        ensures
            r == self@.accepting,
    {
        self.accepting
    }

    /// The stage of connection `id`.
    pub fn stage(&self, id: usize) -> (r: Stage)
        requires
            id < self@.connections.len(),
        ensures
            r == self@.connections[id as int],
    {
        self.connections[id]
    }

    /// Admits a new connection, unless shutdown has begun. It takes the
    /// first finished slot, or a new one, and starts with a TLS handshake
    /// exactly when the settings hold TLS material. No other connection
    /// changes.
    pub fn accept(&mut self) -> (r: Option<(usize, Action)>)
        ensures
            final(self)@.config == old(self)@.config,
            final(self)@.accepting == old(self)@.accepting,
            !old(self)@.accepting ==> r is None && final(self)@ == old(self)@,
            old(self)@.accepting ==> match r {
                Some((id, a)) => {
                    let st = opening(old(self)@.config.security is Some);
                    &&& is_free_slot(old(self)@.connections, id as int)
                    &&& a == action_of(st)
                    &&& if id < old(self)@.connections.len() {
                        final(self)@.connections == old(self)@.connections.update(id as int, st)
                    } else {
                        final(self)@.connections == old(self)@.connections.push(st)
                    }
                },
                None => false,
            },
    {
        if !self.accepting {
            return None;
        }
        let st = opening_stage(self.config.is_secure());
        let n = self.connections.len();
        let mut i: usize = 0;
        while i < n
            invariant
                n == self.connections@.len(),
                self.connections@ == old(self).connections@,
                self.accepting,
                old(self).accepting,
                st == opening(old(self)@.config.security is Some),
                self.config == old(self).config,
                i <= n,
                forall|j: int| 0 <= j < i ==> !is_terminal(#[trigger] self.connections@[j]),
            decreases n - i,
        {
            if is_finished(self.connections[i]) {
                self.connections.set(i, st);
                return Some((i, action(st)));
            }
            i += 1;
        }
        self.connections.push(st);
        Some((n, action(st)))
    }

    /// Records what the runtime observed on connection `id` and returns what
    /// it is to do next there. Only that connection changes: a failure is
    /// confined to it, and the server keeps accepting as before.
    pub fn on_event(&mut self, id: usize, event: Event) -> (r: Action)
        requires
            id < old(self)@.connections.len(),
        ensures
            final(self)@.config == old(self)@.config,
            final(self)@.accepting == old(self)@.accepting,
            final(self)@.connections == old(self)@.connections.update(
                id as int,
                next(old(self)@.connections[id as int], event),
            ),
            r == action_of(next(old(self)@.connections[id as int], event)),
    {
        let st = step(self.connections[id], event);
        self.connections.set(id, st);
        action(st)
    }

    /// Stops admitting connections; those already admitted go on.
    pub fn shutdown(&mut self)
        ensures
            final(self)@ == (AppView { accepting: false, ..old(self)@ }),
    {
        self.accepting = false;
    }

    /// Ends the grace period after shutdown: every connection still in
    /// progress is failed, and so to be closed; finished ones stay as they are.
    pub fn expire_grace(&mut self)
        ensures
            final(self)@.config == old(self)@.config,
            final(self)@.accepting == old(self)@.accepting,
            final(self)@.connections.len() == old(self)@.connections.len(),
            forall|i: int|
                0 <= i < old(self)@.connections.len() ==> #[trigger] final(self)@.connections[i]
                    == if is_terminal(old(self)@.connections[i]) {
                    old(self)@.connections[i]
                } else {
                    Stage::Failed
                },
    {
        let n = self.connections.len();
        let mut i: usize = 0;
        while i < n
            invariant
                n == self.connections@.len(),
                n == old(self).connections@.len(),
                self.accepting == old(self).accepting,
                self.config == old(self).config,
                i <= n,
                forall|j: int|
                    0 <= j < n ==> #[trigger] self.connections@[j] == if j < i && !is_terminal(
                        old(self).connections@[j],
                    ) {
                        Stage::Failed
                    } else {
                        old(self).connections@[j]
                    },
            decreases n - i,
        {
            if !is_finished(self.connections[i]) {
                self.connections.set(i, Stage::Failed);
            }
            i += 1;
        }
    }

    /// Whether every connection has finished.
    pub fn is_drained(&self) -> (r: bool)
        ensures
            r == forall|i: int|
                0 <= i < self@.connections.len() ==> is_terminal(#[trigger] self@.connections[i]),
    {
        let n = self.connections.len();
        let mut i: usize = 0;
        while i < n
            invariant
                n == self.connections@.len(),
                i <= n,
                forall|j: int| 0 <= j < i ==> is_terminal(#[trigger] self.connections@[j]),
            decreases n - i,
        {
            if !is_finished(self.connections[i]) {
                assert(!is_terminal(self@.connections[i as int]));
                return false;
            }
            i += 1;
        }
        true
    }

    /// Whether the listening socket may be released: shutdown has begun and
    /// every connection has finished.
    pub fn can_release_listener(&self) -> (r: bool)
        ensures
            r == (!self@.accepting && forall|i: int|
                0 <= i < self@.connections.len() ==> is_terminal(
                    #[trigger] self@.connections[i],
                )),
    {
        !self.accepting && self.is_drained()
    }
}

} // verus!

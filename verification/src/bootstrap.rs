//! Content-process bootstrap protocol.
//!
//! A token-based one-shot rendezvous lets a freshly spawned content process
//! receive a channel endpoint and then its full initial configuration over
//! that channel.  The parent creates a rendezvous under an opaque token and
//! passes the token to the child as a launch parameter; the child connects
//! with the token and hands back the sending endpoint of its own one-shot
//! payload channel; the parent sends the unprivileged payload over that
//! endpoint and closes the rendezvous; the child receives the payload
//! exactly once and finishes its own startup from it.  A token is consumed
//! by its first use: a second connect with the same token is refused and the
//! payload is never re-delivered.  Every failing step is fatal to the child,
//! with no retry.

use vstd::prelude::*;

use crate::config::{Opts, Pref};
use crate::log_sink::{set_logger, spec_max_filter, LogFilter, LoggerRegistry};
use crate::sandbox::{create_sandbox, sandbox_supported, IsolationGate, Platform};
use crate::script::{ScriptRuntime, SwSenders};

verus! {

/// Failure of one step of the rendezvous.  Each is fatal to the child.
#[derive(Clone, Copy, PartialEq, Eq, Structural, Debug)]
pub enum BootstrapError {
    /// No rendezvous exists under the token.
    UnknownToken,
    /// A rendezvous under this name already exists.
    TokenInUse,
    /// The token's one connection has already been claimed.
    TokenConsumed,
    /// The parent has not delivered a payload over this rendezvous yet.
    PayloadMissing,
    /// No child has connected here yet, so there is no endpoint to send
    /// the payload over.
    NotConnected,
    /// The payload was already delivered once; it is never re-delivered.
    AlreadyDelivered,
    /// The payload was already received once; it is never re-delivered.
    PayloadTaken,
}

/// Where one rendezvous stands in the handshake.
#[derive(Clone, Copy, PartialEq, Eq, Structural, Debug)]
pub enum RendezvousState {
    /// Created by the parent; no child has connected.
    Fresh,
    /// A child connected and sent its payload-channel endpoint.
    Connected,
    /// The parent sent the payload; it waits for the child to take it.
    Delivered,
    /// The payload was taken; the rendezvous is spent.
    Closed,
}

/// An opaque name for a one-shot rendezvous, generated by the parent and
/// passed to the child as a launch parameter.
pub struct BootstrapToken {
    name: String,
}

impl BootstrapToken {
    /// The rendezvous name this token carries.
    pub closed spec fn name(&self) -> Seq<char> {
        self.name@
    }

    /// The textual form handed to the spawned child as a launch parameter.
    pub fn launch_param(&self) -> (r: &String)
        ensures
            r@ == self.name(),
    {
        &self.name
    }
}

/// The serialized child configuration, delivered exactly once: global
/// options, a preference snapshot, the remote logging channel with its
/// filter, and the worker-manager senders.
pub struct UnprivilegedPayload {
    pub opts: Opts,
    pub prefs: Vec<Pref>,
    /// Handle of the control channel the child's remote log sink binds to.
    pub log_chan: u64,
    /// Filter of that remote log sink.
    pub log_filter: LogFilter,
    pub sw_senders: SwSenders,
}

/// One rendezvous held by the broker.
pub struct Rendezvous {
    token: String,
    state: RendezvousState,
    payload: Option<UnprivilegedPayload>,
}

impl Rendezvous {
    /// The token naming this rendezvous.
    pub closed spec fn token(&self) -> Seq<char> {
        self.token@
    }

    /// Where the handshake stands.
    pub closed spec fn state(&self) -> RendezvousState {
        self.state
    }

    /// The payload in flight from parent to child, if any.
    pub closed spec fn payload(&self) -> Option<UnprivilegedPayload> {
        self.payload
    }
}

/// Tokens of distinct rendezvous differ.
pub open spec fn tokens_distinct(s: Seq<Rendezvous>) -> bool {
    forall|i: int, j: int| 0 <= i < j < s.len() ==> s[i].token() != s[j].token()
}

/// A payload is in flight exactly while the rendezvous is `Delivered`.
pub open spec fn states_consistent(s: Seq<Rendezvous>) -> bool {
    forall|i: int|
        0 <= i < s.len() ==> ((#[trigger] s[i]).state() == RendezvousState::Delivered <==> s[i].payload() is Some)
}

/// The rendezvous table as a map from token to rendezvous.
pub open spec fn entries_map(s: Seq<Rendezvous>) -> Map<Seq<char>, Rendezvous>
    decreases s.len(),
{
    if s.len() == 0 {
        Map::empty()
    } else {
        entries_map(s.drop_last()).insert(s.last().token(), s.last())
    }
}

/// Whether a connect with token `t` can succeed in broker state `m`: the
/// token names a rendezvous whose one connection is still unclaimed.
pub open spec fn connect_allowed(m: Map<Seq<char>, Rendezvous>, t: Seq<char>) -> bool {
    m.contains_key(t) && m[t].state() == RendezvousState::Fresh
}

/// Whether a receive with token `t` can succeed in broker state `m`: a
/// payload is in flight there.
pub open spec fn receive_allowed(m: Map<Seq<char>, Rendezvous>, t: Seq<char>) -> bool {
    m.contains_key(t) && m[t].state() == RendezvousState::Delivered
}

/// The child's claim on a rendezvous it connected to, consumed by the one
/// receive of the payload.
pub struct ChildConnection {
    token: String,
}

impl ChildConnection {
    /// The token under which the connection was made.
    pub closed spec fn token(&self) -> Seq<char> {
        self.token@
    }

    pub fn token_str(&self) -> (r: &String)
        ensures
            r@ == self.token(),
    {
        &self.token
    }
}

/// The broker of one-shot rendezvous between a parent and its spawned
/// content processes.
pub struct Broker {
    entries: Vec<Rendezvous>,
}

impl View for Broker {
    type V = Map<Seq<char>, Rendezvous>;

    closed spec fn view(&self) -> Map<Seq<char>, Rendezvous> {
        entries_map(self.entries@)
    }
}

impl Broker {
    /// The rendezvous table, in creation order.
    pub closed spec fn entries_seq(&self) -> Seq<Rendezvous> {
        self.entries@
    }

    /// Tokens are unique and a payload is in flight exactly while its
    /// rendezvous is `Delivered`.
    pub open spec fn wf(&self) -> bool {
        tokens_distinct(self.entries_seq()) && states_consistent(self.entries_seq())
    }

    pub fn new() -> (r: Broker)
        ensures
            r.wf(),
            r@ == Map::<Seq<char>, Rendezvous>::empty(),
            r.entries_seq() == Seq::<Rendezvous>::empty(),
    {
        Broker { entries: Vec::new() }
    }

    fn find(&self, token: &String) -> (r: Option<usize>)
        ensures
            match r {
                Some(i) => i < self.entries_seq().len() && self.entries_seq()[i as int].token()
                    == token@,
                None => forall|k: int|
                    0 <= k < self.entries_seq().len() ==> (#[trigger] self.entries_seq()[k]).token()
                        != token@,
            },
    {
        let n = self.entries.len();
        let mut j: usize = 0;
        while j < n
            invariant
                n == self.entries@.len(),
                j <= n,
                forall|k: int| 0 <= k < j ==> (#[trigger] self.entries@[k]).token() != token@,
            decreases n - j,
        {
            if self.entries[j].token == *token {
                return Some(j);
            }
            j = j + 1;
        }
        None
    }

    /// Creates a one-shot rendezvous under the given name and returns the
    /// token for it.  Refused when the name is taken — a name, once used,
    /// never names a second rendezvous, so a spent token can never be
    /// revived by re-creation.
    pub fn create_rendezvous(&mut self, name: String) -> (r: Result<BootstrapToken, BootstrapError>)
        requires
            old(self).wf(),
        ensures
            final(self).wf(),
            r is Ok <==> !old(self)@.contains_key(name@),
            r matches Ok(tk) ==> {
                &&& tk.name() == name@
                &&& final(self)@ =~= old(self)@.insert(name@, final(self)@[name@])
                &&& final(self)@.contains_key(name@)
                &&& final(self)@[name@].token() == name@
                &&& final(self)@[name@].state() == RendezvousState::Fresh
                &&& final(self)@[name@].payload() is None
                &&& connect_allowed(final(self)@, name@)
            },
            r is Err ==> final(self)@ == old(self)@ && final(self).entries_seq() == old(
                self,
            ).entries_seq() && r == Err::<BootstrapToken, BootstrapError>(BootstrapError::TokenInUse),
    {
        proof {
            lemma_entries_map_props(self.entries@);
        }
        match self.find(&name) {
            Some(_) => Err(BootstrapError::TokenInUse),
            None => {
                let entry = Rendezvous {
                    token: name.clone(),
                    state: RendezvousState::Fresh,
                    payload: None,
                };
                proof {
                    lemma_entries_map_push(self.entries@, entry);
                }
                self.entries.push(entry);
                Ok(BootstrapToken { name })
            },
        }
    }

    /// The child's connect with its launch token.  It succeeds exactly when
    /// the token names a rendezvous whose connection is unclaimed; the claim
    /// consumes the token, so a second connect with the same token is
    /// refused.  On success the child's payload-channel endpoint stands
    /// ready for the parent.
    pub fn connect(&mut self, token: &String) -> (r: Result<ChildConnection, BootstrapError>)
        requires
            old(self).wf(),
        ensures
            final(self).wf(),
            r is Ok <==> connect_allowed(old(self)@, token@),
            r matches Ok(c) ==> {
                &&& c.token() == token@
                &&& final(self)@ =~= old(self)@.insert(token@, final(self)@[token@])
                &&& final(self)@[token@].token() == token@
                &&& final(self)@[token@].state() == RendezvousState::Connected
                &&& final(self)@[token@].payload() is None
                &&& !connect_allowed(final(self)@, token@)
            },
            r is Err ==> final(self)@ == old(self)@ && final(self).entries_seq() == old(
                self,
            ).entries_seq(),
            r == Err::<ChildConnection, BootstrapError>(BootstrapError::UnknownToken) <==> !old(
                self,
            )@.contains_key(token@),
            r == Err::<ChildConnection, BootstrapError>(BootstrapError::TokenConsumed) <==> (old(
                self,
            )@.contains_key(token@) && old(self)@[token@].state() != RendezvousState::Fresh),
    {
        proof {
            lemma_entries_map_props(self.entries@);
        }
        match self.find(token) {
            None => Err(BootstrapError::UnknownToken),
            Some(i) => {
                let ghost s0 = self.entries@;
                match self.entries[i].state {
                    RendezvousState::Fresh => {
                        let e = &mut self.entries[i];
                        e.state = RendezvousState::Connected;
                        proof {
                            lemma_entries_map_update(s0, i as int, self.entries@[i as int]);
                            lemma_entries_map_props(self.entries@);
                        }
                        Ok(ChildConnection { token: token.clone() })
                    },
                    _ => Err(BootstrapError::TokenConsumed),
                }
            },
        }
    }

    /// The parent's half of the handshake: it accepts the child's endpoint
    /// and sends the payload over it, closing the rendezvous.  It succeeds
    /// exactly when a child has connected and nothing was delivered yet; a
    /// second delivery is refused.
    pub fn deliver_payload(&mut self, token: &BootstrapToken, payload: UnprivilegedPayload) -> (r:
        Result<(), BootstrapError>)
        requires
            old(self).wf(),
        ensures
            final(self).wf(),
            r is Ok <==> (old(self)@.contains_key(token.name()) && old(self)@[token.name()].state()
                == RendezvousState::Connected),
            r is Ok ==> {
                &&& final(self)@ =~= old(self)@.insert(token.name(), final(self)@[token.name()])
                &&& final(self)@[token.name()].token() == token.name()
                &&& final(self)@[token.name()].state() == RendezvousState::Delivered
                &&& final(self)@[token.name()].payload() == Some(payload)
                &&& receive_allowed(final(self)@, token.name())
            },
            r is Err ==> final(self)@ == old(self)@ && final(self).entries_seq() == old(
                self,
            ).entries_seq(),
            r == Err::<(), BootstrapError>(BootstrapError::UnknownToken) <==> !old(
                self,
            )@.contains_key(token.name()),
            r == Err::<(), BootstrapError>(BootstrapError::NotConnected) <==> (old(
                self,
            )@.contains_key(token.name()) && old(self)@[token.name()].state()
                == RendezvousState::Fresh),
            r == Err::<(), BootstrapError>(BootstrapError::AlreadyDelivered) <==> (old(
                self,
            )@.contains_key(token.name()) && (old(self)@[token.name()].state()
                == RendezvousState::Delivered || old(self)@[token.name()].state()
                == RendezvousState::Closed)),
    {
        proof {
            lemma_entries_map_props(self.entries@);
        }
        match self.find(&token.name) {
            None => Err(BootstrapError::UnknownToken),
            Some(i) => {
                let ghost s0 = self.entries@;
                match self.entries[i].state {
                    RendezvousState::Fresh => Err(BootstrapError::NotConnected),
                    RendezvousState::Connected => {
                        let e = &mut self.entries[i];
                        e.state = RendezvousState::Delivered;
                        e.payload = Some(payload);
                        proof {
                            lemma_entries_map_update(s0, i as int, self.entries@[i as int]);
                            lemma_entries_map_props(self.entries@);
                        }
                        Ok(())
                    },
                    _ => Err(BootstrapError::AlreadyDelivered),
                }
            },
        }
    }

    /// The child's blocking receive on its payload channel.  It consumes the
    /// child's claim and succeeds exactly when a payload is in flight; the
    /// payload leaves the broker with it, so it is never re-delivered: after
    /// a success the rendezvous is closed and holds nothing.
    pub fn receive_payload(&mut self, conn: ChildConnection) -> (r: Result<
        UnprivilegedPayload,
        BootstrapError,
    >)
        requires
            old(self).wf(),
        ensures
            final(self).wf(),
            r is Ok <==> receive_allowed(old(self)@, conn.token()),
            r matches Ok(p) ==> {
                &&& Some(p) == old(self)@[conn.token()].payload()
                &&& final(self)@ =~= old(self)@.insert(conn.token(), final(self)@[conn.token()])
                &&& final(self)@[conn.token()].token() == conn.token()
                &&& final(self)@[conn.token()].state() == RendezvousState::Closed
                &&& final(self)@[conn.token()].payload() is None
                &&& !receive_allowed(final(self)@, conn.token())
                &&& !connect_allowed(final(self)@, conn.token())
            },
            r is Err ==> final(self)@ == old(self)@ && final(self).entries_seq() == old(
                self,
            ).entries_seq(),
            r == Err::<UnprivilegedPayload, BootstrapError>(BootstrapError::UnknownToken) <==> !old(
                self,
            )@.contains_key(conn.token()),
            r == Err::<UnprivilegedPayload, BootstrapError>(BootstrapError::PayloadMissing) <==> (
            old(self)@.contains_key(conn.token()) && (old(self)@[conn.token()].state()
                == RendezvousState::Fresh || old(self)@[conn.token()].state()
                == RendezvousState::Connected)),
            r == Err::<UnprivilegedPayload, BootstrapError>(BootstrapError::PayloadTaken) <==> (old(
                self,
            )@.contains_key(conn.token()) && old(self)@[conn.token()].state()
                == RendezvousState::Closed),
    {
        proof {
            lemma_entries_map_props(self.entries@);
        }
        match self.find(&conn.token) {
            None => Err(BootstrapError::UnknownToken),
            Some(i) => {
                let ghost s0 = self.entries@;
                match self.entries[i].state {
                    RendezvousState::Fresh => Err(BootstrapError::PayloadMissing),
                    RendezvousState::Connected => Err(BootstrapError::PayloadMissing),
                    RendezvousState::Closed => Err(BootstrapError::PayloadTaken),
                    RendezvousState::Delivered => {
                        let e = &mut self.entries[i];
                        e.state = RendezvousState::Closed;
                        let taken = e.payload.take();
                        proof {
                            lemma_entries_map_update(s0, i as int, self.entries@[i as int]);
                            lemma_entries_map_props(self.entries@);
                        }
                        match taken {
                            Some(p) => Ok(p),
                            None => Err(BootstrapError::PayloadMissing),
                        }
                    },
                }
            },
        }
    }
}

/// Outcome of the rendezvous table after pushing a fresh entry.
proof fn lemma_entries_map_push(s: Seq<Rendezvous>, r: Rendezvous)
    ensures
        entries_map(s.push(r)) =~= entries_map(s).insert(r.token(), r),
{
    assert(s.push(r).drop_last() =~= s);
    assert(s.push(r).last() == r);
}

/// Replacing one entry by another under the same token updates the table at
/// exactly that token.
proof fn lemma_entries_map_update(s: Seq<Rendezvous>, i: int, r: Rendezvous)
    requires
        tokens_distinct(s),
        0 <= i < s.len(),
        r.token() == s[i].token(),
    ensures
        entries_map(s.update(i, r)) =~= entries_map(s).insert(r.token(), r),
    decreases s.len(),
{
    let s2 = s.update(i, r);
    if i == s.len() - 1 {
        assert(s2.drop_last() =~= s.drop_last());
        assert(s2.last() == r);
    } else {
        let pre = s.drop_last();
        assert(forall|a: int| 0 <= a < pre.len() ==> pre[a] == s[a]);
        lemma_entries_map_update(pre, i, r);
        assert(s2.drop_last() =~= pre.update(i, r));
        assert(s2.last() == s.last());
        assert(s[i].token() != s.last().token());
        assert(entries_map(s2) =~= entries_map(pre).insert(r.token(), r).insert(
            s.last().token(),
            s.last(),
        ));
    }
}

/// What the table says about its entries: every entry is found under its
/// token, and every key of the table is some entry's token.
proof fn lemma_entries_map_props(s: Seq<Rendezvous>)
    requires
        tokens_distinct(s),
    ensures
        forall|i: int|
            0 <= i < s.len() ==> entries_map(s).contains_key((#[trigger] s[i]).token())
                && entries_map(s)[s[i].token()] == s[i],
        forall|t: Seq<char>|
            #[trigger] entries_map(s).contains_key(t) ==> exists|i: int|
                0 <= i < s.len() && (#[trigger] s[i]).token() == t,
    decreases s.len(),
{
    if s.len() > 0 {
        let pre = s.drop_last();
        assert(forall|a: int| 0 <= a < pre.len() ==> pre[a] == s[a]);
        lemma_entries_map_props(pre);
        assert forall|t: Seq<char>| #[trigger] entries_map(s).contains_key(t) implies exists|i: int|
            0 <= i < s.len() && (#[trigger] s[i]).token() == t by {
            if t == s.last().token() {
                assert(s[s.len() - 1].token() == t);
            } else {
                assert(entries_map(pre).contains_key(t));
                let i = choose|i: int| 0 <= i < pre.len() && (#[trigger] pre[i]).token() == t;
                assert(s[i].token() == t);
            }
        }
    }
}

/// A token grants at most one connection: in the broker state a successful
/// connect leaves behind, the same token no longer admits a connect — a
/// second use of the token is refused.
pub proof fn lemma_token_single_use(
    before: Map<Seq<char>, Rendezvous>,
    after: Map<Seq<char>, Rendezvous>,
    t: Seq<char>,
)
    requires
        connect_allowed(before, t),
        after.contains_key(t),
        after[t].state() == RendezvousState::Connected,
    ensures
        !connect_allowed(after, t),
{
}

/// A payload is delivered at most once: in the broker state a successful
/// receive leaves behind, the rendezvous is spent — it holds no payload,
/// admits no further receive, and admits no further connect.
pub proof fn lemma_payload_delivered_once(
    after: Map<Seq<char>, Rendezvous>,
    t: Seq<char>,
)
    requires
        after.contains_key(t),
        after[t].state() == RendezvousState::Closed,
        after[t].payload() is None,
    ensures
        !receive_allowed(after, t),
        !connect_allowed(after, t),
        after[t].payload() is None,
{
}

/// What the child retains once its bootstrap completed: the applied options
/// and preference snapshot, the remote logging channel, the isolation gate
/// when one was requested, and its running share of the pipeline.
pub struct ContentProcess {
    opts: Opts,
    prefs: Vec<Pref>,
    log_chan: u64,
    gate: Option<IsolationGate>,
    running: bool,
}

impl ContentProcess {
    /// The global options applied from the payload.
    pub closed spec fn opts(&self) -> Opts {
        self.opts
    }

    /// The preference snapshot applied from the payload.
    pub closed spec fn prefs(&self) -> Seq<Pref> {
        self.prefs@
    }

    /// The control channel the remote log sink is bound to.
    pub closed spec fn log_chan(&self) -> u64 {
        self.log_chan
    }

    /// The isolation gate, present exactly when the options requested one.
    pub closed spec fn gate(&self) -> Option<IsolationGate> {
        self.gate
    }

    /// Whether the child's share of the pipeline is running.
    pub closed spec fn running(&self) -> bool {
        self.running
    }

    pub fn is_running(&self) -> (r: bool)
        ensures
            r == self.running(),
    {
        self.running
    }

    pub fn is_sandboxed(&self) -> (r: bool)
        ensures
            r == (self.gate() is Some),
    {
        self.gate.is_some()
    }

    pub fn options(&self) -> (r: &Opts)
        ensures
            *r == self.opts(),
    {
        &self.opts
    }

    pub fn pref_count(&self) -> (r: usize)
        ensures
            r == self.prefs().len(),
    {
        self.prefs.len()
    }

    pub fn logging_channel(&self) -> (r: u64)
        ensures
            r == self.log_chan(),
    {
        self.log_chan
    }
}

/// A fatal failure of the child's startup; the process terminates, the
/// parent is unaffected.
#[derive(Clone, Copy, PartialEq, Eq, Structural, Debug)]
pub enum ChildFatal {
    /// The rendezvous failed: bad token, refused connection, or no payload.
    Transport(BootstrapError),
    /// A process-wide logger was already installed in this process.
    LoggerInstall,
    /// Sandboxing was requested but this platform cannot provide it; the
    /// child aborts rather than run unsandboxed.
    SandboxUnavailable,
}

/// Content-process entry point, once its connect has been made: receives the
/// payload exactly once, applies options and preferences, installs the
/// dual-destination log sink bound to the delivered logging channel, enters
/// the isolation gate when the options ask for it, runs the one-time
/// scripting initialization, hands over the worker-manager senders, and
/// starts the child's share of the pipeline.  Every failing step is fatal:
/// the child returns the failure and terminates without retrying.
pub fn run_content_process(
    broker: &mut Broker,
    conn: ChildConnection,
    registry: &mut LoggerRegistry,
    rt: &mut ScriptRuntime,
    env_filter: LogFilter,
    platform: Platform,
) -> (r: Result<ContentProcess, ChildFatal>)
    requires
        old(broker).wf(),
        !old(rt).initialized(),
    ensures
        final(broker).wf(),
        r is Ok <==> (receive_allowed(old(broker)@, conn.token()) && !old(registry).installed() && (
        old(broker)@[conn.token()].payload() matches Some(p) ==> (p.opts.sandbox
            ==> sandbox_supported(platform)))),
        r matches Ok(cp) ==> (old(broker)@[conn.token()].payload() matches Some(p) && {
            &&& cp.opts() == p.opts
            &&& cp.prefs() == p.prefs@
            &&& cp.log_chan() == p.log_chan
            &&& (p.opts.sandbox ==> (cp.gate() matches Some(g) && g.is_active()))
            &&& (!p.opts.sandbox ==> cp.gate() is None)
            &&& cp.running()
            &&& final(rt).initialized()
            &&& final(rt).sw_senders() == Some(p.sw_senders)
            &&& final(registry).installed()
            &&& final(registry).max_level() == spec_max_filter(env_filter, p.log_filter)
            &&& final(broker)@[conn.token()].state() == RendezvousState::Closed
            &&& final(broker)@[conn.token()].payload() is None
        }),
        r matches Err(ChildFatal::Transport(_)) ==> (!receive_allowed(
            old(broker)@,
            conn.token(),
        ) && final(broker)@ == old(broker)@ && final(registry).sink() == old(registry).sink()
            && !final(rt).initialized()),
        r == Err::<ContentProcess, ChildFatal>(ChildFatal::Transport(BootstrapError::UnknownToken))
            <==> !old(broker)@.contains_key(conn.token()),
        r == Err::<ContentProcess, ChildFatal>(
            ChildFatal::Transport(BootstrapError::PayloadMissing),
        ) <==> (old(broker)@.contains_key(conn.token()) && (old(broker)@[conn.token()].state()
            == RendezvousState::Fresh || old(broker)@[conn.token()].state()
            == RendezvousState::Connected)),
        r == Err::<ContentProcess, ChildFatal>(ChildFatal::Transport(BootstrapError::PayloadTaken))
            <==> (old(broker)@.contains_key(conn.token()) && old(broker)@[conn.token()].state()
            == RendezvousState::Closed),
        r == Err::<ContentProcess, ChildFatal>(ChildFatal::LoggerInstall) <==> (receive_allowed(
            old(broker)@,
            conn.token(),
        ) && old(registry).installed()),
        r == Err::<ContentProcess, ChildFatal>(ChildFatal::SandboxUnavailable) <==> (
        receive_allowed(old(broker)@, conn.token()) && !old(registry).installed() && (old(
            broker,
        )@[conn.token()].payload() matches Some(p) && p.opts.sandbox && !sandbox_supported(
            platform,
        ))),
        r is Err ==> !final(rt).initialized() && final(rt).sw_senders() == old(rt).sw_senders(),
{
    let payload = match broker.receive_payload(conn) {
        Ok(p) => p,
        Err(e) => {
            return Err(ChildFatal::Transport(e));
        },
    };
    let UnprivilegedPayload { opts, prefs, log_chan, log_filter, sw_senders } = payload;

    // Install the dual-destination log sink bound to the delivered channel.
    match set_logger(registry, env_filter, log_filter) {
        Ok(_) => (),
        Err(_) => {
            return Err(ChildFatal::LoggerInstall);
        },
    };

    // Enter the sandbox if the delivered options ask for it.
    let gate = if opts.sandbox {
        match create_sandbox(platform) {
            Ok(g) => Some(g),
            Err(_) => {
                return Err(ChildFatal::SandboxUnavailable);
            },
        }
    } else {
        None
    };

    // One-time scripting initialization, then the worker-manager channels.
    rt.init();
    rt.init_service_workers(sw_senders);

    Ok(ContentProcess { opts, prefs, log_chan, gate, running: true })
}

} // verus!

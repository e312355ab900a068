//! The connection state and the supervisor's step.

use vstd::prelude::*;
use vstd::string::*;

use crate::auth::{plan_connection, plan_view, planned, ConnectError, ConnectPlan};

verus! {

/// State of the link to the control API.
///
/// `S` is the handle of an established socket. The state only stores it and
/// hands it back, so any type will do.
#[derive(Clone, Debug)]
pub struct LcuClient<S> {
    pub socket: Option<S>,
    pub auth_url: String,
    pub is_lcu_running: bool,
}

/// Mathematical value of an [`LcuClient`].
pub ghost struct ClientView<S> {
    pub socket: Option<S>,
    pub auth_url: Seq<char>,
    pub is_lcu_running: bool,
}

/// What the supervisor has to do after a sample.
#[derive(Debug)]
pub enum WatchAction<S> {
    /// The process is gone. The socket that was stored, if any, is handed
    /// out so that a close frame can be sent on it; whether that succeeds
    /// does not matter.
    Close(Option<S>),
    /// Nothing changed.
    Idle,
    /// The process runs under a new control URL: connect to it.
    Connect,
}

impl<S> View for LcuClient<S> {
    type V = ClientView<S>;

    open spec fn view(&self) -> ClientView<S> {
        ClientView {
            socket: self.socket,
            auth_url: self.auth_url@,
            is_lcu_running: self.is_lcu_running,
        }
    }
}

impl<S> ClientView<S> {
    /// The state a client starts in.
    pub open spec fn initial() -> Self {
        ClientView { socket: None, auth_url: Seq::empty(), is_lcu_running: false }
    }

    /// Whether `url` differs from the stored control URL.
    pub open spec fn url_changes(self, url: Seq<char>) -> bool {
        self.auth_url != url
    }

    /// The state with `url` as its control URL.
    pub open spec fn with_url(self, url: Seq<char>) -> Self {
        ClientView { socket: self.socket, auth_url: url, is_lcu_running: self.is_lcu_running }
    }

    /// The state with the running flag set to `running`.
    pub open spec fn with_status(self, running: bool) -> Self {
        ClientView { socket: self.socket, auth_url: self.auth_url, is_lcu_running: running }
    }

    /// The state with `socket` stored.
    pub open spec fn with_socket(self, socket: S) -> Self {
        ClientView {
            socket: Some(socket),
            auth_url: self.auth_url,
            is_lcu_running: self.is_lcu_running,
        }
    }

    /// The state after a close: no socket, no control URL.
    pub open spec fn closed(self) -> Self {
        ClientView { socket: None, auth_url: Seq::empty(), is_lcu_running: self.is_lcu_running }
    }

    /// The state after one sample of the process monitor.
    pub open spec fn after_sample(self, url: Seq<char>, running: bool) -> Self {
        if running {
            self.with_status(true).with_url(url)
        } else {
            self.with_status(false).closed()
        }
    }

    /// The state after a sequence of samples, each a control URL and a
    /// running flag, taken in order.
    pub open spec fn after_samples(self, samples: Seq<(Seq<char>, bool)>) -> Self
        decreases samples.len(),
    {
        if samples.len() == 0 {
            self
        } else {
            self.after_samples(samples.drop_last()).after_sample(samples.last().0, samples.last().1)
        }
    }

    /// What one sample of the process monitor asks of the supervisor.
    pub open spec fn action_on_sample(self, url: Seq<char>, running: bool) -> WatchAction<S> {
        if !running {
            WatchAction::Close(self.socket)
        } else if self.url_changes(url) {
            WatchAction::Connect
        } else {
            WatchAction::Idle
        }
    }
}

impl<S> LcuClient<S> {
    /// A client that has seen no sample yet.
    pub fn new() -> (client: Self)
        ensures
            client@ == ClientView::<S>::initial(),
    {
        LcuClient { socket: None, auth_url: String::new(), is_lcu_running: false }
    }

    /// Stores `url` as the control URL and reports whether it differs from
    /// the one stored before.
    pub fn update_auth_url(&mut self, url: &String) -> (changed: bool)
        ensures
            changed == old(self)@.url_changes(url@),
            final(self)@ == old(self)@.with_url(url@),
    {
        if self.auth_url.eq(url) {
            return false;
        }
        self.auth_url = url.clone();
        true
    }

    /// Records whether the process runs. Socket and URL stay as they are.
    pub fn set_lcu_status(&mut self, s: bool)
        ensures
            final(self)@ == old(self)@.with_status(s),
    {
        self.is_lcu_running = s;
    }

    /// Forgets the socket and the control URL. The socket that was stored is
    /// returned, so that the caller can send a close frame on it.
    pub fn close_ws(&mut self) -> (socket: Option<S>)
        ensures
            socket == old(self)@.socket,
            final(self)@ == old(self)@.closed(),
    {
        let socket = self.socket.take();
        self.auth_url = String::new();
        socket
    }

    /// Takes one sample of the process monitor, updates the state and says
    /// what the supervisor has to do.
    pub fn watch_cmd_output(&mut self, auth_url: &String, running: bool) -> (action: WatchAction<S>)
        ensures
            final(self)@ == old(self)@.after_sample(auth_url@, running),
            action == old(self)@.action_on_sample(auth_url@, running),
    {
        self.set_lcu_status(running);
        if !running {
            let socket = self.close_ws();
            return WatchAction::Close(socket);
        }
        let updated = self.update_auth_url(auth_url);
        if !updated {
            return WatchAction::Idle;
        }
        WatchAction::Connect
    }

    /// Prepares a connection to the stored control URL: the address to
    /// connect to and the value of the `Authorization` header. Nothing is
    /// sent; a URL without a password is refused here.
    pub fn conn_ws(&self) -> (plan: Result<ConnectPlan, ConnectError>)
        ensures
            plan_view(plan) == planned(self@.auth_url),
    {
        plan_connection(self.auth_url.as_str())
    }

    /// Stores the socket of a session that has ended.
    pub fn publish_socket(&mut self, socket: S)
        ensures
            final(self)@ == old(self)@.with_socket(socket),
    {
        self.socket = Some(socket);
    }

    /// Called when the socket was closed by the peer. The state is kept: a
    /// dead socket is only dropped by the next sample that closes or
    /// reconnects.
    pub fn on_ws_close(&mut self)
        ensures
            final(self)@ == old(self)@,
    {
    }
}

/// Closing is idempotent: a closed state has no socket and no control URL,
/// and closing it again changes nothing.
pub proof fn lemma_close_idempotent<S>(state: ClientView<S>)
    ensures
        state.closed().socket is None,
        state.closed().auth_url == Seq::<char>::empty(),
        state.closed().closed() == state.closed(),
{
}

/// After any sequence of samples a close leaves no socket and no control
/// URL, and a second close changes nothing.
pub proof fn lemma_close_after_samples<S>(state: ClientView<S>, samples: Seq<(Seq<char>, bool)>)
    ensures
        state.after_samples(samples).closed().socket is None,
        state.after_samples(samples).closed().auth_url == Seq::<char>::empty(),
        state.after_samples(samples).closed().closed() == state.after_samples(samples).closed(),
{
}

/// After a sequence of samples the running flag is that of the last one.
/// If the process was gone then, the state is closed; if it ran, the control
/// URL is the one it reported.
pub proof fn lemma_state_follows_last_sample<S>(
    state: ClientView<S>,
    samples: Seq<(Seq<char>, bool)>,
)
    requires
        samples.len() > 0,
    ensures
        state.after_samples(samples).is_lcu_running == samples.last().1,
        !samples.last().1 ==> state.after_samples(samples).socket is None
            && state.after_samples(samples).auth_url == Seq::<char>::empty(),
        samples.last().1 ==> state.after_samples(samples).auth_url == samples.last().0,
{
}

/// A control URL reported twice in a row counts as a change at most once:
/// whatever the state was, the second report changes nothing.
pub proof fn lemma_update_twice<S>(state: ClientView<S>, url: Seq<char>)
    ensures
        !state.with_url(url).url_changes(url),
        state.with_url(url).with_url(url) == state.with_url(url),
{
}

/// A report of a URL counts as a change exactly when it differs from the
/// report before it.
pub proof fn lemma_update_counts_changes<S>(state: ClientView<S>, first: Seq<char>, second: Seq<char>)
    ensures
        state.with_url(first).url_changes(second) <==> first != second,
{
}

/// While the process runs, a sample that repeats the URL of the sample
/// before it asks for nothing, and one with another URL asks to connect.
pub proof fn lemma_sample_after_running_sample<S>(
    state: ClientView<S>,
    first: Seq<char>,
    second: Seq<char>,
)
    ensures
        state.after_sample(first, true).action_on_sample(second, true) == (if first == second {
            WatchAction::<S>::Idle
        } else {
            WatchAction::<S>::Connect
        }),
{
}

/// A sample that finds the process gone closes, whatever came before: the
/// stored socket is handed out, and the state is left without socket and
/// without control URL.
pub proof fn lemma_absent_sample_closes<S>(state: ClientView<S>, url: Seq<char>)
    ensures
        state.action_on_sample(url, false) == WatchAction::Close(state.socket),
        state.after_sample(url, false).socket is None,
        state.after_sample(url, false).auth_url == Seq::<char>::empty(),
        !state.after_sample(url, false).is_lcu_running,
{
}

/// From a state whose control URL is not `first`, the samples "runs under
/// `first`", the same again, "runs under `second`" and "gone" ask in turn to
/// connect, for nothing, to connect again and to close; the state ends
/// without socket and without control URL.
pub proof fn lemma_url_change_then_absence<S>(
    state: ClientView<S>,
    first: Seq<char>,
    second: Seq<char>,
    last: Seq<char>,
)
    requires
        state.url_changes(first),
        first != second,
    ensures
        ({
            let s1 = state.after_sample(first, true);
            let s2 = s1.after_sample(first, true);
            let s3 = s2.after_sample(second, true);
            let s4 = s3.after_sample(last, false);
            &&& state.action_on_sample(first, true) == WatchAction::<S>::Connect
            &&& s1.action_on_sample(first, true) == WatchAction::<S>::Idle
            &&& s2.action_on_sample(second, true) == WatchAction::<S>::Connect
            &&& s3.action_on_sample(last, false) == WatchAction::Close(state.socket)
            &&& s4 == state.with_status(false).closed()
        }),
{
}

} // verus!

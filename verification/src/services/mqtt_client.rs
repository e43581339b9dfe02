use vstd::prelude::*;
use vstd::string::*;

use crate::config::MqttClientConfig;
use crate::service_id::ServiceId;
use crate::supervisor::{initial_status, Supervisor};

verus! {

broadcast use vstd::string::group_string_axioms;

/// MQTT delivery guarantee of a subscription or publication.
#[derive(Clone, Copy, Debug, PartialEq, Eq, Structural)]
pub enum QosLevel {
    AtMostOnce,
    AtLeastOnce,
    ExactlyOnce,
}

/// A single MQTT topic the client must subscribe to, paired with its required QoS level.
#[derive(Debug)]
pub struct TopicSubscription {
    pub topic: String,
    pub qos: QosLevel,
}

/// Returns the canonical list of topics this node must subscribe to on startup.
pub fn required_subscriptions() -> (r: Vec<TopicSubscription>)
    ensures
        r@.len() == 1,
        r@[0].topic@ == "registration"@,
        r@[0].qos == QosLevel::AtLeastOnce,
{
    let mut r: Vec<TopicSubscription> = Vec::new();
    r.push(TopicSubscription { topic: String::from_str("registration"), qos: QosLevel::AtLeastOnce });
    r
}

/// A message received from, or to be published to, the broker.
#[derive(Debug)]
pub struct MqttMessage {
    pub topic: String,
    pub payload: Vec<u8>,
}

/// Register the MQTT client with the supervisor. `available` should match
/// the availability of the broker the client connects to.
pub fn register_onto<S>(supervisor: &mut Supervisor<S>, service: S, available: bool)
    requires
        old(supervisor).wf(),
    ensures
        final(supervisor).wf(),
        final(supervisor)@ == old(supervisor)@.insert(ServiceId::MqttClient, initial_status(available)),
        final(supervisor).services() == old(supervisor).services().insert(ServiceId::MqttClient, service),
        final(supervisor).queue_capacity() == old(supervisor).queue_capacity(),
{
    supervisor.register(ServiceId::MqttClient, service, available);
}

/// Running state of the MQTT client service: whether it runs, and whether
/// its command and message channels are still available. The channels are
/// handed to the client's tasks when a start is accepted, so a start can be
/// accepted once only.
pub struct ClientLifecycle {
    running: bool,
    channels_available: bool,
}

/// Mathematical value of a [`ClientLifecycle`].
pub struct ClientLifecycleView {
    pub running: bool,
    pub startable: bool,
}

impl View for ClientLifecycle {
    type V = ClientLifecycleView;

    closed spec fn view(&self) -> ClientLifecycleView {
        ClientLifecycleView { running: self.running, startable: self.channels_available }
    }
}

/// Why a start is refused, if it is.
pub open spec fn client_start_refusal(v: ClientLifecycleView) -> Option<Seq<char>> {
    if v.running {
        Some("MqttClientService is already running"@)
    } else if !v.startable {
        Some("MqttClientService command receiver already consumed"@)
    } else {
        None
    }
}

/// The state after a start request: an accepted request hands out the channels.
pub open spec fn client_after_start_request(v: ClientLifecycleView) -> ClientLifecycleView {
    if client_start_refusal(v) is None {
        ClientLifecycleView { running: v.running, startable: false }
    } else {
        v
    }
}

/// The state once the connection set-up has finished.
pub open spec fn client_after_setup(v: ClientLifecycleView, setup_ok: bool) -> ClientLifecycleView {
    ClientLifecycleView { running: v.running || setup_ok, startable: v.startable }
}

/// The state after a stop request.
pub open spec fn client_after_stop(v: ClientLifecycleView) -> ClientLifecycleView {
    ClientLifecycleView { running: false, startable: v.startable }
}

impl ClientLifecycle {
    pub fn new() -> (l: ClientLifecycle)
        ensures
            l@ == (ClientLifecycleView { running: false, startable: true }),
    {
        ClientLifecycle { running: false, channels_available: true }
    }

    pub fn is_running(&self) -> (r: bool)
        ensures
            r == self@.running,
    {
        self.running
    }

    /// Examine a start request; when it is accepted the channels are handed
    /// out, whatever the outcome of the connection set-up that follows.
    pub fn begin_start(&mut self) -> (r: Result<(), String>)
        ensures
            r is Ok <==> client_start_refusal(old(self)@) is None,
            r matches Err(e) ==> e@ == client_start_refusal(old(self)@)->0,
            final(self)@ == client_after_start_request(old(self)@),
    {
        if self.running {
            return Err(String::from_str("MqttClientService is already running"));
        }
        if !self.channels_available {
            return Err(String::from_str("MqttClientService command receiver already consumed"));
        }
        self.channels_available = false;
        Ok(())
    }

    /// The connection set-up finished: the client runs when it succeeded.
    pub fn finish_start(&mut self, setup_ok: bool)
        ensures
            final(self)@ == client_after_setup(old(self)@, setup_ok),
    {
        if setup_ok {
            self.running = true;
        }
    }

    /// Stop request: the client is told to disconnect when it runs.
    pub fn stop(&mut self) -> (r: Result<(), String>)
        ensures
            r is Ok <==> old(self)@.running,
            r matches Err(e) ==> e@ == "MqttClientService is not running"@,
            final(self)@ == client_after_stop(old(self)@),
    {
        if self.running {
            self.running = false;
            Ok(())
        } else {
            Err(String::from_str("MqttClientService is not running"))
        }
    }
}

/// Once a start of the MQTT client has been accepted, no later start is:
/// no transition makes the channels available again, and without them every
/// start is refused.
pub proof fn law_client_starts_once(v: ClientLifecycleView, u: ClientLifecycleView, setup_ok: bool)
    requires
        client_start_refusal(v) is None,
        !u.startable,
    ensures
        !client_after_start_request(v).startable,
        client_start_refusal(u) is Some,
        !client_after_start_request(u).startable,
        !client_after_setup(u, setup_ok).startable,
        !client_after_stop(u).startable,
{
}

/// How the client authenticates to the broker.
pub enum ClientAuth {
    /// User name and password (broker without TLS).
    Credentials { username: String, password: String },
    /// Mutual TLS with the CA certificate and the node's own certificate and key.
    Tls { cafile: String, certfile: String, keyfile: String },
}

/// How the client connects to the broker.
pub struct ConnectPlan {
    pub client_id: String,
    pub host: String,
    pub port: u16,
    pub keep_alive_secs: u64,
    pub auth: ClientAuth,
}

/// The connection options for a client configuration: keep-alive of 30
/// seconds; TLS with the configured files when TLS is enabled, else the
/// configured credentials.
pub fn connect_plan(config: &MqttClientConfig) -> (p: ConnectPlan)
    ensures
        p.client_id@ == config.client_id@,
        p.host@ == config.host@,
        p.port == config.port,
        p.keep_alive_secs == 30,
        config.tls_enabled ==> (p.auth matches ClientAuth::Tls { cafile, certfile, keyfile }
            && cafile@ == config.cafile@ && certfile@ == config.certfile@ && keyfile@ == config.keyfile@),
        !config.tls_enabled ==> (p.auth matches ClientAuth::Credentials { username, password }
            && username@ == config.username@ && password@ == config.password@),
{
    let auth = if config.tls_enabled {
        ClientAuth::Tls {
            cafile: config.cafile.clone(),
            certfile: config.certfile.clone(),
            keyfile: config.keyfile.clone(),
        }
    } else {
        ClientAuth::Credentials { username: config.username.clone(), password: config.password.clone() }
    };
    ConnectPlan {
        client_id: config.client_id.clone(),
        host: config.host.clone(),
        port: config.port,
        keep_alive_secs: 30,
        auth,
    }
}

/// Which TLS file could not be read.
pub enum TlsFile {
    CaCert,
    ClientCert,
    ClientKey,
}

/// The error reported when a TLS file cannot be read.
pub fn tls_read_error(file: TlsFile, path: &str, cause: &str) -> (r: String)
    ensures
        r@ == (match file {
            TlsFile::CaCert => "Failed to read CA cert '"@,
            TlsFile::ClientCert => "Failed to read client cert '"@,
            TlsFile::ClientKey => "Failed to read client key '"@,
        }) + path@ + "': "@ + cause@,
{
    let head = match file {
        TlsFile::CaCert => "Failed to read CA cert '",
        TlsFile::ClientCert => "Failed to read client cert '",
        TlsFile::ClientKey => "Failed to read client key '",
    };
    String::from_str(head).concat(path).concat("': ").concat(cause)
}

/// An event of the MQTT client's event loop.
pub enum LoopEvent {
    /// A message was published to a subscribed topic.
    Publish { topic: String, payload: Vec<u8> },
    /// The broker acknowledged the connection.
    ConnAck,
    /// The broker closed the connection.
    Disconnect,
    /// Any other packet.
    Other,
    /// Polling the connection failed.
    PollError,
}

/// What the event loop does with an event.
pub enum LoopAction {
    /// Hand the message to the node's consumers.
    Forward(MqttMessage),
    /// Tell the waiting start-up code that the client is connected.
    SignalConnected,
    /// The connection was acknowledged again; nobody is waiting any more.
    Reconnected,
    /// Report the broker's disconnection.
    ReportDisconnect,
    /// Nothing to do.
    Ignore,
    /// Wait this many seconds before polling again.
    BackOff(u64),
}

/// State of the client's event loop: whether start-up still waits for the
/// first connection acknowledgement.
pub struct EventLoopState {
    connect_pending: bool,
}

impl View for EventLoopState {
    type V = bool;

    closed spec fn view(&self) -> bool {
        self.connect_pending
    }
}

/// Whether start-up still waits for the connection after an event.
pub open spec fn pending_after(pending: bool, event: LoopEvent) -> bool {
    match event {
        LoopEvent::ConnAck => false,
        _ => pending,
    }
}

/// Whether an event wakes the start-up code waiting for the connection.
pub open spec fn signals_connected(pending: bool, event: LoopEvent) -> bool {
    pending && event is ConnAck
}

impl EventLoopState {
    pub fn new() -> (s: EventLoopState)
        ensures
            s@,
    {
        EventLoopState { connect_pending: true }
    }

    /// Decide what to do with one event.
    pub fn on_event(&mut self, event: LoopEvent) -> (a: LoopAction)
        ensures
            final(self)@ == pending_after(old(self)@, event),
            (a is SignalConnected) == signals_connected(old(self)@, event),
            (match event {
                LoopEvent::Publish { topic, payload } => a matches LoopAction::Forward(m) && m.topic@ == topic@ && m.payload@ == payload@,
                LoopEvent::ConnAck => if old(self)@ { a is SignalConnected } else { a is Reconnected },
                LoopEvent::Disconnect => a is ReportDisconnect,
                LoopEvent::Other => a is Ignore,
                LoopEvent::PollError => a == LoopAction::BackOff(5),
            }),
    {
        match event {
            LoopEvent::Publish { topic, payload } => LoopAction::Forward(MqttMessage { topic, payload }),
            LoopEvent::ConnAck => {
                if self.connect_pending {
                    self.connect_pending = false;
                    LoopAction::SignalConnected
                } else {
                    LoopAction::Reconnected
                }
            },
            LoopEvent::Disconnect => LoopAction::ReportDisconnect,
            LoopEvent::Other => LoopAction::Ignore,
            LoopEvent::PollError => LoopAction::BackOff(5),
        }
    }
}

/// Whether start-up still waits after a series of events.
pub open spec fn pending_after_all(pending: bool, events: Seq<LoopEvent>) -> bool
    decreases events.len(),
{
    if events.len() == 0 {
        pending
    } else {
        pending_after(pending_after_all(pending, events.drop_last()), events.last())
    }
}

proof fn lemma_never_pending_again(events: Seq<LoopEvent>)
    ensures
        !pending_after_all(false, events),
    decreases events.len(),
{
    if events.len() > 0 {
        lemma_never_pending_again(events.drop_last());
    }
}

/// The start-up code is told of the connection at most once: after the
/// event that tells it, no series of later events tells it again.
pub proof fn law_connected_signalled_once(pending: bool, event: LoopEvent, later: Seq<LoopEvent>, next: LoopEvent)
    requires
        signals_connected(pending, event),
    ensures
        !signals_connected(pending_after_all(pending_after(pending, event), later), next),
{
    lemma_never_pending_again(later);
}

/// Only a connection acknowledgement ends start-up's wait for the
/// connection: no other event (a poll error, a disconnect, a message, any
/// other packet) changes whether it still waits, so from the start of the
/// event loop, the first acknowledgement after any series of other events
/// tells start-up that the client is connected, and that event alone.
pub proof fn law_only_connack_ends_the_wait(pending: bool, e: LoopEvent, before: Seq<LoopEvent>)
    requires
        forall|i: int| 0 <= i < before.len() ==> !(#[trigger] before[i] is ConnAck),
    ensures
        !(e is ConnAck) ==> pending_after(pending, e) == pending && !signals_connected(pending, e),
        pending_after_all(true, before) == true,
        signals_connected(pending_after_all(true, before), LoopEvent::ConnAck),
        !pending_after(pending, LoopEvent::ConnAck),
    decreases before.len(),
{
    if before.len() > 0 {
        let rest = before.drop_last();
        assert forall|i: int| 0 <= i < rest.len() implies !(#[trigger] rest[i] is ConnAck) by {
            assert(rest[i] == before[i]);
        }
        law_only_connack_ends_the_wait(pending, e, rest);
        assert(!(before[before.len() - 1] is ConnAck));
    }
}

/// Progress of subscribing to a list of topics one after the other.
pub struct SubscribeAll {
    total: usize,
    done: usize,
    failure: Option<String>,
}

/// Mathematical value of a [`SubscribeAll`]: how many topics there are, how
/// many have been subscribed, and the first failure, if one came.
pub struct SubscribeAllView {
    pub total: nat,
    pub done: nat,
    pub failure: Option<Seq<char>>,
}

impl View for SubscribeAll {
    type V = SubscribeAllView;

    closed spec fn view(&self) -> SubscribeAllView {
        SubscribeAllView {
            total: self.total as nat,
            done: self.done as nat,
            failure: match self.failure {
                Some(e) => Some(e@),
                None => None,
            },
        }
    }
}

/// What to do next when subscribing to a list of topics.
pub enum SubscribeStep {
    /// Subscribe to the topic at this position of the list.
    Subscribe(usize),
    /// Every topic has been subscribed (`Ok`), or the first failure ends the run.
    Finished(Result<(), String>),
}

/// Mathematical value of a [`SubscribeStep`].
pub enum SubscribeStepView {
    Subscribe(nat),
    Finished(Result<(), Seq<char>>),
}

impl View for SubscribeStep {
    type V = SubscribeStepView;

    open spec fn view(&self) -> SubscribeStepView {
        match self {
            SubscribeStep::Subscribe(i) => SubscribeStepView::Subscribe(*i as nat),
            SubscribeStep::Finished(Ok(())) => SubscribeStepView::Finished(Ok(())),
            SubscribeStep::Finished(Err(e)) => SubscribeStepView::Finished(Err(e@)),
        }
    }
}

/// The next step: the first failure ends the run; otherwise the topics are
/// subscribed in list order, and the run succeeds once all are.
pub open spec fn subscribe_next(v: SubscribeAllView) -> SubscribeStepView {
    match v.failure {
        Some(e) => SubscribeStepView::Finished(Err(e)),
        None => if v.done < v.total {
            SubscribeStepView::Subscribe(v.done)
        } else {
            SubscribeStepView::Finished(Ok(()))
        },
    }
}

/// The progress after the outcome of the subscription `subscribe_next` asked for.
pub open spec fn subscribe_after(v: SubscribeAllView, outcome: Result<(), Seq<char>>) -> SubscribeAllView {
    match outcome {
        Ok(()) => SubscribeAllView { done: v.done + 1, ..v },
        Err(e) => SubscribeAllView { failure: Some(e), ..v },
    }
}

/// The progress after a series of subscription outcomes, from the start.
pub open spec fn subscribe_run(total: nat, outcomes: Seq<Result<(), Seq<char>>>) -> SubscribeAllView
    decreases outcomes.len(),
{
    if outcomes.len() == 0 {
        SubscribeAllView { total, done: 0, failure: None }
    } else {
        subscribe_after(subscribe_run(total, outcomes.drop_last()), outcomes.last())
    }
}

impl SubscribeAll {
    /// Start subscribing to `total` topics.
    pub fn new(total: usize) -> (s: SubscribeAll)
        ensures
            s@ == subscribe_run(total as nat, Seq::empty()),
    {
        SubscribeAll { total, done: 0, failure: None }
    }

    /// What to do next.
    pub fn next(&self) -> (step: SubscribeStep)
        ensures
            step@ == subscribe_next(self@),
    {
        match &self.failure {
            Some(e) => SubscribeStep::Finished(Err(e.clone())),
            None => if self.done < self.total {
                SubscribeStep::Subscribe(self.done)
            } else {
                SubscribeStep::Finished(Ok(()))
            },
        }
    }

    /// Record the outcome of the subscription that [`SubscribeAll::next`]
    /// asked for.
    pub fn record(&mut self, outcome: Result<(), String>)
        requires
            subscribe_next(old(self)@) is Subscribe,
        ensures
            final(self)@ == subscribe_after(old(self)@, match outcome { Ok(()) => Ok(()), Err(e) => Err(e@) }),
    {
        match outcome {
            Ok(()) => {
                self.done = self.done + 1;
            },
            Err(e) => {
                self.failure = Some(e);
            },
        }
    }
}

/// `n` successful subscription outcomes.
pub open spec fn all_succeeded(n: nat) -> Seq<Result<(), Seq<char>>> {
    Seq::new(n, |i: int| Ok(()))
}

proof fn lemma_successes(total: nat, k: nat)
    requires
        k <= total,
    ensures
        subscribe_run(total, all_succeeded(k)) == (SubscribeAllView { total, done: k, failure: None }),
    decreases k,
{
    if k > 0 {
        assert(all_succeeded(k).drop_last() =~= all_succeeded((k - 1) as nat));
        lemma_successes(total, (k - 1) as nat);
    }
}

/// Subscribing goes through the topics in list order and returns the first
/// error encountered: after `k` successes the next topic asked for is the
/// one at position `k` (or, once all have succeeded, the run succeeds); and
/// a failure of the subscription at position `k` ends the run with that
/// failure, before any later topic is asked for.
pub proof fn law_subscribe_in_order_until_first_error(total: nat, k: nat, e: Seq<char>)
    requires
        k <= total,
    ensures
        subscribe_next(subscribe_run(total, all_succeeded(k))) == (if k < total {
            SubscribeStepView::Subscribe(k)
        } else {
            SubscribeStepView::Finished(Ok(()))
        }),
        k < total ==> subscribe_next(subscribe_run(total, all_succeeded(k).push(Err(e))))
            == SubscribeStepView::Finished(Err(e)),
{
    lemma_successes(total, k);
    assert(all_succeeded(k).push(Err(e)).drop_last() =~= all_succeeded(k));
}

/// Which client command failed.
pub enum CommandKind {
    Subscribe,
    Unsubscribe,
    Publish,
}

/// The error a failed command reports to the handle that sent it.
pub fn command_failure(kind: CommandKind, cause: &str) -> (r: String)
    ensures
        r@ == (match kind {
            CommandKind::Subscribe => "subscribe failed: "@,
            CommandKind::Unsubscribe => "unsubscribe failed: "@,
            CommandKind::Publish => "publish failed: "@,
        }) + cause@,
{
    let head = match kind {
        CommandKind::Subscribe => "subscribe failed: ",
        CommandKind::Unsubscribe => "unsubscribe failed: ",
        CommandKind::Publish => "publish failed: ",
    };
    String::from_str(head).concat(cause)
}

} // verus!

use vstd::prelude::*;

use crate::service_id::ServiceId;

verus! {

/// The order in which the node starts its services: the broker, then the
/// MQTT client that connects to it (both only when the broker is
/// installed), then the local gateway, then the cloud gateway client when
/// one is configured.
pub open spec fn startup_order_view(broker_available: bool, cloud_gateway_configured: bool) -> Seq<ServiceId> {
    (if broker_available { seq![ServiceId::Mosquitto, ServiceId::MqttClient] } else { Seq::empty() })
        + seq![ServiceId::Gateway]
        + (if cloud_gateway_configured { seq![ServiceId::CloudGateway] } else { Seq::empty() })
}

pub fn startup_order(broker_available: bool, cloud_gateway_configured: bool) -> (r: Vec<ServiceId>)
    ensures
        r@ == startup_order_view(broker_available, cloud_gateway_configured),
{
    let mut r: Vec<ServiceId> = Vec::new();
    if broker_available {
        r.push(ServiceId::Mosquitto);
        r.push(ServiceId::MqttClient);
    }
    r.push(ServiceId::Gateway);
    if cloud_gateway_configured {
        r.push(ServiceId::CloudGateway);
    }
    assert(r@ =~= startup_order_view(broker_available, cloud_gateway_configured));
    r
}

/// The MQTT client never starts before the broker it connects to, every
/// service starts at most once, and the gateway always starts.
pub proof fn law_startup_order(broker_available: bool, cloud_gateway_configured: bool)
    ensures
        ({
            let o = startup_order_view(broker_available, cloud_gateway_configured);
            &&& o.contains(ServiceId::Gateway)
            &&& o.contains(ServiceId::MqttClient) <==> broker_available
            &&& o.contains(ServiceId::CloudGateway) <==> cloud_gateway_configured
            &&& forall|i: int, j: int| 0 <= i < o.len() && 0 <= j < o.len() && o[i] == ServiceId::MqttClient
                && o[j] == ServiceId::Mosquitto ==> j < i
            &&& o.no_duplicates()
        }),
{
    let o = startup_order_view(broker_available, cloud_gateway_configured);
    if broker_available {
        if cloud_gateway_configured {
            assert(o =~= seq![ServiceId::Mosquitto, ServiceId::MqttClient, ServiceId::Gateway, ServiceId::CloudGateway]);
            assert(o[3] == ServiceId::CloudGateway);
        } else {
            assert(o =~= seq![ServiceId::Mosquitto, ServiceId::MqttClient, ServiceId::Gateway]);
        }
        assert(o[0] == ServiceId::Mosquitto);
        assert(o[1] == ServiceId::MqttClient);
        assert(o[2] == ServiceId::Gateway);
    } else {
        if cloud_gateway_configured {
            assert(o =~= seq![ServiceId::Gateway, ServiceId::CloudGateway]);
            assert(o[1] == ServiceId::CloudGateway);
        } else {
            assert(o =~= seq![ServiceId::Gateway]);
        }
        assert(o[0] == ServiceId::Gateway);
    }
}

/// Where the node's start-up stands.
#[derive(Clone, Copy, Debug, PartialEq, Eq, Structural)]
pub enum StartupStage {
    /// Nothing has been done yet.
    Init,
    /// The broker is being started.
    BrokerStarting,
    /// The broker started; waiting for it to bind its port.
    Pausing,
    /// The node's MQTT client is being started.
    ClientStarting,
    /// Waiting for the MQTT client to connect.
    AwaitingConnection,
    /// The required topics are being subscribed.
    Subscribing,
    /// The local gateway is being started.
    GatewayStarting,
    /// The cloud gateway client is being started.
    CloudStarting,
    /// Every service has been asked to start.
    Finished,
}

/// What happened since the last action.
#[derive(Clone, Copy, Debug, PartialEq, Eq, Structural)]
pub enum StartupEvent {
    /// Start-up begins.
    Begin,
    /// The service asked for has started (`true`) or failed to start.
    Started(bool),
    /// The pause is over.
    Paused,
    /// The MQTT client connected (`true`) or will not connect.
    Connected(bool),
    /// The subscriptions have been made (or failed).
    Subscribed,
}

/// What start-up does next.
#[derive(Clone, Copy, Debug, PartialEq, Eq, Structural)]
pub enum StartupAction {
    /// Ask the supervisor to start this service.
    Start(ServiceId),
    /// Wait this many milliseconds.
    Pause(u64),
    /// Wait until the MQTT client has connected or cannot.
    AwaitConnection,
    /// Subscribe the MQTT client to the required topics.
    Subscribe,
    /// Start-up is over.
    Done,
}

/// How long the broker is given to bind its port before its client starts.
pub const BROKER_SETTLE_MS: u64 = 500;

/// Mathematical value of a [`StartupPlan`].
pub struct StartupView {
    pub broker_available: bool,
    pub cloud_configured: bool,
    pub stage: StartupStage,
    pub subscribed: bool,
}

/// The node's start-up, step by step: the broker and its client (when the
/// broker is installed), the subscriptions once the client has connected,
/// then the local gateway, then the cloud gateway client when configured.
pub struct StartupPlan {
    broker_available: bool,
    cloud_configured: bool,
    stage: StartupStage,
    subscribed: bool,
}

impl View for StartupPlan {
    type V = StartupView;

    closed spec fn view(&self) -> StartupView {
        StartupView {
            broker_available: self.broker_available,
            cloud_configured: self.cloud_configured,
            stage: self.stage,
            subscribed: self.subscribed,
        }
    }
}

/// Start-up before its first step.
pub open spec fn startup_initial(broker_available: bool, cloud_configured: bool) -> StartupView {
    StartupView { broker_available, cloud_configured, stage: StartupStage::Init, subscribed: false }
}

/// The stage after the local gateway was asked to start.
pub open spec fn after_gateway(v: StartupView) -> (StartupView, StartupAction) {
    if v.cloud_configured {
        (StartupView { stage: StartupStage::CloudStarting, ..v }, StartupAction::Start(ServiceId::CloudGateway))
    } else {
        (StartupView { stage: StartupStage::Finished, ..v }, StartupAction::Done)
    }
}

/// One step of start-up: the next stage and action, given what happened.
pub open spec fn startup_step(v: StartupView, e: StartupEvent) -> (StartupView, StartupAction) {
    let gateway = (StartupView { stage: StartupStage::GatewayStarting, ..v }, StartupAction::Start(ServiceId::Gateway));
    let client = (StartupView { stage: StartupStage::ClientStarting, ..v }, StartupAction::Start(ServiceId::MqttClient));
    match v.stage {
        StartupStage::Init => if v.broker_available {
            (StartupView { stage: StartupStage::BrokerStarting, ..v }, StartupAction::Start(ServiceId::Mosquitto))
        } else {
            gateway
        },
        StartupStage::BrokerStarting => if e == StartupEvent::Started(true) {
            (StartupView { stage: StartupStage::Pausing, ..v }, StartupAction::Pause(BROKER_SETTLE_MS))
        } else {
            client
        },
        StartupStage::Pausing => client,
        StartupStage::ClientStarting => (StartupView { stage: StartupStage::AwaitingConnection, ..v }, StartupAction::AwaitConnection),
        StartupStage::AwaitingConnection => if e == StartupEvent::Connected(true) {
            (StartupView { stage: StartupStage::Subscribing, subscribed: true, ..v }, StartupAction::Subscribe)
        } else {
            gateway
        },
        StartupStage::Subscribing => gateway,
        StartupStage::GatewayStarting => after_gateway(v),
        StartupStage::CloudStarting => (StartupView { stage: StartupStage::Finished, ..v }, StartupAction::Done),
        StartupStage::Finished => (v, StartupAction::Done),
    }
}

impl StartupPlan {
    pub fn new(broker_available: bool, cloud_configured: bool) -> (p: StartupPlan)
        ensures
            p@ == startup_initial(broker_available, cloud_configured),
    {
        StartupPlan { broker_available, cloud_configured, stage: StartupStage::Init, subscribed: false }
    }

    /// Take the next step, given what happened since the last action.
    pub fn next(&mut self, event: StartupEvent) -> (a: StartupAction)
        ensures
            (final(self)@, a) == startup_step(old(self)@, event),
    {
        let gateway_next = StartupStage::GatewayStarting;
        match self.stage {
            StartupStage::Init => {
                if self.broker_available {
                    self.stage = StartupStage::BrokerStarting;
                    StartupAction::Start(ServiceId::Mosquitto)
                } else {
                    self.stage = gateway_next;
                    StartupAction::Start(ServiceId::Gateway)
                }
            },
            StartupStage::BrokerStarting => {
                if event == StartupEvent::Started(true) {
                    self.stage = StartupStage::Pausing;
                    StartupAction::Pause(BROKER_SETTLE_MS)
                } else {
                    self.stage = StartupStage::ClientStarting;
                    StartupAction::Start(ServiceId::MqttClient)
                }
            },
            StartupStage::Pausing => {
                self.stage = StartupStage::ClientStarting;
                StartupAction::Start(ServiceId::MqttClient)
            },
            StartupStage::ClientStarting => {
                self.stage = StartupStage::AwaitingConnection;
                StartupAction::AwaitConnection
            },
            StartupStage::AwaitingConnection => {
                if event == StartupEvent::Connected(true) {
                    self.stage = StartupStage::Subscribing;
                    self.subscribed = true;
                    StartupAction::Subscribe
                } else {
                    self.stage = gateway_next;
                    StartupAction::Start(ServiceId::Gateway)
                }
            },
            StartupStage::Subscribing => {
                self.stage = gateway_next;
                StartupAction::Start(ServiceId::Gateway)
            },
            StartupStage::GatewayStarting => {
                if self.cloud_configured {
                    self.stage = StartupStage::CloudStarting;
                    StartupAction::Start(ServiceId::CloudGateway)
                } else {
                    self.stage = StartupStage::Finished;
                    StartupAction::Done
                }
            },
            StartupStage::CloudStarting => {
                self.stage = StartupStage::Finished;
                StartupAction::Done
            },
            StartupStage::Finished => StartupAction::Done,
        }
    }
}

/// Start-up after a series of events, from its beginning, with every action
/// it took.
pub open spec fn startup_run(v0: StartupView, events: Seq<StartupEvent>) -> (StartupView, Seq<StartupAction>)
    decreases events.len(),
{
    if events.len() == 0 {
        (v0, Seq::empty())
    } else {
        let (v, acts) = startup_run(v0, events.drop_last());
        let (w, a) = startup_step(v, events.last());
        (w, acts.push(a))
    }
}

/// The services that `actions` ask to start, in order.
pub open spec fn starts_of(actions: Seq<StartupAction>) -> Seq<ServiceId>
    decreases actions.len(),
{
    if actions.len() == 0 {
        Seq::empty()
    } else {
        starts_of(actions.drop_last()) + match actions.last() {
            StartupAction::Start(id) => seq![id],
            _ => Seq::empty(),
        }
    }
}

/// How many times `actions` subscribe.
pub open spec fn subscriptions_of(actions: Seq<StartupAction>) -> nat
    decreases actions.len(),
{
    if actions.len() == 0 {
        0
    } else {
        subscriptions_of(actions.drop_last()) + if actions.last() == StartupAction::Subscribe { 1nat } else { 0nat }
    }
}

/// How many services have been asked to start by the time start-up is at `v`.
pub open spec fn starts_made(v: StartupView) -> nat {
    let broker: nat = if v.broker_available { 2 } else { 0 };
    match v.stage {
        StartupStage::Init => 0,
        StartupStage::BrokerStarting | StartupStage::Pausing => 1,
        StartupStage::ClientStarting | StartupStage::AwaitingConnection | StartupStage::Subscribing => 2,
        StartupStage::GatewayStarting => broker + 1,
        StartupStage::CloudStarting => broker + 2,
        StartupStage::Finished => startup_order_view(v.broker_available, v.cloud_configured).len(),
    }
}

/// What holds of every state start-up reaches.
pub open spec fn startup_consistent(v: StartupView) -> bool {
    &&& (v.stage == StartupStage::BrokerStarting || v.stage == StartupStage::Pausing
        || v.stage == StartupStage::ClientStarting || v.stage == StartupStage::AwaitingConnection
        || v.stage == StartupStage::Subscribing) ==> v.broker_available
    &&& v.stage == StartupStage::CloudStarting ==> v.cloud_configured
    &&& v.subscribed ==> v.broker_available && (v.stage == StartupStage::Subscribing
        || v.stage == StartupStage::GatewayStarting || v.stage == StartupStage::CloudStarting
        || v.stage == StartupStage::Finished)
    &&& v.stage == StartupStage::Subscribing ==> v.subscribed
}

/// Whether the local gateway has been asked to start by the time start-up is at `v`.
pub open spec fn gateway_started(v: StartupView) -> bool {
    v.stage == StartupStage::GatewayStarting || v.stage == StartupStage::CloudStarting
        || v.stage == StartupStage::Finished
}

proof fn lemma_startup_run(b: bool, g: bool, events: Seq<StartupEvent>)
    ensures
        ({
            let (v, acts) = startup_run(startup_initial(b, g), events);
            &&& v.broker_available == b && v.cloud_configured == g
            &&& startup_consistent(v)
            &&& starts_made(v) <= startup_order_view(b, g).len()
            &&& starts_of(acts) == startup_order_view(b, g).take(starts_made(v) as int)
            &&& subscriptions_of(acts) == (if v.subscribed { 1nat } else { 0nat })
        }),
    decreases events.len(),
{
    let o = startup_order_view(b, g);
    if events.len() > 0 {
        lemma_startup_run(b, g, events.drop_last());
        let (v, acts) = startup_run(startup_initial(b, g), events.drop_last());
        let (w, a) = startup_step(v, events.last());
        let acts2 = acts.push(a);
        assert(acts2.drop_last() =~= acts);
        assert(o.len() == (if b { 2int } else { 0 }) + 1 + (if g { 1int } else { 0 }));
        if b {
            assert(o[0] == ServiceId::Mosquitto);
            assert(o[1] == ServiceId::MqttClient);
            assert(o[2] == ServiceId::Gateway);
            if g {
                assert(o[3] == ServiceId::CloudGateway);
            }
        } else {
            assert(o[0] == ServiceId::Gateway);
            if g {
                assert(o[1] == ServiceId::CloudGateway);
            }
        }
        if let StartupAction::Start(id) = a {
            assert(o.take(starts_made(v) as int).push(id) =~= o.take(starts_made(w) as int));
        } else {
            assert(starts_made(w) == starts_made(v));
        }
    } else {
        assert(o.take(0) =~= Seq::<ServiceId>::empty());
    }
}

/// Start-up asks the services to start in exactly the order of
/// [`startup_order_view`]: whatever happens along the way, the services
/// asked so far are the beginning of that order, and once start-up is over
/// all of them have been asked. The required topics are subscribed at most
/// once, and only when the broker is installed.
pub proof fn law_startup_follows_order(b: bool, g: bool, events: Seq<StartupEvent>)
    ensures
        ({
            let (v, acts) = startup_run(startup_initial(b, g), events);
            &&& starts_of(acts).len() <= startup_order_view(b, g).len()
            &&& starts_of(acts) == startup_order_view(b, g).take(starts_of(acts).len() as int)
            &&& v.stage == StartupStage::Finished ==> starts_of(acts) == startup_order_view(b, g)
            &&& subscriptions_of(acts) <= 1
            &&& subscriptions_of(acts) == 1 ==> b
        }),
{
    lemma_startup_run(b, g, events);
    let (v, acts) = startup_run(startup_initial(b, g), events);
    assert(startup_order_view(b, g).take(startup_order_view(b, g).len() as int) =~= startup_order_view(b, g));
}

/// The required topics are subscribed only once the MQTT client has
/// connected, and before the local gateway is asked to start; a step asks
/// the gateway to start only once.
pub proof fn law_subscribe_when_connected_before_gateway(v: StartupView, e: StartupEvent)
    requires
        startup_consistent(v),
    ensures
        startup_consistent(startup_step(v, e).0),
        startup_step(v, e).1 == StartupAction::Subscribe ==> e == StartupEvent::Connected(true)
            && v.stage == StartupStage::AwaitingConnection && v.broker_available && !gateway_started(v) && !v.subscribed,
        startup_step(v, e).1 == StartupAction::Start(ServiceId::Gateway) ==> !gateway_started(v)
            && gateway_started(startup_step(v, e).0),
        gateway_started(v) ==> gateway_started(startup_step(v, e).0),
{
}

/// Once the MQTT client has connected while start-up waits for it, the
/// required topics are subscribed next, whether or not a cloud gateway is
/// configured; and they are subscribed only then.
pub proof fn law_connected_client_is_subscribed(v: StartupView, e: StartupEvent)
    ensures
        v.stage == StartupStage::AwaitingConnection && e == StartupEvent::Connected(true)
            ==> startup_step(v, e).1 == StartupAction::Subscribe && startup_step(v, e).0.subscribed,
        startup_step(v, e).1 == StartupAction::Subscribe
            ==> v.stage == StartupStage::AwaitingConnection && e == StartupEvent::Connected(true),
{
}

/// With the broker installed, the start-up that sees the broker and its
/// client start and the client connect asks, in this order, for the broker,
/// a pause, the client, the wait, and then the subscription, whatever the
/// cloud gateway configuration.
pub proof fn law_broker_start_up_subscribes(g: bool)
    ensures
        ({
            let events = seq![StartupEvent::Begin, StartupEvent::Started(true), StartupEvent::Paused,
                StartupEvent::Started(true), StartupEvent::Connected(true)];
            startup_run(startup_initial(true, g), events).1 == seq![
                StartupAction::Start(ServiceId::Mosquitto),
                StartupAction::Pause(BROKER_SETTLE_MS),
                StartupAction::Start(ServiceId::MqttClient),
                StartupAction::AwaitConnection,
                StartupAction::Subscribe,
            ]
        }),
{
    let events = seq![StartupEvent::Begin, StartupEvent::Started(true), StartupEvent::Paused,
        StartupEvent::Started(true), StartupEvent::Connected(true)];
    let v0 = startup_initial(true, g);
    assert(events.drop_last().drop_last().drop_last().drop_last().drop_last() =~= Seq::<StartupEvent>::empty());
    assert(events.drop_last().drop_last().drop_last().drop_last() =~= seq![StartupEvent::Begin]);
    assert(events.drop_last().drop_last().drop_last() =~= seq![StartupEvent::Begin, StartupEvent::Started(true)]);
    assert(events.drop_last().drop_last() =~= seq![StartupEvent::Begin, StartupEvent::Started(true), StartupEvent::Paused]);
    assert(events.drop_last() =~= seq![StartupEvent::Begin, StartupEvent::Started(true), StartupEvent::Paused,
        StartupEvent::Started(true)]);
    reveal_with_fuel(startup_run, 6);
    assert(startup_run(v0, events).1 =~= seq![
        StartupAction::Start(ServiceId::Mosquitto),
        StartupAction::Pause(BROKER_SETTLE_MS),
        StartupAction::Start(ServiceId::MqttClient),
        StartupAction::AwaitConnection,
        StartupAction::Subscribe,
    ]);
}

} // verus!

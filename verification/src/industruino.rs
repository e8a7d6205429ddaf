//! The dispatcher: it keeps the directory of the sensors, turns what the
//! sensors send into publications, and routes each request from the network to
//! the sensor that it names.

use crate::decimal::{
    decimal_text, is_digit, lemma_decimal_text, lemma_parse_decimal_text, parse_u32,
    parse_unsigned, push_decimal,
};
use crate::json::{telemetry_payload, telemetry_text};
use crate::messages::{
    readings_view, IncomingRPCRequest, IncomingRPCRequestView, IncomingRequest,
    IncomingRequestView, OutgoingMessage, OutgoingMessageView,
};
use crate::temperature::{after_request, answers_to, Temperature, TemperatureView};
use crate::text::{
    first_index, last_segment, last_segment_of, lemma_first_index_in_range,
    lemma_last_segment_start, same_text, split_at_first,
};
use vstd::prelude::*;

verus! {

/// The topic on which readings are published.
pub const TELEMETRY_TOPIC: &'static str = "v1/devices/me/telemetry";

/// The topics on which requests arrive: the last level is the request's number.
pub const REQUEST_TOPICS: &'static str = "v1/devices/me/rpc/request/+";

/// What the topic of an answer begins with: the request's number follows.
pub const REPLY_TOPIC_PREFIX: &'static str = "reply/";

/// The seconds of silence after which the link is probed.
pub const KEEP_ALIVE_SECS: u16 = 10;

/// How many publications may wait for their acknowledgement.
pub const INFLIGHT: usize = 3;

/// How many requests to the link may wait to be taken up.
pub const REQUEST_CHANNEL_CAPACITY: usize = 3;

/// The seconds to wait before the link is set up again after it broke.
pub const RECONNECT_AFTER_SECS: u64 = 10;

/// What is needed to set up the link to the broker. The link is always set up
/// again when it breaks, and the broker keeps the session.
#[derive(Debug, PartialEq, Eq)]
pub struct LinkSettings {
    pub client_id: String,
    pub host: String,
    pub port: u16,
    pub username: String,
    pub password: String,
    pub keep_alive_secs: u16,
    pub inflight: usize,
    pub request_channel_capacity: usize,
    pub reconnect_after_secs: u64,
    pub clean_session: bool,
}

/// A text to publish and the topic to publish it on.
#[derive(Debug, PartialEq, Eq)]
pub struct Publication {
    pub topic: String,
    pub payload: String,
}

/// A command and the sensor to hand it to: sensors are counted from 0 in the
/// order in which they were attached.
#[derive(Debug, PartialEq, Eq)]
pub struct Delivery {
    pub sensor: usize,
    pub request: IncomingRequest,
}

/// Why a request from the network reached no sensor.
#[derive(Debug, Clone, Copy, PartialEq, Eq, Structural)]
pub enum Dropped {
    /// The payload is no request.
    UndecodablePayload,
    /// The method holds no dash.
    MalformedMethod,
    /// The last level of the topic is no request number.
    UnparsableRequestId,
    /// No sensor has the label that the method names.
    UnknownSensor,
    /// A `set` came without a value.
    MissingParams,
    /// The method asks for something other than `get` or `set`.
    UnknownKind,
}

/// What the dispatcher waits for.
#[derive(Debug, PartialEq, Eq)]
pub enum Event {
    /// A sensor has sent a message.
    Outgoing(OutgoingMessage),
    /// Something was published on a request topic; the request is absent
    /// where the payload could not be read as one.
    Request(String, Option<IncomingRPCRequest>),
    /// Any other notice from the link.
    Notice,
}

/// What is to be done about an event.
#[derive(Debug, PartialEq, Eq)]
pub enum Action {
    Publish(Publication),
    Deliver(Delivery),
    Drop(Dropped),
    /// The readings could not be written as a payload.
    Fail,
    Ignore,
}

/// The dispatcher.
#[derive(Debug, PartialEq, Eq)]
pub struct Industruino {
    name: String,
    secret_token: String,
    link: Option<LinkSettings>,
    sensors: Vec<String>,
}

/// A `LinkSettings` as plain values.
pub struct LinkSettingsView {
    pub client_id: Seq<char>,
    pub host: Seq<char>,
    pub port: u16,
    pub username: Seq<char>,
    pub password: Seq<char>,
    pub keep_alive_secs: u16,
    pub inflight: usize,
    pub request_channel_capacity: usize,
    pub reconnect_after_secs: u64,
    pub clean_session: bool,
}

/// A `Publication` as plain text.
pub struct PublicationView {
    pub topic: Seq<char>,
    pub payload: Seq<char>,
}

/// A `Delivery` as plain values.
pub struct DeliveryView {
    pub sensor: int,
    pub request: IncomingRequestView,
}

/// An `Event` as plain values.
pub enum EventView {
    Outgoing(OutgoingMessageView),
    Request(Seq<char>, Option<IncomingRPCRequestView>),
    Notice,
}

/// An `Action` as plain values.
pub enum ActionView {
    Publish(PublicationView),
    Deliver(DeliveryView),
    Drop(Dropped),
    Fail,
    Ignore,
}

/// The dispatcher as plain values: `sensors` holds the labels in the order in
/// which the sensors were attached, `link` the settings once it is connected.
pub struct IndustruinoView {
    pub name: Seq<char>,
    pub secret_token: Seq<char>,
    pub link: Option<LinkSettingsView>,
    pub sensors: Seq<Seq<char>>,
}

impl View for LinkSettings {
    type V = LinkSettingsView;

    open spec fn view(&self) -> LinkSettingsView {
        LinkSettingsView {
            client_id: self.client_id@,
            host: self.host@,
            port: self.port,
            username: self.username@,
            password: self.password@,
            keep_alive_secs: self.keep_alive_secs,
            inflight: self.inflight,
            request_channel_capacity: self.request_channel_capacity,
            reconnect_after_secs: self.reconnect_after_secs,
            clean_session: self.clean_session,
        }
    }
}

impl View for Publication {
    type V = PublicationView;

    open spec fn view(&self) -> PublicationView {
        PublicationView { topic: self.topic@, payload: self.payload@ }
    }
}

impl View for Delivery {
    type V = DeliveryView;

    open spec fn view(&self) -> DeliveryView {
        DeliveryView { sensor: self.sensor as int, request: self.request@ }
    }
}

impl View for Event {
    type V = EventView;

    open spec fn view(&self) -> EventView {
        match self {
            Event::Outgoing(message) => EventView::Outgoing(message@),
            Event::Request(topic, request) => EventView::Request(
                topic@,
                match request {
                    Some(r) => Some(r@),
                    None => None,
                },
            ),
            Event::Notice => EventView::Notice,
        }
    }
}

impl View for Action {
    type V = ActionView;

    open spec fn view(&self) -> ActionView {
        match self {
            Action::Publish(publication) => ActionView::Publish(publication@),
            Action::Deliver(delivery) => ActionView::Deliver(delivery@),
            Action::Drop(reason) => ActionView::Drop(*reason),
            Action::Fail => ActionView::Fail,
            Action::Ignore => ActionView::Ignore,
        }
    }
}

/// Labels as plain text, in the order in which they stand.
pub open spec fn labels_view(labels: Seq<String>) -> Seq<Seq<char>> {
    Seq::new(labels.len(), |i: int| labels[i]@)
}

impl View for Industruino {
    type V = IndustruinoView;

    closed spec fn view(&self) -> IndustruinoView {
        IndustruinoView {
            name: self.name@,
            secret_token: self.secret_token@,
            link: match self.link {
                Some(settings) => Some(settings@),
                None => None,
            },
            sensors: labels_view(self.sensors@),
        }
    }
}

/// Whether the broker's client takes `name` as the name of a client: it is not
/// empty and does not begin with a blank.
pub open spec fn valid_client_id(name: Seq<char>) -> bool {
    name.len() > 0 && name[0] != ' '
}

/// The settings of the link for a dispatcher of the given name and token: the
/// name identifies the client, the token is the user name, and the password
/// is empty.
pub open spec fn link_settings(
    name: Seq<char>,
    secret_token: Seq<char>,
    hostname: Seq<char>,
    port: u16,
) -> LinkSettingsView {
    LinkSettingsView {
        client_id: name,
        host: hostname,
        port: port,
        username: secret_token,
        password: Seq::empty(),
        keep_alive_secs: KEEP_ALIVE_SECS,
        inflight: INFLIGHT,
        request_channel_capacity: REQUEST_CHANNEL_CAPACITY,
        reconnect_after_secs: RECONNECT_AFTER_SECS,
        clean_session: false,
    }
}

/// The topic of the answer to the request of the given number.
pub open spec fn reply_topic(request_number: u32) -> Seq<char> {
    REPLY_TOPIC_PREFIX@ + decimal_text(request_number as nat)
}

/// The method that asks for a reading.
pub open spec fn get_kind() -> Seq<char> {
    seq!['g', 'e', 't']
}

/// The method that sets a reading.
pub open spec fn set_kind() -> Seq<char> {
    seq!['s', 'e', 't']
}

/// The sensor that commands for `label` go to: the one attached last under
/// that label. `None` where no sensor has it.
pub open spec fn slot_of(sensors: Seq<Seq<char>>, label: Seq<char>) -> Option<int>
    decreases sensors.len(),
{
    if sensors.len() == 0 {
        None
    } else if sensors.last() == label {
        Some(sensors.len() - 1)
    } else {
        slot_of(sensors.drop_last(), label)
    }
}

/// The command of the given kind and number, where the kind is one.
pub open spec fn command_of(
    kind: Seq<char>,
    request_number: u32,
    params: Option<Seq<char>>,
) -> Result<IncomingRequestView, Dropped> {
    if kind == get_kind() {
        Ok(IncomingRequestView::GetValue(request_number))
    } else if kind == set_kind() {
        match params {
            Some(value) => Ok(IncomingRequestView::SetValue(request_number, value)),
            None => Err(Dropped::MissingParams),
        }
    } else {
        Err(Dropped::UnknownKind)
    }
}

/// Where a request that arrived on `topic` goes. The method is cut at its
/// first dash into a kind and a label; the request's number is the last level
/// of the topic, read as a number of 32 bits. The request is dropped for the
/// first of these that fails: the method holds no dash, the last level is no
/// such number, no sensor has the label, the kind is none or lacks its value.
pub open spec fn routed(
    sensors: Seq<Seq<char>>,
    topic: Seq<char>,
    request: IncomingRPCRequestView,
) -> Result<DeliveryView, Dropped> {
    let cut = first_index(request.method, '-');
    if cut == request.method.len() {
        Err(Dropped::MalformedMethod)
    } else {
        let kind = request.method.take(cut);
        let label = request.method.skip(cut + 1);
        match parse_unsigned(last_segment(topic, '/'), u32::MAX as nat) {
            None => Err(Dropped::UnparsableRequestId),
            Some(number) => match slot_of(sensors, label) {
                None => Err(Dropped::UnknownSensor),
                Some(sensor) => match command_of(kind, number as u32, request.params) {
                    Ok(command) => Ok(DeliveryView { sensor: sensor, request: command }),
                    Err(reason) => Err(reason),
                },
            },
        }
    }
}

/// The publication that a message of a sensor becomes: readings go out as
/// one payload on the telemetry topic, an answer goes out as it is on the
/// topic of its request. `None` where the readings cannot be written as a
/// payload.
pub open spec fn published(message: OutgoingMessageView) -> Option<PublicationView> {
    match message {
        OutgoingMessageView::Telemetry(values) => match telemetry_text(values) {
            Some(payload) => Some(PublicationView { topic: TELEMETRY_TOPIC@, payload: payload }),
            None => None,
        },
        OutgoingMessageView::AnswerGetValue(request_number, text) => Some(
            PublicationView { topic: reply_topic(request_number), payload: text },
        ),
    }
}

/// What is to be done about an event. A message of a sensor is to be
/// published, a request is to be handed to the sensor that it names or to be
/// dropped, and any other notice is ignored.
pub open spec fn decided(sensors: Seq<Seq<char>>, event: EventView) -> ActionView {
    match event {
        EventView::Outgoing(message) => match published(message) {
            Some(publication) => ActionView::Publish(publication),
            None => ActionView::Fail,
        },
        EventView::Request(_, None) => ActionView::Drop(Dropped::UndecodablePayload),
        EventView::Request(topic, Some(request)) => match routed(sensors, topic, request) {
            Ok(delivery) => ActionView::Deliver(delivery),
            Err(reason) => ActionView::Drop(reason),
        },
        EventView::Notice => ActionView::Ignore,
    }
}

/// `slot_of` finds the one sensor with that label behind which no other has it.
pub proof fn lemma_slot_of(sensors: Seq<Seq<char>>, label: Seq<char>, from: int)
    requires
        0 <= from <= sensors.len(),
        forall|j: int| from <= j < sensors.len() ==> sensors[j] != label,
        0 < from ==> sensors[from - 1] == label,
    ensures
        slot_of(sensors, label) == if from == 0 {
            None
        } else {
            Some(from - 1)
        },
    decreases sensors.len(),
{
    if sensors.len() > 0 && sensors.last() != label {
        lemma_slot_of(sensors.drop_last(), label, from);
    }
}

/// A command reaches a sensor only under that sensor's own label, and a label
/// that no sensor has reaches none.
pub proof fn lemma_routed_by_label(sensors: Seq<Seq<char>>, label: Seq<char>)
    ensures
        match slot_of(sensors, label) {
            Some(sensor) => 0 <= sensor < sensors.len() && sensors[sensor] == label,
            None => forall|j: int| 0 <= j < sensors.len() ==> sensors[j] != label,
        },
    decreases sensors.len(),
{
    if sensors.len() > 0 && sensors.last() != label {
        lemma_routed_by_label(sensors.drop_last(), label);
        let rest = sensors.drop_last();
        if slot_of(rest, label) is None {
            assert forall|j: int| 0 <= j < sensors.len() implies sensors[j] != label by {
                if j < rest.len() {
                    assert(rest[j] == sensors[j]);
                }
            }
        }
    }
}

/// A request is handed to a sensor only if the method is a kind, a dash and
/// that sensor's label, and the command carries the number that the topic
/// ends in.
pub proof fn lemma_routed_delivery(
    sensors: Seq<Seq<char>>,
    topic: Seq<char>,
    request: IncomingRPCRequestView,
)
    requires
        routed(sensors, topic, request) is Ok,
    ensures
        ({
            let delivery = routed(sensors, topic, request)->Ok_0;
            let cut = first_index(request.method, '-');
            &&& 0 <= delivery.sensor < sensors.len()
            &&& 0 <= cut < request.method.len()
            &&& sensors[delivery.sensor] == request.method.skip(cut + 1)
            &&& request.method.take(cut) == get_kind() || request.method.take(cut) == set_kind()
            &&& parse_unsigned(last_segment(topic, '/'), u32::MAX as nat) == Some(
                match delivery.request {
                    IncomingRequestView::GetValue(number) => number as nat,
                    IncomingRequestView::SetValue(number, _) => number as nat,
                },
            )
        }),
{
    let cut = first_index(request.method, '-');
    lemma_first_index_in_range(request.method, '-');
    lemma_routed_by_label(sensors, request.method.skip(cut + 1));
}

/// The topic of an answer ends in the number of its request: read as the
/// last level of a topic, it gives that number back.
pub proof fn lemma_reply_topic_names_request(request_number: u32)
    ensures
        parse_unsigned(last_segment(reply_topic(request_number), '/'), u32::MAX as nat) == Some(
            request_number as nat,
        ),
{
    reveal_strlit("reply/");
    let prefix = REPLY_TOPIC_PREFIX@;
    let digits = decimal_text(request_number as nat);
    let topic = reply_topic(request_number);
    lemma_decimal_text(request_number as nat);
    lemma_parse_decimal_text(request_number as nat, u32::MAX as nat);
    assert(prefix.len() == 6);
    assert(prefix[5] == '/');
    assert forall|j: int| prefix.len() <= j < topic.len() implies topic[j] != '/' by {
        assert(topic[j] == digits[j - prefix.len()]);
        assert(is_digit(digits[j - prefix.len()]));
    }
    assert(topic[prefix.len() - 1] == prefix[5]);
    lemma_last_segment_start(topic, '/', prefix.len() as int);
    assert(last_segment(topic, '/') =~= digits);
}

/// An answer goes out under the number that its request came in with:
/// whatever a sensor answers first to a command that was routed from `topic`
/// is published on the topic that ends in the number that `topic` ends in.
pub proof fn lemma_answer_names_request(
    sensors: Seq<Seq<char>>,
    topic: Seq<char>,
    request: IncomingRPCRequestView,
    sensor: TemperatureView,
    reading: Option<Seq<char>>,
)
    requires
        routed(sensors, topic, request) is Ok,
        answers_to(sensor, routed(sensors, topic, request)->Ok_0.request, reading) is Ok,
    ensures
        ({
            let command = routed(sensors, topic, request)->Ok_0.request;
            let answer = answers_to(sensor, command, reading)->Ok_0[0];
            let number = parse_unsigned(last_segment(topic, '/'), u32::MAX as nat)->0;
            &&& number <= u32::MAX
            &&& published(answer) == Some(
                PublicationView {
                    topic: reply_topic(number as u32),
                    payload: after_request(sensor, command, reading).temperature,
                },
            )
        }),
{
}

/// The sensor that commands for `label` go to.
fn find_sensor(sensors: &Vec<String>, label: &str) -> (r: Option<usize>)
    ensures
        match r {
            Some(sensor) => slot_of(labels_view(sensors@), label@) == Some(sensor as int),
            None => slot_of(labels_view(sensors@), label@) is None,
        },
{
    let ghost labels = labels_view(sensors@);
    let wanted = String::from_str(label);
    let mut i: usize = sensors.len();
    while i > 0
        invariant
            i <= sensors.len(),
            labels == labels_view(sensors@),
            wanted@ == label@,
            forall|j: int| i <= j < sensors.len() ==> labels[j] != label@,
        decreases i,
    {
        if sensors[i - 1] == wanted {
            proof {
                lemma_slot_of(labels, label@, i as int);
            }
            return Some(i - 1);
        }
        i = i - 1;
    }
    proof {
        lemma_slot_of(labels, label@, 0);
    }
    None
}

impl Industruino {
    /// Whether the link is set up.
    pub open spec fn connected(&self) -> bool {
        self@.link is Some
    }

    /// A dispatcher without sensors and without a link.
    pub fn new(name: String, secret_token: String) -> (r: Industruino)
        ensures
            r@.name == name@,
            r@.secret_token == secret_token@,
            r@.link is None,
            r@.sensors == Seq::<Seq<char>>::empty(),
    {
        let r = Industruino { name, secret_token, link: None, sensors: Vec::new() };
        assert(r@.sensors =~= Seq::<Seq<char>>::empty());
        r
    }

    /// Attaches a sensor with the given label and reading, and gives that
    /// sensor. It is the last in the directory: commands for its label go to
    /// it from now on, also where another sensor had that label.
    pub fn create_attached_temperature_sensor(
        &mut self,
        libelle: &str,
        initial_temperature: &str,
    ) -> (sensor: Temperature)
        ensures
            final(self)@.sensors == old(self)@.sensors.push(libelle@),
            final(self)@.name == old(self)@.name,
            final(self)@.secret_token == old(self)@.secret_token,
            final(self)@.link == old(self)@.link,
            slot_of(final(self)@.sensors, libelle@) == Some(old(self)@.sensors.len() as int),
            sensor@.libelle == libelle@,
            sensor@.temperature == initial_temperature@,
    {
        self.sensors.push(String::from_str(libelle));
        assert(self@.sensors =~= old(self)@.sensors.push(libelle@));
        Temperature::new(initial_temperature, libelle)
    }

    /// Whether `connect` can be called: the name is one that the broker's
    /// client takes.
    pub fn can_connect(&self) -> (r: bool)
        ensures
            r == valid_client_id(self@.name),
    {
        let name = self.name.as_str();
        !name.is_empty() && name.get_char(0) != ' '
    }

    /// The dispatcher with the settings of its link to the broker at
    /// `hostname` and `port`.
    pub fn connect(self, hostname: &str, port: u16) -> (r: Industruino)
        requires
            valid_client_id(self@.name),
        ensures
            r@.link == Some(link_settings(self@.name, self@.secret_token, hostname@, port)),
            r@.name == self@.name,
            r@.secret_token == self@.secret_token,
            r@.sensors == self@.sensors,
    {
        let settings = LinkSettings {
            client_id: self.name.clone(),
            host: String::from_str(hostname),
            port,
            username: self.secret_token.clone(),
            password: String::new(),
            keep_alive_secs: KEEP_ALIVE_SECS,
            inflight: INFLIGHT,
            request_channel_capacity: REQUEST_CHANNEL_CAPACITY,
            reconnect_after_secs: RECONNECT_AFTER_SECS,
            clean_session: false,
        };
        Industruino {
            name: self.name,
            secret_token: self.secret_token,
            link: Some(settings),
            sensors: self.sensors,
        }
    }

    /// The settings of the link, once it is set up.
    pub fn link(&self) -> (r: &Option<LinkSettings>)
        ensures
            match *r {
                Some(settings) => self@.link == Some(settings@),
                None => self@.link is None,
            },
    {
        &self.link
    }

    /// The labels of the sensors, in the order in which they were attached.
    pub fn sensors(&self) -> (r: &Vec<String>)
        ensures
            labels_view(r@) == self@.sensors,
    {
        &self.sensors
    }

    /// The publication that reports `values`, `None` where a label or a
    /// reading cannot be written into the payload.
    pub fn send_telemetry(values: &Vec<(String, String)>) -> (r: Option<Publication>)
        ensures
            match r {
                Some(publication) => published(
                    OutgoingMessageView::Telemetry(readings_view(values@)),
                ) == Some(publication@),
                None => published(OutgoingMessageView::Telemetry(readings_view(values@))) is None,
            },
    {
        match telemetry_payload(values) {
            Some(payload) => Some(Publication { topic: String::from_str(TELEMETRY_TOPIC), payload }),
            None => None,
        }
    }

    /// The publication that answers the request of the given number with
    /// `message`.
    pub fn send_outgoing_message(request_number: u32, message: String) -> (r: Publication)
        ensures
            published(OutgoingMessageView::AnswerGetValue(request_number, message@)) == Some(r@),
    {
        let mut topic = String::from_str(REPLY_TOPIC_PREFIX);
        push_decimal(&mut topic, request_number);
        Publication { topic, payload: message }
    }

    /// Routes a request that arrived on `topic_name` to the sensor that its
    /// method names, among the sensors with the given labels.
    pub fn dispatch_incoming_message(
        sensors: &Vec<String>,
        topic_name: &str,
        request: IncomingRPCRequest,
    ) -> (r: Result<Delivery, Dropped>)
        ensures
            match r {
                Ok(delivery) => routed(labels_view(sensors@), topic_name@, request@) == Ok::<
                    DeliveryView,
                    Dropped,
                >(delivery@),
                Err(reason) => routed(labels_view(sensors@), topic_name@, request@) == Err::<
                    DeliveryView,
                    Dropped,
                >(reason),
            },
            r matches Ok(delivery) ==> delivery.sensor < sensors@.len(),
    {
        let (kind, label) = match split_at_first(request.method.as_str(), '-') {
            Some(parts) => parts,
            None => {
                return Err(Dropped::MalformedMethod);
            },
        };
        let request_number = match parse_u32(last_segment_of(topic_name, '/')) {
            Some(number) => number,
            None => {
                return Err(Dropped::UnparsableRequestId);
            },
        };
        let sensor = match find_sensor(sensors, label) {
            Some(sensor) => sensor,
            None => {
                return Err(Dropped::UnknownSensor);
            },
        };
        proof {
            reveal_strlit("get");
            reveal_strlit("set");
            assert("get"@ =~= get_kind());
            assert("set"@ =~= set_kind());
            lemma_routed_by_label(labels_view(sensors@), label@);
        }
        if same_text(kind, "get") {
            Ok(Delivery { sensor, request: IncomingRequest::GetValue(request_number) })
        } else if same_text(kind, "set") {
            match request.params {
                Some(value) => Ok(
                    Delivery { sensor, request: IncomingRequest::SetValue(request_number, value) },
                ),
                None => Err(Dropped::MissingParams),
            }
        } else {
            Err(Dropped::UnknownKind)
        }
    }

    /// What is to be done about one event.
    pub fn run(&self, event: Event) -> (action: Action)
        requires
            self.connected(),
        ensures
            action@ == decided(self@.sensors, event@),
    {
        match event {
            Event::Outgoing(OutgoingMessage::Telemetry(values)) => {
                match Self::send_telemetry(&values) {
                    Some(publication) => Action::Publish(publication),
                    None => Action::Fail,
                }
            },
            Event::Outgoing(OutgoingMessage::AnswerGetValue(request_number, message)) => {
                Action::Publish(Self::send_outgoing_message(request_number, message))
            },
            Event::Request(_, None) => Action::Drop(Dropped::UndecodablePayload),
            Event::Request(topic, Some(request)) => {
                match Self::dispatch_incoming_message(&self.sensors, topic.as_str(), request) {
                    Ok(delivery) => Action::Deliver(delivery),
                    Err(reason) => Action::Drop(reason),
                }
            },
            Event::Notice => Action::Ignore,
        }
    }
}

} // verus!

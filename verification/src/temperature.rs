//! One simulated temperature sensor: the reading it holds, the telemetry it
//! reports and the commands it answers.
//!
//! A reading is held as the decimal text under which it is reported. What
//! number a text denotes is for the caller to say: a command arrives together
//! with the reading that its text stands for.

use crate::messages::{
    messages_view, text_view, IncomingRequest, IncomingRequestView, OutgoingMessage,
    OutgoingMessageView,
};
use vstd::prelude::*;

verus! {

/// The seconds between one report of a sensor and the next.
pub const TELEMETRY_INTERVAL_SECS: u64 = 2;

/// Why a command got no answer.
#[derive(Debug, Clone, Copy, PartialEq, Eq, Structural)]
pub enum RequestError {
    /// The text of a `SetValue` denotes no number.
    MalformedValue,
}

/// A sensor: its label and the reading it holds.
#[derive(Debug, PartialEq, Eq)]
pub struct Temperature {
    pub temperature: String,
    pub libelle: String,
}

/// A `Temperature` as plain text.
pub struct TemperatureView {
    pub temperature: Seq<char>,
    pub libelle: Seq<char>,
}

impl View for Temperature {
    type V = TemperatureView;

    open spec fn view(&self) -> TemperatureView {
        TemperatureView { temperature: self.temperature@, libelle: self.libelle@ }
    }
}

/// What wakes a sensor.
#[derive(Debug, PartialEq, Eq)]
pub enum SensorEvent {
    /// The telemetry interval has passed.
    Tick,
    /// A command has arrived. The second field is the reading that the text
    /// of a `SetValue` denotes, `None` where it denotes no number; it is not
    /// read for a `GetValue`.
    Command(IncomingRequest, Option<String>),
}

/// A `SensorEvent` as plain text.
pub enum SensorEventView {
    Tick,
    Command(IncomingRequestView, Option<Seq<char>>),
}

impl View for SensorEvent {
    type V = SensorEventView;

    open spec fn view(&self) -> SensorEventView {
        match self {
            SensorEvent::Tick => SensorEventView::Tick,
            SensorEvent::Command(request, reading) => SensorEventView::Command(
                request@,
                text_view(*reading),
            ),
        }
    }
}

/// The report of a sensor: its reading under its label, and nothing else.
pub open spec fn telemetry_of(sensor: TemperatureView) -> OutgoingMessageView {
    OutgoingMessageView::Telemetry(seq![(sensor.libelle, sensor.temperature)])
}

/// The sensor after a command: a `SetValue` whose text denotes a number
/// replaces the reading, and nothing else changes anything.
pub open spec fn after_request(
    sensor: TemperatureView,
    request: IncomingRequestView,
    reading: Option<Seq<char>>,
) -> TemperatureView {
    match (request, reading) {
        (IncomingRequestView::SetValue(_, _), Some(new_reading)) => TemperatureView {
            temperature: new_reading,
            libelle: sensor.libelle,
        },
        _ => sensor,
    }
}

/// What a sensor sends on a command. A `GetValue` is answered with the
/// reading. A `SetValue` whose text denotes a number is answered with the new
/// reading, and a report of it follows at once. One whose text denotes none
/// fails, and nothing is sent.
pub open spec fn answers_to(
    sensor: TemperatureView,
    request: IncomingRequestView,
    reading: Option<Seq<char>>,
) -> Result<Seq<OutgoingMessageView>, RequestError> {
    match request {
        IncomingRequestView::GetValue(number) => Ok(
            seq![OutgoingMessageView::AnswerGetValue(number, sensor.temperature)],
        ),
        IncomingRequestView::SetValue(number, _) => match reading {
            Some(new_reading) => Ok(
                seq![
                    OutgoingMessageView::AnswerGetValue(number, new_reading),
                    telemetry_of(after_request(sensor, request, reading)),
                ],
            ),
            None => Err(RequestError::MalformedValue),
        },
    }
}

/// The sensor after an event.
pub open spec fn after_event(sensor: TemperatureView, event: SensorEventView) -> TemperatureView {
    match event {
        SensorEventView::Tick => sensor,
        SensorEventView::Command(request, reading) => after_request(sensor, request, reading),
    }
}

/// What a sensor sends on an event: its report on a tick, its answers on a
/// command, nothing on a command that fails.
pub open spec fn sent_on(sensor: TemperatureView, event: SensorEventView) -> Seq<
    OutgoingMessageView,
> {
    match event {
        SensorEventView::Tick => seq![telemetry_of(sensor)],
        SensorEventView::Command(request, reading) => match answers_to(sensor, request, reading) {
            Ok(messages) => messages,
            Err(_) => Seq::empty(),
        },
    }
}

/// The sensor after a run of events, taken one after the other.
pub open spec fn after_events(
    sensor: TemperatureView,
    events: Seq<SensorEventView>,
) -> TemperatureView
    decreases events.len(),
{
    if events.len() == 0 {
        sensor
    } else {
        after_event(after_events(sensor, events.drop_last()), events.last())
    }
}

/// All that a sensor sends over a run of events, in the order of sending.
pub open spec fn sent_over(sensor: TemperatureView, events: Seq<SensorEventView>) -> Seq<
    OutgoingMessageView,
>
    decreases events.len(),
{
    if events.len() == 0 {
        Seq::empty()
    } else {
        sent_over(sensor, events.drop_last()) + sent_on(
            after_events(sensor, events.drop_last()),
            events.last(),
        )
    }
}

/// Whether an event leaves the reading as it is, whatever the sensor: a tick,
/// a `GetValue`, or a `SetValue` whose text denotes no number.
pub open spec fn keeps_reading(event: SensorEventView) -> bool {
    !(event matches SensorEventView::Command(IncomingRequestView::SetValue(_, _), Some(_)))
}

/// Whether a message carries `reading` and no other: as an answer, or as a
/// report of one sensor.
pub open spec fn carries(message: OutgoingMessageView, reading: Seq<char>) -> bool {
    match message {
        OutgoingMessageView::AnswerGetValue(_, text) => text == reading,
        OutgoingMessageView::Telemetry(values) => values.len() == 1 && values[0].1 == reading,
    }
}

/// Between two changes of the reading every answer and every report carries
/// the same value: over a run of events none of which sets a number, the
/// sensor stays as it is, and each message it sends carries its reading.
pub proof fn lemma_same_reading_until_set(sensor: TemperatureView, events: Seq<SensorEventView>)
    requires
        forall|i: int| 0 <= i < events.len() ==> keeps_reading(#[trigger] events[i]),
    ensures
        after_events(sensor, events) == sensor,
        forall|j: int|
            0 <= j < sent_over(sensor, events).len() ==> carries(
                #[trigger] sent_over(sensor, events)[j],
                sensor.temperature,
            ),
    decreases events.len(),
{
    if events.len() > 0 {
        let before = events.drop_last();
        assert forall|i: int| 0 <= i < before.len() implies keeps_reading(
            #[trigger] before[i],
        ) by {
            assert(before[i] == events[i]);
        }
        lemma_same_reading_until_set(sensor, before);
        assert(keeps_reading(events[events.len() - 1]));
        let earlier = sent_over(sensor, before);
        let latest = sent_on(sensor, events.last());
        assert forall|j: int| 0 <= j < (earlier + latest).len() implies carries(
            #[trigger] (earlier + latest)[j],
            sensor.temperature,
        ) by {
            if j < earlier.len() {
                assert((earlier + latest)[j] == earlier[j]);
            } else {
                assert((earlier + latest)[j] == latest[j - earlier.len()]);
            }
        }
    }
}

/// A run of `GetValue` commands gets one answer each, in their order, and
/// every answer carries the reading that the sensor held before the first.
pub proof fn lemma_gets_answered_alike(sensor: TemperatureView, events: Seq<SensorEventView>)
    requires
        forall|i: int|
            0 <= i < events.len() ==> (#[trigger] events[i] matches SensorEventView::Command(
                IncomingRequestView::GetValue(_),
                _,
            )),
    ensures
        sent_over(sensor, events).len() == events.len(),
        forall|i: int|
            0 <= i < events.len() ==> (events[i] matches SensorEventView::Command(
                IncomingRequestView::GetValue(number),
                _,
            ) && #[trigger] sent_over(sensor, events)[i] == OutgoingMessageView::AnswerGetValue(
                number,
                sensor.temperature,
            )),
    decreases events.len(),
{
    if events.len() > 0 {
        let before = events.drop_last();
        assert forall|i: int| 0 <= i < before.len() implies (
        #[trigger] before[i] matches SensorEventView::Command(
            IncomingRequestView::GetValue(_),
            _,
        )) by {
            assert(before[i] == events[i]);
        }
        lemma_gets_answered_alike(sensor, before);
        assert forall|i: int| 0 <= i < before.len() implies keeps_reading(
            #[trigger] before[i],
        ) by {
            assert(before[i] == events[i]);
        }
        lemma_same_reading_until_set(sensor, before);
        assert(events[events.len() - 1] matches SensorEventView::Command(
            IncomingRequestView::GetValue(_),
            _,
        ));
    }
}

/// What was set is what is read: once a `SetValue` whose text denotes a number
/// has been handled, a `GetValue` is answered with that reading, whatever the
/// sensor held before and however many events that set no number lie between.
pub proof fn lemma_get_after_set(
    sensor: TemperatureView,
    set_number: u32,
    text: Seq<char>,
    reading: Seq<char>,
    between: Seq<SensorEventView>,
    get_number: u32,
    ignored: Option<Seq<char>>,
)
    requires
        forall|i: int| 0 <= i < between.len() ==> keeps_reading(#[trigger] between[i]),
    ensures
        answers_to(sensor, IncomingRequestView::SetValue(set_number, text), Some(reading)) is Ok,
        answers_to(
            sensor,
            IncomingRequestView::SetValue(set_number, text),
            Some(reading),
        )->Ok_0[0] == OutgoingMessageView::AnswerGetValue(set_number, reading),
        sent_on(
            after_events(
                after_request(
                    sensor,
                    IncomingRequestView::SetValue(set_number, text),
                    Some(reading),
                ),
                between,
            ),
            SensorEventView::Command(IncomingRequestView::GetValue(get_number), ignored),
        ) == seq![OutgoingMessageView::AnswerGetValue(get_number, reading)],
{
    let set = after_request(
        sensor,
        IncomingRequestView::SetValue(set_number, text),
        Some(reading),
    );
    lemma_same_reading_until_set(set, between);
}

/// Whatever a sensor sends is well formed: a report holds one label.
pub proof fn lemma_sends_well_formed(sensor: TemperatureView, events: Seq<SensorEventView>)
    ensures
        forall|j: int|
            0 <= j < sent_over(sensor, events).len() ==> (#[trigger] sent_over(
                sensor,
                events,
            )[j]).well_formed(),
    decreases events.len(),
{
    if events.len() > 0 {
        let before = events.drop_last();
        lemma_sends_well_formed(sensor, before);
        let earlier = sent_over(sensor, before);
        let latest = sent_on(after_events(sensor, before), events.last());
        assert forall|j: int| 0 <= j < (earlier + latest).len() implies (#[trigger] (earlier
            + latest)[j]).well_formed() by {
            if j < earlier.len() {
                assert((earlier + latest)[j] == earlier[j]);
            } else {
                assert((earlier + latest)[j] == latest[j - earlier.len()]);
            }
        }
    }
}

/// A sensor keeps its label, whatever it is asked.
pub proof fn lemma_label_is_kept(sensor: TemperatureView, events: Seq<SensorEventView>)
    ensures
        after_events(sensor, events).libelle == sensor.libelle,
    decreases events.len(),
{
    if events.len() > 0 {
        lemma_label_is_kept(sensor, events.drop_last());
    }
}

/// A tick is answered with one report, whatever came before it: the report
/// holds the reading of that moment under the sensor's label, and the tick
/// changes nothing.
pub proof fn lemma_tick_reports(sensor: TemperatureView, before: Seq<SensorEventView>)
    ensures
        sent_on(after_events(sensor, before), SensorEventView::Tick) == seq![
            OutgoingMessageView::Telemetry(
                seq![(sensor.libelle, after_events(sensor, before).temperature)],
            ),
        ],
        after_event(after_events(sensor, before), SensorEventView::Tick) == after_events(
            sensor,
            before,
        ),
{
    lemma_label_is_kept(sensor, before);
}

/// A `SetValue` whose text denotes no number changes nothing and sends
/// nothing, however often it comes.
pub proof fn lemma_malformed_set_is_no_op(
    sensor: TemperatureView,
    number: u32,
    text: Seq<char>,
)
    ensures
        after_request(sensor, IncomingRequestView::SetValue(number, text), None) == sensor,
        answers_to(sensor, IncomingRequestView::SetValue(number, text), None) == Err::<
            Seq<OutgoingMessageView>,
            RequestError,
        >(RequestError::MalformedValue),
        sent_on(
            sensor,
            SensorEventView::Command(IncomingRequestView::SetValue(number, text), None),
        ) == Seq::<OutgoingMessageView>::empty(),
{
}

impl Temperature {
    /// A sensor with the given label that holds the given reading.
    pub fn new(initial_temperature: &str, libelle: &str) -> (sensor: Temperature)
        ensures
            sensor@.temperature == initial_temperature@,
            sensor@.libelle == libelle@,
    {
        Temperature {
            temperature: String::from_str(initial_temperature),
            libelle: String::from_str(libelle),
        }
    }

    /// The report of this sensor: its reading under its label.
    pub fn send_telemetry_value(&self) -> (message: OutgoingMessage)
        ensures
            message@ == telemetry_of(self@),
            message@.well_formed(),
    {
        let mut values: Vec<(String, String)> = Vec::new();
        values.push((self.libelle.clone(), self.temperature.clone()));
        let message = OutgoingMessage::Telemetry(values);
        assert(message@->Telemetry_0 =~= seq![(self@.libelle, self@.temperature)]);
        message
    }

    /// Handles one command and gives what is to be sent for it, in the order
    /// of sending. `reading` is the reading that the text of a `SetValue`
    /// denotes, `None` where it denotes no number.
    pub fn catch_incoming_requests(
        &mut self,
        request: IncomingRequest,
        reading: Option<String>,
    ) -> (r: Result<Vec<OutgoingMessage>, RequestError>)
        ensures
            final(self)@ == after_request(old(self)@, request@, text_view(reading)),
            match r {
                Ok(messages) => answers_to(old(self)@, request@, text_view(reading)) == Ok::<
                    Seq<OutgoingMessageView>,
                    RequestError,
                >(messages_view(messages@)),
                Err(e) => answers_to(old(self)@, request@, text_view(reading)) == Err::<
                    Seq<OutgoingMessageView>,
                    RequestError,
                >(e),
            },
    {
        let mut messages: Vec<OutgoingMessage> = Vec::new();
        match request {
            IncomingRequest::GetValue(number) => {
                messages.push(OutgoingMessage::AnswerGetValue(number, self.temperature.clone()));
                assert(messages_view(messages@) =~= seq![
                    OutgoingMessageView::AnswerGetValue(number, self@.temperature),
                ]);
                Ok(messages)
            },
            IncomingRequest::SetValue(number, _) => match reading {
                Some(new_reading) => {
                    messages.push(OutgoingMessage::AnswerGetValue(number, new_reading.clone()));
                    self.temperature = new_reading;
                    messages.push(self.send_telemetry_value());
                    assert(messages_view(messages@) =~= seq![
                        OutgoingMessageView::AnswerGetValue(number, self@.temperature),
                        telemetry_of(self@),
                    ]);
                    Ok(messages)
                },
                None => Err(RequestError::MalformedValue),
            },
        }
    }

    /// Takes one event and gives what is to be sent for it, in the order of
    /// sending. A command that fails is dropped: it changes nothing, nothing
    /// is sent for it, and the sensor goes on.
    pub fn run(&mut self, event: SensorEvent) -> (messages: Vec<OutgoingMessage>)
        ensures
            final(self)@ == after_event(old(self)@, event@),
            messages_view(messages@) == sent_on(old(self)@, event@),
    {
        match event {
            SensorEvent::Tick => {
                let mut messages: Vec<OutgoingMessage> = Vec::new();
                messages.push(self.send_telemetry_value());
                assert(messages_view(messages@) =~= seq![telemetry_of(self@)]);
                messages
            },
            SensorEvent::Command(request, reading) => {
                match self.catch_incoming_requests(request, reading) {
                    Ok(messages) => messages,
                    Err(_) => {
                        let messages: Vec<OutgoingMessage> = Vec::new();
                        assert(messages_view(messages@) =~= Seq::empty());
                        messages
                    },
                }
            },
        }
    }
}

} // verus!

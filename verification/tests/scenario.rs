use industruino::industruino::{Action, Event, Industruino, Publication};
use industruino::messages::{IncomingRPCRequest, IncomingRequest, OutgoingMessage};
use industruino::temperature::{SensorEvent, Temperature};

/// A fleet as a program would run it: the dispatcher, its sensors in the order
/// of their attachment, and all that was published.
struct Fleet {
    dispatcher: Industruino,
    sensors: Vec<Temperature>,
    published: Vec<Publication>,
}

fn fleet(labels: &[&str]) -> Fleet {
    let mut dispatcher = Industruino::new("simulator".to_string(), "SECRET-REDACTED".to_string());
    let sensors = labels
        .iter()
        .map(|label| dispatcher.create_attached_temperature_sensor(label, &21.5f32.to_string()))
        .collect();
    assert!(dispatcher.can_connect());
    Fleet { dispatcher: dispatcher.connect("localhost", 1883), sensors, published: Vec::new() }
}

/// The request that a payload holds, if it holds one.
fn decoded(payload: &str) -> Option<IncomingRPCRequest> {
    let value: serde_json::Value = serde_json::from_str(payload).ok()?;
    let method = value.get("method")?.as_str()?.to_string();
    let params = match value.get("params") {
        None => None,
        Some(params) if params.is_null() => None,
        Some(params) => Some(params.as_str()?.to_string()),
    };
    Some(IncomingRPCRequest { method, params })
}

impl Fleet {
    fn publish(&mut self, messages: Vec<OutgoingMessage>) {
        for message in messages {
            match self.dispatcher.run(Event::Outgoing(message)) {
                Action::Publish(publication) => self.published.push(publication),
                other => panic!("{:?}", other),
            }
        }
    }

    fn receive(&mut self, topic: &str, payload: &str) {
        match self.dispatcher.run(Event::Request(topic.to_string(), decoded(payload))) {
            Action::Deliver(delivery) => {
                let reading = match &delivery.request {
                    IncomingRequest::SetValue(_, text) => {
                        text.parse::<f32>().ok().map(|value| value.to_string())
                    }
                    IncomingRequest::GetValue(_) => None,
                };
                let messages = self.sensors[delivery.sensor]
                    .run(SensorEvent::Command(delivery.request, reading));
                self.publish(messages);
            }
            Action::Drop(_) => {}
            other => panic!("{:?}", other),
        }
    }

    fn tick(&mut self, sensor: usize) {
        let messages = self.sensors[sensor].run(SensorEvent::Tick);
        self.publish(messages);
    }
}

fn publication(topic: &str, payload: &str) -> Publication {
    Publication { topic: topic.to_string(), payload: payload.to_string() }
}

#[test]
fn a_set_is_answered_reported_and_read_back() {
    let mut fleet = fleet(&["temp1"]);
    fleet.receive(
        "v1/devices/me/rpc/request/42",
        "{\"method\":\"set-temp1\",\"params\":\"30.0\"}",
    );
    assert_eq!(
        fleet.published,
        vec![
            publication("reply/42", "30"),
            publication("v1/devices/me/telemetry", "{\"temp1\":\"30\"}"),
        ]
    );
    fleet.published.clear();
    fleet.receive("v1/devices/me/rpc/request/43", "{\"method\":\"get-temp1\"}");
    assert_eq!(fleet.published, vec![publication("reply/43", "30")]);
}

#[test]
fn a_get_reaches_only_the_sensor_it_names() {
    let mut fleet = fleet(&["temp1", "temp2"]);
    fleet.receive("v1/devices/me/rpc/request/1", "{\"method\":\"set-temp2\",\"params\":\"19\"}");
    fleet.published.clear();
    fleet.receive("v1/devices/me/rpc/request/2", "{\"method\":\"get-temp1\",\"params\":null}");
    assert_eq!(fleet.published, vec![publication("reply/2", "21.5")]);
    fleet.published.clear();
    fleet.receive("v1/devices/me/rpc/request/3", "{\"method\":\"get-temp2\",\"params\":null}");
    assert_eq!(fleet.published, vec![publication("reply/3", "19")]);
    assert_eq!(fleet.sensors[0].temperature, "21.5");
    assert_eq!(fleet.sensors[1].temperature, "19");
}

#[test]
fn a_get_for_an_unknown_sensor_gets_no_answer() {
    let mut fleet = fleet(&["temp1"]);
    fleet.receive("v1/devices/me/rpc/request/5", "{\"method\":\"get-unknown\"}");
    assert_eq!(fleet.published, Vec::new());
    fleet.receive("v1/devices/me/rpc/request/6", "{\"method\":\"get-temp1\"}");
    assert_eq!(fleet.published, vec![publication("reply/6", "21.5")]);
}

#[test]
fn a_set_without_a_number_gets_no_answer_and_changes_nothing() {
    let mut fleet = fleet(&["temp1"]);
    fleet.receive("v1/devices/me/rpc/request/5", "{\"method\":\"set-temp1\",\"params\":\"warm\"}");
    assert_eq!(fleet.published, Vec::new());
    fleet.receive("v1/devices/me/rpc/request/6", "{\"method\":\"get-temp1\"}");
    assert_eq!(fleet.published, vec![publication("reply/6", "21.5")]);
}

#[test]
fn a_payload_that_is_no_request_is_dropped() {
    let mut fleet = fleet(&["temp1"]);
    fleet.receive("v1/devices/me/rpc/request/5", "not json");
    fleet.receive("v1/devices/me/rpc/request/5", "{\"params\":\"1\"}");
    fleet.receive("v1/devices/me/rpc/request/5", "{\"method\":7}");
    assert_eq!(fleet.published, Vec::new());
}

#[test]
fn ticks_report_between_commands() {
    let mut fleet = fleet(&["temp1"]);
    fleet.tick(0);
    fleet.receive("v1/devices/me/rpc/request/1", "{\"method\":\"get-temp1\"}");
    fleet.tick(0);
    fleet.receive("v1/devices/me/rpc/request/2", "{\"method\":\"set-temp1\",\"params\":\"22\"}");
    fleet.tick(0);
    assert_eq!(
        fleet.published,
        vec![
            publication("v1/devices/me/telemetry", "{\"temp1\":\"21.5\"}"),
            publication("reply/1", "21.5"),
            publication("v1/devices/me/telemetry", "{\"temp1\":\"21.5\"}"),
            publication("reply/2", "22"),
            publication("v1/devices/me/telemetry", "{\"temp1\":\"22\"}"),
            publication("v1/devices/me/telemetry", "{\"temp1\":\"22\"}"),
        ]
    );
}

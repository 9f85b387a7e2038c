use spaceapi_server::api::{
    Contact, PeopleNowPresentSensor, Sensors, State, Status, StatusView, TemperatureSensor,
};
use spaceapi_server::modifiers::{StateFromPeopleNowPresent, StatusModifier};
use spaceapi_server::sensors::{Reading, SensorError, SensorSpec, StoreError};
use spaceapi_server::server::handlers::{Omission, ReadHandler};
use spaceapi_server::server::response::{Body, Response, StatusCode};
use spaceapi_server::templates::{PeopleNowPresentSensorTemplate, TemperatureSensorTemplate};
use std::sync::Arc;

fn static_status() -> Status {
    Status {
        space: "coredump".to_string(),
        url: "https://www.coredump.ch/".to_string(),
        address: Some("Spinnereistrasse 2, 8640 Rapperswil, Switzerland".to_string()),
        contact: Contact {
            irc: Some("irc://freenode.net/#coredump".to_string()),
            twitter: Some("@coredump_ch".to_string()),
            email: None,
        },
        issue_report_channels: vec!["email".to_string(), "twitter".to_string()],
        state: State { open: None, message: None },
        sensors: None,
    }
}

fn people_sensor(key: &str) -> SensorSpec {
    SensorSpec {
        template: Box::new(PeopleNowPresentSensorTemplate { location: None, name: None }),
        data_key: key.to_string(),
    }
}

fn temperature_sensor(key: &str, location: &str) -> SensorSpec {
    SensorSpec {
        template: Box::new(TemperatureSensorTemplate {
            unit: "°C".to_string(),
            location: location.to_string(),
            name: None,
        }),
        data_key: key.to_string(),
    }
}

fn people(value: u64) -> PeopleNowPresentSensor {
    PeopleNowPresentSensor { location: None, name: None, value }
}

fn temperature(location: &str, value: &str) -> TemperatureSensor {
    TemperatureSensor {
        unit: "°C".to_string(),
        location: location.to_string(),
        name: None,
        value: value.to_string(),
    }
}

fn reading(key: &str, outcome: Result<&str, StoreError>) -> Reading {
    Reading { key: key.to_string(), outcome: outcome.map(|value| value.to_string()) }
}

fn document(response: Response) -> Status {
    match response.body {
        Body::Document(status) => status,
        other => panic!("the response carries no document: {:?}", other),
    }
}

/// Puts a mark behind the name of the space.
struct Mark(&'static str);

impl StatusModifier for Mark {
    // The description of the modifier for proofs. Nothing ever runs it.
    fn modified(&self, _status: StatusView) -> StatusView {
        unreachable!()
    }

    fn modify(&self, status: &mut Status) {
        status.space.push_str(self.0);
    }
}

/// Says in words what the state says.
struct MessageFromState;

impl StatusModifier for MessageFromState {
    // The description of the modifier for proofs. Nothing ever runs it.
    fn modified(&self, _status: StatusView) -> StatusView {
        unreachable!()
    }

    fn modify(&self, status: &mut Status) {
        status.state.message = Some(
            match status.state.open {
                Some(true) => "open",
                Some(false) => "closed",
                None => "unknown",
            }
            .to_string(),
        );
    }
}

#[test]
fn each_sensor_read_has_one_entry_in_its_list() {
    let specs = Arc::new(vec![
        temperature_sensor("temp_roof", "Roof"),
        people_sensor("people"),
        temperature_sensor("temp_lab", "Lab"),
        temperature_sensor("temp_cellar", "Cellar"),
    ]);
    let handler = ReadHandler::new(static_status(), specs, Vec::new());
    let outcome = handler.handle(&vec![
        reading("temp_lab", Ok("21.5")),
        reading("people", Ok("3")),
        reading("temp_roof", Ok("-4")),
        reading("temp_cellar", Ok("12")),
    ]);
    assert_eq!(outcome.omitted, Vec::new());
    assert_eq!(outcome.response.status, StatusCode::Success);
    let mut expected = static_status();
    expected.sensors = Some(Sensors {
        people_now_present: vec![people(3)],
        temperature: vec![
            temperature("Roof", "-4"),
            temperature("Lab", "21.5"),
            temperature("Cellar", "12"),
        ],
    });
    assert_eq!(document(outcome.response), expected);
}

#[test]
fn sensor_that_cannot_be_read_is_left_out() {
    let specs = Arc::new(vec![
        temperature_sensor("temp_roof", "Roof"),
        people_sensor("people"),
        temperature_sensor("temp_lab", "Lab"),
    ]);
    let handler = ReadHandler::new(static_status(), specs, Vec::new());
    let outcome = handler.handle(&vec![
        reading("temp_roof", Err(StoreError::PoolTimeout)),
        reading("people", Err(StoreError::Unavailable)),
        reading("temp_lab", Ok("21.5")),
    ]);
    assert_eq!(outcome.response.status, StatusCode::Success);
    assert_eq!(
        outcome.omitted,
        vec![
            Omission { data_key: "temp_roof".to_string(), error: SensorError::PoolTimeout },
            Omission { data_key: "people".to_string(), error: SensorError::StoreUnavailable },
        ]
    );
    let mut expected = static_status();
    expected.sensors =
        Some(Sensors { people_now_present: vec![], temperature: vec![temperature("Lab", "21.5")] });
    assert_eq!(document(outcome.response), expected);
}

#[test]
fn no_sensors_section_when_nothing_was_read() {
    let specs = Arc::new(vec![people_sensor("people"), temperature_sensor("temp", "Lab")]);
    let handler = ReadHandler::new(static_status(), specs, Vec::new());

    let outcome = handler.handle(&Vec::new());
    assert_eq!(outcome.response.status, StatusCode::Success);
    assert_eq!(outcome.omitted.len(), 2);
    assert_eq!(outcome.omitted[0].data_key, "people");
    assert_eq!(outcome.omitted[0].error, SensorError::StoreUnavailable);
    assert_eq!(outcome.omitted[1].data_key, "temp");
    assert_eq!(document(outcome.response), static_status());

    let outcome = handler.handle(&vec![
        reading("people", Err(StoreError::Unavailable)),
        reading("temp", Err(StoreError::PoolTimeout)),
    ]);
    assert_eq!(outcome.response.status, StatusCode::Success);
    assert_eq!(document(outcome.response).sensors, None);
}

#[test]
fn no_sensors_section_without_sensors() {
    let handler = ReadHandler::new(static_status(), Arc::new(Vec::new()), Vec::new());
    let outcome = handler.handle(&vec![reading("people", Ok("3"))]);
    assert_eq!(outcome.omitted, Vec::new());
    assert_eq!(
        outcome.response,
        Response {
            status: StatusCode::Success,
            content_type: "application/json; charset=utf-8".to_string(),
            no_cache: true,
            allow_any_origin: true,
            body: Body::Document(static_status()),
        }
    );
}

#[test]
fn sensors_section_of_the_static_document_is_kept() {
    let mut status = static_status();
    status.sensors = Some(Sensors {
        people_now_present: vec![people(1)],
        temperature: vec![temperature("Server room", "30")],
    });
    let specs = Arc::new(vec![temperature_sensor("temp", "Lab"), people_sensor("people")]);
    let handler = ReadHandler::new(status.clone(), specs, Vec::new());

    // Nothing read: the section stays as it was given.
    assert_eq!(document(handler.handle(&Vec::new()).response), status);

    // Entries go behind the ones that were given.
    let outcome = handler.handle(&vec![reading("people", Ok("5")), reading("temp", Ok("19"))]);
    assert_eq!(
        document(outcome.response).sensors,
        Some(Sensors {
            people_now_present: vec![people(1), people(5)],
            temperature: vec![temperature("Server room", "30"), temperature("Lab", "19")],
        })
    );
}

#[test]
fn sensors_with_one_key_each_have_an_entry() {
    let specs = Arc::new(vec![
        temperature_sensor("temp", "Lab"),
        temperature_sensor("temp", "Kitchen"),
    ]);
    let handler = ReadHandler::new(static_status(), specs, Vec::new());
    let outcome = handler.handle(&vec![reading("temp", Ok("20"))]);
    assert_eq!(
        document(outcome.response).sensors,
        Some(Sensors {
            people_now_present: vec![],
            temperature: vec![temperature("Lab", "20"), temperature("Kitchen", "20")],
        })
    );
}

#[test]
fn every_request_starts_from_the_static_document() {
    let specs = Arc::new(vec![people_sensor("people")]);
    let modifiers: Vec<Box<dyn StatusModifier>> = vec![Box::new(Mark("!"))];
    let handler = ReadHandler::new(static_status(), specs, modifiers);

    let first = document(handler.handle(&vec![reading("people", Ok("2"))]).response);
    assert_eq!(first.space, "coredump!");
    assert_eq!(first.sensors.map(|s| s.people_now_present), Some(vec![people(2)]));

    let second = document(handler.handle(&vec![reading("people", Ok("4"))]).response);
    assert_eq!(second.space, "coredump!");
    assert_eq!(second.sensors.map(|s| s.people_now_present), Some(vec![people(4)]));

    let third = document(handler.handle(&Vec::new()).response);
    assert_eq!(third.space, "coredump!");
    assert_eq!(third.sensors, None);
}

#[test]
fn modifiers_run_in_the_order_of_registration() {
    let ab: Vec<Box<dyn StatusModifier>> = vec![Box::new(Mark("a")), Box::new(Mark("b"))];
    let handler = ReadHandler::new(static_status(), Arc::new(Vec::new()), ab);
    assert_eq!(document(handler.handle(&Vec::new()).response).space, "coredumpab");

    let ba: Vec<Box<dyn StatusModifier>> = vec![Box::new(Mark("b")), Box::new(Mark("a"))];
    let handler = ReadHandler::new(static_status(), Arc::new(Vec::new()), ba);
    assert_eq!(document(handler.handle(&Vec::new()).response).space, "coredumpba");
}

#[test]
fn modifier_sees_what_the_one_before_it_made() {
    let readings = vec![reading("people", Ok("2"))];

    let chain: Vec<Box<dyn StatusModifier>> =
        vec![Box::new(StateFromPeopleNowPresent), Box::new(MessageFromState)];
    let handler = ReadHandler::new(static_status(), Arc::new(vec![people_sensor("people")]), chain);
    let status = document(handler.handle(&readings).response);
    assert_eq!(status.state, State { open: Some(true), message: Some("open".to_string()) });

    let chain: Vec<Box<dyn StatusModifier>> =
        vec![Box::new(MessageFromState), Box::new(StateFromPeopleNowPresent)];
    let handler = ReadHandler::new(static_status(), Arc::new(vec![people_sensor("people")]), chain);
    let status = document(handler.handle(&readings).response);
    assert_eq!(status.state, State { open: Some(true), message: Some("unknown".to_string()) });
}

#[test]
fn modifiers_see_the_sensors_that_were_read() {
    let specs = Arc::new(vec![people_sensor("people")]);
    let chain: Vec<Box<dyn StatusModifier>> = vec![Box::new(StateFromPeopleNowPresent)];
    let handler = ReadHandler::new(static_status(), specs, chain);

    let status = document(handler.handle(&vec![reading("people", Ok("3"))]).response);
    assert_eq!(status.state.open, Some(true));
    let status = document(handler.handle(&vec![reading("people", Ok("0"))]).response);
    assert_eq!(status.state.open, Some(false));
    let status = document(handler.handle(&vec![reading("people", Err(StoreError::Unavailable))]).response);
    assert_eq!(status.state.open, None);
}

#[test]
fn state_follows_the_first_people_entry() {
    let mut status = static_status();
    status.state.message = Some("hello".to_string());
    status.sensors = Some(Sensors {
        people_now_present: vec![people(0), people(9)],
        temperature: vec![],
    });
    StateFromPeopleNowPresent.modify(&mut status);
    assert_eq!(status.state, State { open: Some(false), message: Some("hello".to_string()) });

    let mut status = static_status();
    status.state.open = Some(true);
    status.sensors = Some(Sensors { people_now_present: vec![], temperature: vec![] });
    StateFromPeopleNowPresent.modify(&mut status);
    assert_eq!(status.state.open, Some(true));

    let mut status = static_status();
    StateFromPeopleNowPresent.modify(&mut status);
    assert_eq!(status, static_status());
}

#[test]
fn keys_to_read_are_the_registrys() {
    let specs = Arc::new(vec![
        temperature_sensor("temp_roof", "Roof"),
        people_sensor("people"),
        temperature_sensor("temp_roof", "Roof again"),
    ]);
    let handler = ReadHandler::new(static_status(), specs, Vec::new());
    assert_eq!(handler.sensor_keys(), vec!["temp_roof", "people", "temp_roof"]);
    let handler = ReadHandler::new(static_status(), Arc::new(Vec::new()), Vec::new());
    assert_eq!(handler.sensor_keys(), Vec::<String>::new());
}

#[test]
fn copy_of_a_document_is_equal_and_apart() {
    let mut status = static_status();
    status.sensors = Some(Sensors {
        people_now_present: vec![PeopleNowPresentSensor {
            location: Some("Lab".to_string()),
            name: Some("door".to_string()),
            value: 4,
        }],
        temperature: vec![temperature("Roof", "3.5"), temperature("Lab", "20")],
    });
    status.state = State { open: Some(true), message: Some("come in".to_string()) };
    let mut copy = status.clone();
    assert_eq!(copy, status);
    copy.issue_report_channels.push("irc".to_string());
    copy.space.push('2');
    assert_eq!(status.issue_report_channels, vec!["email", "twitter"]);
    assert_eq!(status.space, "coredump");
}

use spaceapi_server::sensors::{
    register_sensor, Reading, SensorError, SensorSpec, StoreError, WriteCommand,
};
use spaceapi_server::templates::TemperatureSensorTemplate;

fn sensor(key: &str) -> SensorSpec {
    SensorSpec {
        template: Box::new(TemperatureSensorTemplate {
            unit: "°C".to_string(),
            location: "Hackerspace".to_string(),
            name: None,
        }),
        data_key: key.to_string(),
    }
}

fn reading(key: &str, outcome: Result<&str, StoreError>) -> Reading {
    Reading { key: key.to_string(), outcome: outcome.map(|value| value.to_string()) }
}

#[test]
fn written_value_is_read_back_unchanged() {
    let spec = sensor("temp_room");
    let write = spec.set_sensor_value("21.5");
    assert_eq!(write, WriteCommand { key: "temp_room".to_string(), value: "21.5".to_string() });

    // A store that holds what was written answers the next read with it.
    let readings = vec![Reading { key: write.key, outcome: Ok(write.value) }];
    assert_eq!(spec.get_sensor_value(&readings), Ok("21.5".to_string()));
}

#[test]
fn write_goes_to_the_sensors_own_key() {
    let write = sensor("a").set_sensor_value("");
    assert_eq!(write.key, "a");
    assert_eq!(write.value, "");
    let write = sensor("").set_sensor_value("x y\nz");
    assert_eq!(write.key, "");
    assert_eq!(write.value, "x y\nz");
}

#[test]
fn value_is_found_by_exact_key() {
    let readings = vec![
        reading("temp", Ok("1")),
        reading("temp_room", Ok("2")),
        reading("Temp_room", Ok("3")),
        reading("temp_room ", Ok("4")),
    ];
    assert_eq!(sensor("temp_room").get_sensor_value(&readings), Ok("2".to_string()));
    assert_eq!(sensor("Temp_room").get_sensor_value(&readings), Ok("3".to_string()));
    assert_eq!(sensor("temp_room ").get_sensor_value(&readings), Ok("4".to_string()));
    assert_eq!(sensor("temp").get_sensor_value(&readings), Ok("1".to_string()));
}

#[test]
fn first_reading_of_a_key_counts() {
    let readings = vec![
        reading("k", Err(StoreError::PoolTimeout)),
        reading("k", Ok("late")),
    ];
    assert_eq!(sensor("k").get_sensor_value(&readings), Err(SensorError::PoolTimeout));
    let readings = vec![reading("k", Ok("early")), reading("k", Err(StoreError::Unavailable))];
    assert_eq!(sensor("k").get_sensor_value(&readings), Ok("early".to_string()));
}

#[test]
fn key_without_reading_is_unavailable() {
    assert_eq!(sensor("k").get_sensor_value(&Vec::new()), Err(SensorError::StoreUnavailable));
    let readings = vec![reading("other", Ok("1"))];
    assert_eq!(sensor("k").get_sensor_value(&readings), Err(SensorError::StoreUnavailable));
}

#[test]
fn store_failures_keep_their_kind() {
    let readings = vec![reading("k", Err(StoreError::Unavailable))];
    assert_eq!(sensor("k").get_sensor_value(&readings), Err(SensorError::StoreUnavailable));
    let readings = vec![reading("k", Err(StoreError::PoolTimeout))];
    assert_eq!(sensor("k").get_sensor_value(&readings), Err(SensorError::PoolTimeout));
    assert_eq!(SensorError::from(StoreError::Unavailable), SensorError::StoreUnavailable);
    assert_eq!(SensorError::from(StoreError::PoolTimeout), SensorError::PoolTimeout);
}

#[test]
fn empty_value_is_a_value() {
    let readings = vec![reading("k", Ok(""))];
    assert_eq!(sensor("k").get_sensor_value(&readings), Ok(String::new()));
}

#[test]
fn sensor_is_registered_once() {
    let mut specs: Vec<SensorSpec> = Vec::new();
    assert!(register_sensor(&mut specs, sensor("temp_lab")).is_ok());
    assert!(register_sensor(&mut specs, sensor("temp_roof")).is_ok());
    let keys: Vec<&str> = specs.iter().map(|spec| spec.data_key.as_str()).collect();
    assert_eq!(keys, vec!["temp_lab", "temp_roof"]);

    let refused = register_sensor(&mut specs, sensor("temp_lab"));
    assert_eq!(refused.err().map(|spec| spec.data_key), Some("temp_lab".to_string()));
    let refused = register_sensor(&mut specs, sensor("temp_roof"));
    assert!(refused.is_err());
    let keys: Vec<&str> = specs.iter().map(|spec| spec.data_key.as_str()).collect();
    assert_eq!(keys, vec!["temp_lab", "temp_roof"]);

    assert!(register_sensor(&mut specs, sensor("Temp_lab")).is_ok());
    assert_eq!(specs.len(), 3);
}

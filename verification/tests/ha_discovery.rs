use sensors_pub::app_name;
use sensors_pub::secure_mqtt_topic_name;
use sensors_pub::ConfigDevice;
use sensors_pub::HADevice;
use sensors_pub::HADiscovery;
use sensors_pub::HASensor;
use sensors_pub::SensorMeasureType;

#[test]
fn topic_from_devicename() {
    for s in [
        "wrong+".to_string(),
        "wro#ng".into(),
        "w/r/o/n/g+".into(),
        "wrong/#/path".into(),
    ] {
        assert!(rumqttc::valid_topic(&secure_mqtt_topic_name(&s)));
    }
}

#[test]
fn simple_device() {
    let device = HADevice::new(&ConfigDevice {
        name: "Device Name".into(),
        manufacturer: "My Manufacturer".into(),
        model: "Model XYZ".into(),
    });
    assert_eq!(
        device,
        HADevice {
            name: "Device Name".into(),
            manufacturer: "My Manufacturer".into(),
            model: "Model XYZ".into(),
            identifiers: vec!["Device Name".into()]
        }
    )
}

#[test]
fn sensor_with_name_device_invalid() {
    let device = HADevice {
        name: "W*ird+ma/hine#N@me".into(),
        manufacturer: "My Manufacturer".into(),
        model: "Model XYZ".into(),
        identifiers: vec!["Device Name".into()],
    };

    let sensor_id = String::from("sensor-001");
    let measure = SensorMeasureType::Humidity;
    let sensor = HASensor::new(&measure, device.clone(), &sensor_id);

    assert_eq!(
        sensor,
        HASensor {
            name: "Humidity".into(),
            device_class: "humidity".into(),
            state_class: "measurement".into(),
            unit_of_measurement: "%".into(),
            state_topic: format!("{}/w_ird_ma_hine_n@me/sensor-001/state", app_name()),
            unique_id: "sensor-001_humidity".into(),
            value_template: r"{{ value_json.humidity }}".into(),
            device: device,
        },
    );
}

#[test]
fn discovery_with_name_device_invalid() {
    let device = HADevice {
        name: "W*ird+ma/hine#N@me".into(),
        manufacturer: "My Manufacturer".into(),
        model: "Model XYZ".into(),
        identifiers: vec!["Device Name".into()],
    };

    let sensor_id = String::from("sensor-001");
    let measure = SensorMeasureType::Humidity;
    let discovery = HADiscovery::new(&measure, &sensor_id, device.clone());

    assert_eq!(
        discovery.topic,
        "homeassistant/sensor/sensors-pub_w_ird_ma_hine_n@me_sensor-001_humidity/config"
            .to_string()
    );
}

#[test]
fn sanitize_removes_broker_specials() {
    for s in ["a+b", "a#b", "a/b", "+#/", "Mixed Case + More/Stuff#here"] {
        let out = secure_mqtt_topic_name(s);
        assert!(!out.contains('+'));
        assert!(!out.contains('#'));
        assert!(!out.contains('/'));
        assert!(rumqttc::valid_topic(&out));
    }
}

#[test]
fn sanitize_is_idempotent_on_samples() {
    for s in [
        "W*ird+ma/hine#N@me",
        "Device Name",
        "(quo,ted)'\"",
        "UPPER lower",
        "path\\with\\backslashes",
        "",
    ] {
        let once = secure_mqtt_topic_name(s);
        let twice = secure_mqtt_topic_name(&once);
        assert_eq!(twice, once);
    }
}

#[test]
fn sanitize_lowercases_and_maps() {
    assert_eq!(secure_mqtt_topic_name("ABC"), "abc");
    assert_eq!(secure_mqtt_topic_name("a b"), "a-b");
    assert_eq!(secure_mqtt_topic_name("a(b)c,d\"e'f"), "abcdef");
    assert_eq!(secure_mqtt_topic_name("a#b+c*d\\e/f"), "a_b_c_d_e_f");
}

#[test]
fn state_topic_exact() {
    let device = HADevice::new(&ConfigDevice {
        name: "Device Name".into(),
        manufacturer: "m".into(),
        model: "m".into(),
    });
    assert_eq!(
        device.get_mqtt_state_topic("sensor-001"),
        "sensors-pub/device-name/sensor-001/state"
    );
}

#[test]
fn measure_type_metadata() {
    let t = SensorMeasureType::Temperature;
    let h = SensorMeasureType::Humidity;
    assert_eq!(t.name(), "Temperature");
    assert_eq!(h.name(), "Humidity");
    assert_eq!(t.device_class(), "temperature");
    assert_eq!(h.device_class(), "humidity");
    assert_eq!(t.state_class(), "measurement");
    assert_eq!(h.state_class(), "measurement");
    assert_eq!(t.unit_of_measurement(), "\u{b0}C");
    assert_eq!(h.unit_of_measurement(), "%");
    assert_eq!(t.name_lowercase(), "temperature");
    assert_eq!(h.name_lowercase(), "humidity");
}

#[test]
fn discovery_payload_for_temperature() {
    let device = HADevice::new(&ConfigDevice {
        name: "host".into(),
        manufacturer: "m".into(),
        model: "x".into(),
    });
    let discovery = HADiscovery::new(&SensorMeasureType::Temperature, "probe", device);
    assert_eq!(
        discovery.topic,
        "homeassistant/sensor/sensors-pub_host_probe_temperature/config"
    );
    assert_eq!(discovery.payload.name, "Temperature");
    assert_eq!(discovery.payload.unique_id, "probe_temperature");
    assert_eq!(discovery.payload.value_template, "{{ value_json.temperature }}");
    assert_eq!(discovery.payload.state_topic, "sensors-pub/host/probe/state");
    assert_eq!(discovery.payload.device.identifiers, vec!["host".to_string()]);
}

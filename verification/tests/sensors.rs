use sensors_pub::am2320_measure_from;
use sensors_pub::am2320_measure_types;
use sensors_pub::am2320_read_command;
use sensors_pub::plan_declare;
use sensors_pub::plan_tick;
use sensors_pub::Ds18b20;
use sensors_pub::Ds18b20Config;
use sensors_pub::Faker;
use sensors_pub::FakerConfig;
use sensors_pub::Measure;
use sensors_pub::SensorError;
use sensors_pub::SensorMeasureType;

#[test]
fn am2320_basic_measure() {
    let measure =
        am2320_measure_from([0x03, 0x04, 0x02, 0x6A, 0x00, 0xD3, 0x91, 0xD1]).unwrap();

    assert_eq!(
        measure,
        Measure {
            humidity: Some(61800),
            temperature: Some(21100),
        }
    )
}

#[test]
fn am2320_negative_temperature() {
    let measure =
        am2320_measure_from([0x03, 0x04, 0x00, 0x00, 0x80, 0x64, 0x91, 0xC3]).unwrap();

    assert_eq!(measure.temperature, Some(-10000))
}

#[test]
fn am2320_good_crc() {
    assert!(am2320_measure_from([0x03, 0x04, 0x12, 0x34, 0x56, 0x78, 0x8A, 0xDC]).is_ok())
}

#[test]
fn am2320_bad_crc() {
    assert!(am2320_measure_from([0x03, 0x04, 0x12, 0x34, 0x56, 0x78, 0x00, 0x00]).is_err())
}

#[test]
fn am2320_bad_crc_reports_checksum() {
    let err = am2320_measure_from([0x03, 0x04, 0x12, 0x34, 0x56, 0x78, 0x00, 0x00]).unwrap_err();
    assert!(matches!(err, SensorError::ChecksumMismatch(v) if v != 0));
}

#[test]
fn am2320_command_frame() {
    assert_eq!(am2320_read_command(), [0x03, 0x00, 0x04]);
}

#[test]
fn am2320_fixed_measure_types() {
    assert_eq!(
        am2320_measure_types(),
        vec![SensorMeasureType::Humidity, SensorMeasureType::Temperature]
    );
}

#[test]
fn ds18b20_basic_measure() {
    let measure = Ds18b20::measure_from("20250\n").unwrap();

    assert_eq!(
        measure,
        Measure {
            temperature: Some(20250),
            ..Default::default()
        }
    )
}

#[test]
fn ds18b20_negative_measure() {
    let measure = Ds18b20::measure_from("-5000\n").unwrap();

    assert_eq!(
        measure,
        Measure {
            temperature: Some(-5000),
            ..Default::default()
        }
    )
}

#[test]
fn ds18b20_rejects_garbage() {
    for s in ["abc\n", "", "\n", "-\n", "+", "12a4", "--5", "12 34"] {
        assert_eq!(Ds18b20::measure_from(s), Err(SensorError::ParseError));
    }
}

#[test]
fn ds18b20_accepts_plus_sign_and_no_newline() {
    assert_eq!(
        Ds18b20::measure_from("+125"),
        Ok(Measure { temperature: Some(125), humidity: None })
    );
    assert_eq!(
        Ds18b20::measure_from("0"),
        Ok(Measure { temperature: Some(0), humidity: None })
    );
}

#[test]
fn ds18b20_rejects_overflow() {
    assert_eq!(
        Ds18b20::measure_from("99999999999999999999\n"),
        Err(SensorError::ParseError)
    );
    assert_eq!(
        Ds18b20::measure_from("9223372036854775807"),
        Ok(Measure { temperature: Some(i64::MAX), humidity: None })
    );
    assert_eq!(
        Ds18b20::measure_from("-9223372036854775808"),
        Ok(Measure { temperature: Some(i64::MIN), humidity: None })
    );
    assert_eq!(
        Ds18b20::measure_from("9223372036854775808"),
        Err(SensorError::ParseError)
    );
}

#[test]
fn ds18b20_device_path() {
    let sensor = Ds18b20::new(&Ds18b20Config { identifier: "0123456789ab".into() });
    assert_eq!(sensor.path().as_str(), "/sys/bus/w1/devices/28-0123456789ab");
    assert_eq!(sensor.measure_types(), &vec![SensorMeasureType::Temperature]);
}

#[test]
fn faker_stays_in_range() {
    let config = FakerConfig {
        measures: vec![SensorMeasureType::Temperature, SensorMeasureType::Humidity],
    };
    let mut faker = Faker::new(&config);
    for _ in 0..200 {
        let m = faker.measure().unwrap();
        let t = m.temperature.expect("temperature configured");
        let h = m.humidity.expect("humidity configured");
        assert!((-20000..=40000).contains(&t));
        assert!((0..=100000).contains(&h));
        assert_eq!(t % 10, 0);
        assert_eq!(h % 10, 0);
    }
}

#[test]
fn faker_walk_is_smooth() {
    let config = FakerConfig {
        measures: vec![SensorMeasureType::Temperature, SensorMeasureType::Humidity],
    };
    let mut faker = Faker::new(&config);
    let first = faker.measure().unwrap();
    let mut prev_t = first.temperature.unwrap();
    let mut prev_h = first.humidity.unwrap();
    // each step moves by at most the delta bound plus rounding
    for _ in 0..100 {
        let m = faker.measure().unwrap();
        let t = m.temperature.unwrap();
        let h = m.humidity.unwrap();
        assert!((t - prev_t).abs() <= 2005);
        assert!((h - prev_h).abs() <= 2005);
        prev_t = t;
        prev_h = h;
    }
}

#[test]
fn faker_reports_only_configured_types() {
    let config = FakerConfig { measures: vec![SensorMeasureType::Temperature] };
    let mut faker = Faker::new(&config);
    for _ in 0..20 {
        let m = faker.measure().unwrap();
        assert!(m.temperature.is_some());
        assert!(m.humidity.is_none());
    }
    assert_eq!(faker.measure_types(), &vec![SensorMeasureType::Temperature]);
}

#[test]
fn faker_default_config() {
    let config = FakerConfig::default();
    assert_eq!(
        config.measures,
        vec![SensorMeasureType::Temperature, SensorMeasureType::Humidity]
    );
}

#[test]
fn tick_plan_isolates_failed_sensor() {
    let m0 = Measure { temperature: Some(21100), humidity: None };
    let m2 = Measure { temperature: Some(-5000), humidity: Some(50000) };
    let outcomes = vec![
        Ok(m0),
        Err(SensorError::ChecksumMismatch(0xBEEF)),
        Ok(m2),
    ];
    let plan = plan_tick(&outcomes, 2);
    assert_eq!(plan.len(), 4);
    assert!(plan.iter().all(|cmd| cmd.sensor != 1));
    assert_eq!(plan[0].sensor, 0);
    assert_eq!(plan[0].publisher, 0);
    assert_eq!(plan[0].measure, m0);
    assert_eq!(plan[1].sensor, 0);
    assert_eq!(plan[1].publisher, 1);
    assert_eq!(plan[2].sensor, 2);
    assert_eq!(plan[2].publisher, 0);
    assert_eq!(plan[2].measure, m2);
    assert_eq!(plan[3].sensor, 2);
    assert_eq!(plan[3].publisher, 1);
}

#[test]
fn tick_plan_empty_when_all_fail() {
    let outcomes: Vec<Result<Measure, SensorError>> =
        vec![Err(SensorError::TransportError), Err(SensorError::ParseError)];
    assert!(plan_tick(&outcomes, 3).is_empty());
}

#[test]
fn declare_plan_orders_triples() {
    let sensors = vec![
        vec![SensorMeasureType::Humidity, SensorMeasureType::Temperature],
        vec![SensorMeasureType::Temperature],
    ];
    let plan = plan_declare(&sensors, 2);
    let triples: Vec<(usize, SensorMeasureType, usize)> =
        plan.iter().map(|c| (c.sensor, c.measure_type, c.publisher)).collect();
    assert_eq!(
        triples,
        vec![
            (0, SensorMeasureType::Humidity, 0),
            (0, SensorMeasureType::Humidity, 1),
            (0, SensorMeasureType::Temperature, 0),
            (0, SensorMeasureType::Temperature, 1),
            (1, SensorMeasureType::Temperature, 0),
            (1, SensorMeasureType::Temperature, 1),
        ]
    );
}

#[test]
fn error_labels() {
    assert_eq!(SensorError::DeviceUnavailable.label(), "device unavailable");
    assert_eq!(SensorError::ChecksumMismatch(1).label(), "checksum mismatch");
    assert_eq!(SensorError::ParseError.label(), "parse error");
    assert_eq!(SensorError::TransportError.label(), "transport error");
    assert_eq!(SensorError::DecodeError.label(), "decode error");
}

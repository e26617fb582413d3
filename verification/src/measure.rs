use vstd::prelude::*;

verus! {

/// One physical quantity a sensor can report.
///
/// Each variant carries fixed metadata: a display name, a semantic device
/// class, a state class, and a unit of measurement. The metadata is a pure
/// function of the variant.
#[derive(Clone, Copy, Debug, PartialEq, Eq, Structural)]
pub enum SensorMeasureType {
    Temperature,
    Humidity,
}

impl SensorMeasureType {
    pub open spec fn spec_name(&self) -> Seq<char> {
        match self {
            SensorMeasureType::Temperature => "Temperature"@,
            SensorMeasureType::Humidity => "Humidity"@,
        }
    }

    pub open spec fn spec_name_lowercase(&self) -> Seq<char> {
        match self {
            SensorMeasureType::Temperature => "temperature"@,
            SensorMeasureType::Humidity => "humidity"@,
        }
    }

    pub open spec fn spec_device_class(&self) -> Seq<char> {
        match self {
            SensorMeasureType::Temperature => "temperature"@,
            SensorMeasureType::Humidity => "humidity"@,
        }
    }

    pub open spec fn spec_state_class(&self) -> Seq<char> {
        match self {
            SensorMeasureType::Temperature => "measurement"@,
            SensorMeasureType::Humidity => "measurement"@,
        }
    }

    pub open spec fn spec_unit_of_measurement(&self) -> Seq<char> {
        match self {
            SensorMeasureType::Temperature => "°C"@,
            SensorMeasureType::Humidity => "%"@,
        }
    }

    /// Display name of the measure type.
    pub fn name(&self) -> (r: String)
        ensures
            r@ == self.spec_name(),
    {
        match self {
            SensorMeasureType::Temperature => "Temperature".to_owned(),
            SensorMeasureType::Humidity => "Humidity".to_owned(),
        }
    }

    /// The display name in lower case, as it appears in unique ids and value
    /// templates.
    pub fn name_lowercase(&self) -> (r: &'static str)
        ensures
            r@ == self.spec_name_lowercase(),
    {
        match self {
            SensorMeasureType::Temperature => "temperature",
            SensorMeasureType::Humidity => "humidity",
        }
    }

    /// Semantic device class understood by the auto-discovery subscriber.
    pub fn device_class(&self) -> (r: &'static str)
        ensures
            r@ == self.spec_device_class(),
    {
        match self {
            SensorMeasureType::Temperature => "temperature",
            SensorMeasureType::Humidity => "humidity",
        }
    }

    /// State class of the reported values.
    pub fn state_class(&self) -> (r: &'static str)
        ensures
            r@ == self.spec_state_class(),
    {
        match self {
            SensorMeasureType::Temperature => "measurement",
            SensorMeasureType::Humidity => "measurement",
        }
    }

    /// Unit the readings are expressed in.
    pub fn unit_of_measurement(&self) -> (r: &'static str)
        ensures
            r@ == self.spec_unit_of_measurement(),
    {
        match self {
            SensorMeasureType::Temperature => "°C",
            SensorMeasureType::Humidity => "%",
        }
    }
}

/// One reading: zero or more named physical quantities.
///
/// Values are held as exact fixed-point integers in milli-units: temperature
/// in milli-degrees Celsius, relative humidity in milli-percent. A field that
/// the producing sensor does not report is `None` and is omitted from any
/// serialized form.
#[derive(Clone, Copy, Debug, PartialEq, Default)]
pub struct Measure {
    /// Temperature in milli-degrees Celsius.
    pub temperature: Option<i64>,
    /// Relative humidity in milli-percent.
    pub humidity: Option<i64>,
}

} // verus!

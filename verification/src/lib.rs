use vstd::prelude::*;

pub mod am2320;
pub mod config;
pub mod ds18b20;
pub mod errors;
pub mod faker;
pub mod ha_discovery;
pub mod measure;
pub mod orchestrator;

pub use am2320::am2320_measure_from;
pub use am2320::am2320_measure_types;
pub use am2320::am2320_read_command;
pub use config::ConfigDevice;
pub use ds18b20::Ds18b20;
pub use ds18b20::Ds18b20Config;
pub use errors::SensorError;
pub use faker::Faker;
pub use faker::FakerConfig;
pub use ha_discovery::secure_mqtt_topic_name;
pub use ha_discovery::HADevice;
pub use ha_discovery::HADiscovery;
pub use ha_discovery::HASensor;
pub use measure::Measure;
pub use measure::SensorMeasureType;
pub use orchestrator::plan_declare;
pub use orchestrator::plan_tick;
pub use orchestrator::DeclareCommand;
pub use orchestrator::PublishCommand;

verus! {

/// Namespace that prefixes every state topic and discovery identifier.
pub open spec fn spec_app_name() -> Seq<char> {
    "sensors-pub"@
}

/// The application namespace as a string slice.
pub fn app_name() -> (r: &'static str)
    ensures
        r@ == spec_app_name(),
{
    "sensors-pub"
}

} // verus!

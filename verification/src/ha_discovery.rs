use vstd::prelude::*;
use vstd::string::StrSliceExecFns;
use vstd::string::StringExecFns;

use crate::config::ConfigDevice;
use crate::measure::SensorMeasureType;
use crate::spec_app_name;
use crate::app_name;

verus! {

/// What str::to_lowercase returns; the result depends on the input
/// characters alone.
pub uninterp spec fn lower_of(s: Seq<char>) -> Seq<char>;

/// Relies on str::to_lowercase: returns the lowercase equivalent of the
/// input, a function of the input characters alone.
#[verifier::external_body]
fn lowercase(s: &str) -> (r: String)
    ensures
        r@ == lower_of(s@),
{
    s.to_lowercase()
}

/// Relies on String::push: appends the character at the end of the string.
#[verifier::external_body]
fn push_char(s: &mut String, c: char)
    ensures
        final(s)@ == old(s)@.push(c),
{
    s.push(c);
}

/// Characters deleted outright from topic segments.
pub open spec fn is_deleted_char(c: char) -> bool {
    c == '(' || c == ')' || c == ',' || c == '"' || c == '\''
}

/// Characters replaced by an underscore: the broker's wildcard and separator
/// characters, and the shell-hostile star and backslash.
pub open spec fn is_underscored_char(c: char) -> bool {
    c == '#' || c == '+' || c == '*' || c == '\\' || c == '/'
}

/// What one character contributes to a sanitized topic segment.
pub open spec fn replace_special(c: char) -> Seq<char> {
    if is_deleted_char(c) {
        seq![]
    } else if is_underscored_char(c) {
        seq!['_']
    } else if c == ' ' {
        seq!['-']
    } else {
        seq![c]
    }
}

/// The replacement stage of sanitization, character by character.
pub open spec fn replace_specials(s: Seq<char>) -> Seq<char>
    decreases s.len(),
{
    if s.len() == 0 {
        seq![]
    } else {
        replace_special(s[0]) + replace_specials(s.drop_first())
    }
}

/// A sanitized topic segment: the lowercase equivalent of the input with
/// every special character deleted or replaced.
pub open spec fn spec_sanitize(s: Seq<char>) -> Seq<char> {
    replace_specials(lower_of(s))
}

proof fn lemma_replace_specials_snoc(s: Seq<char>, c: char)
    ensures
        replace_specials(s.push(c)) == replace_specials(s) + replace_special(c),
    decreases s.len(),
{
    if s.len() == 0 {
        let x = s.push(c);
        assert(x[0] == c);
        assert(x.drop_first() =~= Seq::<char>::empty());
        assert(replace_specials(x.drop_first()) =~= Seq::<char>::empty());
        assert(replace_specials(x) == replace_special(c) + replace_specials(x.drop_first()));
        assert(replace_specials(s) =~= Seq::<char>::empty());
        assert(replace_specials(x) =~= replace_specials(s) + replace_special(c));
    } else {
        assert(s.push(c)[0] == s[0]);
        assert(s.push(c).drop_first() =~= s.drop_first().push(c));
        lemma_replace_specials_snoc(s.drop_first(), c);
        assert(replace_special(s[0]) + (replace_specials(s.drop_first()) + replace_special(c))
            =~= (replace_special(s[0]) + replace_specials(s.drop_first())) + replace_special(c));
    }
}

/// No character of the replacement stage's output is itself deleted,
/// underscored or a space.
proof fn lemma_replace_specials_chars(s: Seq<char>)
    ensures
        forall|i: int|
            0 <= i < replace_specials(s).len() ==> {
                let c = #[trigger] replace_specials(s)[i];
                !is_deleted_char(c) && !is_underscored_char(c) && c != ' '
            },
    decreases s.len(),
{
    if s.len() > 0 {
        lemma_replace_specials_chars(s.drop_first());
        let head = replace_special(s[0]);
        let tail = replace_specials(s.drop_first());
        assert(replace_specials(s) == head + tail);
        assert forall|i: int|
            0 <= i < replace_specials(s).len() implies {
            let c = #[trigger] replace_specials(s)[i];
            !is_deleted_char(c) && !is_underscored_char(c) && c != ' '
        } by {
            if i < head.len() {
                assert(replace_specials(s)[i] == head[0]);
            } else {
                assert(replace_specials(s)[i] == tail[i - head.len()]);
            }
        }
    }
}

proof fn lemma_replace_specials_concat(a: Seq<char>, b: Seq<char>)
    ensures
        replace_specials(a + b) == replace_specials(a) + replace_specials(b),
    decreases a.len(),
{
    if a.len() == 0 {
        assert(a + b =~= b);
        assert(replace_specials(a) + replace_specials(b) =~= replace_specials(b));
    } else {
        assert((a + b)[0] == a[0]);
        assert((a + b).drop_first() =~= a.drop_first() + b);
        lemma_replace_specials_concat(a.drop_first(), b);
        assert(replace_special(a[0]) + (replace_specials(a.drop_first()) + replace_specials(b))
            =~= (replace_special(a[0]) + replace_specials(a.drop_first())) + replace_specials(b));
    }
}

/// The replacement stage is idempotent: its output contains no character it
/// would delete or replace.
pub proof fn lemma_replace_specials_idempotent(s: Seq<char>)
    ensures
        replace_specials(replace_specials(s)) == replace_specials(s),
    decreases s.len(),
{
    if s.len() > 0 {
        lemma_replace_specials_concat(replace_special(s[0]), replace_specials(s.drop_first()));
        lemma_replace_specials_idempotent(s.drop_first());
        let c = s[0];
        let rc = replace_special(c);
        if is_deleted_char(c) {
            assert(rc =~= Seq::<char>::empty());
            assert(replace_specials(rc) =~= rc);
        } else {
            assert(rc.len() == 1);
            let d = rc[0];
            assert(!is_deleted_char(d) && !is_underscored_char(d) && d != ' ');
            assert(rc.drop_first() =~= Seq::<char>::empty());
            assert(replace_specials(rc.drop_first()) =~= Seq::<char>::empty());
            assert(replace_specials(rc) == replace_special(d) + replace_specials(rc.drop_first()));
            assert(replace_specials(rc) =~= rc);
        }
        assert(replace_specials(replace_specials(s)) =~= replace_specials(s));
    }
}

/// Sanitization applied twice gives what one application gives, granted that
/// lowercasing leaves a sanitized string unchanged. Unicode lowercasing does
/// — its own output is lowercase, and the replacement stage only removes
/// characters or writes `_` and `-` — but that fact lies beyond what the
/// lowercasing wrapper states of `lower_of`, so here it is the hypothesis.
pub proof fn lemma_sanitize_idempotent(s: Seq<char>)
    ensures
        lower_of(spec_sanitize(s)) == spec_sanitize(s) ==> spec_sanitize(spec_sanitize(s))
            == spec_sanitize(s),
{
    if lower_of(spec_sanitize(s)) == spec_sanitize(s) {
        lemma_replace_specials_idempotent(lower_of(s));
    }
}

/// Make a string safe to embed unescaped in a single topic segment: lower
/// case; `( ) , " '` deleted; `# + * \ /` replaced by `_`; spaces replaced by
/// `-`. The result never contains the broker's `+`, `#` or `/` characters.
pub fn secure_mqtt_topic_name(string: &str) -> (r: String)
    ensures
        r@ == spec_sanitize(string@),
        forall|i: int|
            0 <= i < r@.len() ==> r@[i] != '+' && r@[i] != '#' && r@[i] != '/',
{
    let lowered = lowercase(string);
    let ls: &str = lowered.as_str();
    let n: usize = ls.unicode_len();
    let mut out = String::new();
    let mut i: usize = 0;
    while i < n
        invariant
            n as nat == ls@.len(),
            ls@ == lower_of(string@),
            i <= n,
            out@ == replace_specials(ls@.take(i as int)),
        decreases n - i,
    {
        let c = ls.get_char(i);
        proof {
            lemma_replace_specials_snoc(ls@.take(i as int), ls@[i as int]);
            assert(ls@.take(i as int).push(ls@[i as int]) =~= ls@.take(i as int + 1));
        }
        if c == '(' || c == ')' || c == ',' || c == '"' || c == '\'' {
            proof {
                assert(out@ =~= replace_specials(ls@.take(i as int + 1)));
            }
        } else if c == '#' || c == '+' || c == '*' || c == '\\' || c == '/' {
            push_char(&mut out, '_');
            proof {
                assert(out@ =~= replace_specials(ls@.take(i as int + 1)));
            }
        } else if c == ' ' {
            push_char(&mut out, '-');
            proof {
                assert(out@ =~= replace_specials(ls@.take(i as int + 1)));
            }
        } else {
            push_char(&mut out, c);
            proof {
                assert(out@ =~= replace_specials(ls@.take(i as int + 1)));
            }
        }
        i = i + 1;
    }
    proof {
        assert(ls@.take(n as int) =~= ls@);
        lemma_replace_specials_chars(ls@);
    }
    out
}

/// The message-bus address live readings for one sensor are published to.
pub open spec fn spec_state_topic(device_name: Seq<char>, sensor_id: Seq<char>) -> Seq<char> {
    spec_app_name() + "/"@ + spec_sanitize(device_name) + "/"@ + spec_sanitize(sensor_id)
        + "/state"@
}

/// The retained-config address a sensor's discovery document is published to.
pub open spec fn spec_discovery_topic(
    device_name: Seq<char>,
    sensor_id: Seq<char>,
    measure: SensorMeasureType,
) -> Seq<char> {
    "homeassistant/sensor/"@ + spec_app_name() + "_"@ + spec_sanitize(device_name) + "_"@
        + spec_sanitize(sensor_id) + "_"@ + spec_sanitize(measure.spec_name()) + "/config"@
}

pub open spec fn spec_unique_id(sensor_id: Seq<char>, measure: SensorMeasureType) -> Seq<char> {
    sensor_id + "_"@ + measure.spec_name_lowercase()
}

pub open spec fn spec_value_template(measure: SensorMeasureType) -> Seq<char> {
    "{{ value_json."@ + measure.spec_name_lowercase() + " }}"@
}

/// Device identity embedded in every discovery document.
#[derive(Debug, Clone, PartialEq)]
pub struct HADevice {
    pub name: String,
    pub manufacturer: String,
    pub model: String,
    pub identifiers: Vec<String>,
}

impl HADevice {
    pub fn new(device: &ConfigDevice) -> (r: Self)
        ensures
            r.name@ == device.name@,
            r.manufacturer@ == device.manufacturer@,
            r.model@ == device.model@,
            r.identifiers@.len() == 1,
            r.identifiers@[0]@ == device.name@,
    {
        Self {
            name: device.name.clone(),
            manufacturer: device.manufacturer.clone(),
            model: device.model.clone(),
            identifiers: vec![device.name.clone()],
        }
    }

    /// State topic for one sensor of this device.
    pub fn get_mqtt_state_topic(&self, sensor_name: &str) -> (r: String)
        ensures
            r@ == spec_state_topic(self.name@, sensor_name@),
    {
        let mut out = String::new();
        out.append(app_name());
        out.append("/");
        let device_segment = secure_mqtt_topic_name(self.name.as_str());
        out.append(device_segment.as_str());
        out.append("/");
        let sensor_segment = secure_mqtt_topic_name(sensor_name);
        out.append(sensor_segment.as_str());
        out.append("/state");
        proof {
            assert(out@ =~= spec_state_topic(self.name@, sensor_name@));
        }
        out
    }
}

/// The payload of a discovery document: the sensor's static metadata, where
/// its readings appear, and the identity of the device it belongs to.
#[derive(Debug, PartialEq)]
pub struct HASensor {
    pub name: String,
    pub device_class: String,
    pub state_class: String,
    pub unit_of_measurement: String,
    pub state_topic: String,
    pub unique_id: String,
    pub value_template: String,
    pub device: HADevice,
}

impl HASensor {
    /// All the fields a discovery payload must carry for one (measure type,
    /// sensor) pair of one device.
    pub open spec fn wf_for(
        &self,
        measure: SensorMeasureType,
        device: HADevice,
        sensor_id: Seq<char>,
    ) -> bool {
        &&& self.name@ == measure.spec_name()
        &&& self.device_class@ == measure.spec_device_class()
        &&& self.state_class@ == measure.spec_state_class()
        &&& self.unit_of_measurement@ == measure.spec_unit_of_measurement()
        &&& self.state_topic@ == spec_state_topic(device.name@, sensor_id)
        &&& self.unique_id@ == spec_unique_id(sensor_id, measure)
        &&& self.value_template@ == spec_value_template(measure)
        &&& self.device == device
    }

    pub fn new(measure: &SensorMeasureType, device: HADevice, sensor_id: &str) -> (r: Self)
        ensures
            r.wf_for(*measure, device, sensor_id@),
    {
        let state_topic = device.get_mqtt_state_topic(sensor_id);
        let mut unique_id = String::new();
        unique_id.append(sensor_id);
        unique_id.append("_");
        unique_id.append(measure.name_lowercase());
        let mut value_template = String::new();
        value_template.append("{{ value_json.");
        value_template.append(measure.name_lowercase());
        value_template.append(" }}");
        proof {
            assert(unique_id@ =~= spec_unique_id(sensor_id@, *measure));
            assert(value_template@ =~= spec_value_template(*measure));
        }
        Self {
            name: measure.name(),
            device_class: measure.device_class().to_owned(),
            state_class: measure.state_class().to_owned(),
            unit_of_measurement: measure.unit_of_measurement().to_owned(),
            state_topic,
            unique_id,
            value_template,
            device,
        }
    }
}

/// A discovery document: the retained control message describing one sensor,
/// and the topic it must be published to.
#[derive(Debug, PartialEq)]
pub struct HADiscovery {
    pub payload: HASensor,
    pub topic: String,
}

impl HADiscovery {
    pub fn new(measure: &SensorMeasureType, sensor_id: &str, device: HADevice) -> (r: Self)
        ensures
            r.payload.wf_for(*measure, device, sensor_id@),
            r.topic@ == spec_discovery_topic(device.name@, sensor_id@, *measure),
    {
        let sensor = HASensor::new(measure, device, sensor_id);
        let mut topic = String::new();
        topic.append("homeassistant/sensor/");
        topic.append(app_name());
        topic.append("_");
        let device_segment = secure_mqtt_topic_name(sensor.device.name.as_str());
        topic.append(device_segment.as_str());
        topic.append("_");
        let sensor_segment = secure_mqtt_topic_name(sensor_id);
        topic.append(sensor_segment.as_str());
        topic.append("_");
        let name = measure.name();
        let name_segment = secure_mqtt_topic_name(name.as_str());
        topic.append(name_segment.as_str());
        topic.append("/config");
        proof {
            assert(topic@ =~= spec_discovery_topic(sensor.device.name@, sensor_id@, *measure));
        }
        Self { payload: sensor, topic }
    }
}

} // verus!

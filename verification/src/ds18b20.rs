use vstd::prelude::*;
use vstd::string::StringSliceAdditionalSpecFns;

use crate::errors::SensorError;
use crate::measure::Measure;
use crate::measure::SensorMeasureType;

verus! {

/// A 1-Wire temperature probe exposed as a text file under the sysfs 1-Wire
/// bus, family code 0x28. The device file holds one line of decimal digits:
/// the temperature in milli-degrees Celsius.
pub struct Ds18b20 {
    measure_types: Vec<SensorMeasureType>,
    path: String,
}

pub struct Ds18b20Config {
    pub identifier: String,
}

pub open spec fn is_ascii_digit(b: u8) -> bool {
    48 <= b <= 57
}

/// Numeric value of a digit string, most significant digit first.
pub open spec fn digits_val(s: Seq<u8>) -> int
    decreases s.len(),
{
    if s.len() == 0 {
        0
    } else {
        digits_val(s.drop_last()) * 10 + (s.last() - 48)
    }
}

pub open spec fn all_digits(s: Seq<u8>) -> bool {
    forall|i: int| 0 <= i < s.len() ==> is_ascii_digit(#[trigger] s[i])
}

/// One trailing newline is tolerated and ignored.
pub open spec fn strip_newline(s: Seq<u8>) -> Seq<u8> {
    if s.len() > 0 && s.last() == 10 {
        s.drop_last()
    } else {
        s
    }
}

/// What parsing a reading means: after stripping one trailing newline, an
/// optional sign followed by at least one decimal digit, with the usual
/// value; anything else does not parse.
pub open spec fn spec_parse_milli(s: Seq<u8>) -> Option<int> {
    let t = strip_newline(s);
    let neg = t.len() > 0 && t[0] == 45;
    let signed = t.len() > 0 && (t[0] == 45 || t[0] == 43);
    let ds = if signed {
        t.drop_first()
    } else {
        t
    };
    if ds.len() > 0 && all_digits(ds) {
        if neg {
            Some(-digits_val(ds))
        } else {
            Some(digits_val(ds))
        }
    } else {
        None
    }
}

proof fn lemma_digits_val_nonneg(s: Seq<u8>)
    requires
        all_digits(s),
    ensures
        digits_val(s) >= 0,
    decreases s.len(),
{
    if s.len() > 0 {
        assert(all_digits(s.drop_last()));
        lemma_digits_val_nonneg(s.drop_last());
    }
}

/// A digit string is worth at least any of its prefixes.
proof fn lemma_digits_val_prefix_le(s: Seq<u8>, k: int)
    requires
        all_digits(s),
        0 <= k <= s.len(),
    ensures
        digits_val(s.take(k)) <= digits_val(s),
    decreases s.len() - k,
{
    if k < s.len() {
        lemma_digits_val_prefix_le(s, k + 1);
        assert(s.take(k + 1).drop_last() =~= s.take(k));
        assert(s.take(k + 1).last() == s[k]);
        assert(all_digits(s.take(k)));
        lemma_digits_val_nonneg(s.take(k));
        assert(digits_val(s.take(k + 1)) == digits_val(s.take(k)) * 10 + (s[k] - 48));
        assert(digits_val(s.take(k)) * 10 >= digits_val(s.take(k))) by (nonlinear_arith)
            requires digits_val(s.take(k)) >= 0;
    } else {
        assert(s.take(k) =~= s);
    }
}

/// Parse a decimal milli-degree reading.
///
/// Returns the parsed value exactly when `spec_parse_milli` yields one that a
/// 64-bit signed integer can hold; rejects everything else as a parse error.
pub fn parse_milli_degrees(bytes: &[u8]) -> (r: Result<i64, SensorError>)
    ensures
        ({
            let p = spec_parse_milli(bytes@);
            match r {
                Ok(v) => p == Some(v as int),
                Err(e) => e == SensorError::ParseError && (p is None || p->0 < i64::MIN || p->0
                    > i64::MAX),
            }
        }),
{
    let n0 = bytes.len();
    let end: usize = if n0 > 0 && bytes[n0 - 1] == 10 {
        n0 - 1
    } else {
        n0
    };
    proof {
        assert(strip_newline(bytes@) =~= bytes@.take(end as int));
    }
    let neg = end > 0 && bytes[0] == 45;
    let start: usize = if end > 0 && (bytes[0] == 45 || bytes[0] == 43) {
        1
    } else {
        0
    };
    let ghost ds = bytes@.subrange(start as int, end as int);
    proof {
        assert(ds =~= if start == 1 {
            bytes@.take(end as int).drop_first()
        } else {
            bytes@.take(end as int)
        });
    }
    if start >= end {
        // no digits at all
        return Err(SensorError::ParseError);
    }
    let limit: u64 = if neg {
        9223372036854775808
    } else {
        9223372036854775807
    };
    let mut acc: u64 = 0;
    let mut i: usize = start;
    while i < end
        invariant
            start <= i <= end,
            end <= bytes@.len(),
            start < end,
            ds == bytes@.subrange(start as int, end as int),
            acc <= limit,
            limit == if neg {
                9223372036854775808u64
            } else {
                9223372036854775807u64
            },
            all_digits(bytes@.subrange(start as int, i as int)),
            acc == digits_val(bytes@.subrange(start as int, i as int)),
            ({
                let p = spec_parse_milli(bytes@);
                p == if ds.len() > 0 && all_digits(ds) {
                    if neg {
                        Some(-digits_val(ds))
                    } else {
                        Some(digits_val(ds))
                    }
                } else {
                    None::<int>
                }
            }),
        decreases end - i,
    {
        let b = bytes[i];
        let ghost prefix = bytes@.subrange(start as int, i as int);
        let ghost prefix1 = bytes@.subrange(start as int, i as int + 1);
        proof {
            assert(prefix1.drop_last() =~= prefix);
            assert(prefix1.last() == bytes@[i as int]);
        }
        if b < 48 || b > 57 {
            proof {
                assert(ds[i - start] == bytes@[i as int]);
                assert(!all_digits(ds));
            }
            return Err(SensorError::ParseError);
        }
        let d = (b - 48) as u64;
        if acc > (limit - d) / 10 {
            // the value no longer fits in 64 bits; any digits that follow
            // only make it larger
            proof {
                assert(acc * 10 + d > limit) by (nonlinear_arith)
                    requires
                        acc > (limit - d) / 10,
                        d <= limit,
                        acc >= 0,
                ;
                assert(digits_val(prefix1) == acc * 10 + d);
                if all_digits(ds) {
                    assert(prefix1 =~= ds.take(i as int + 1 - start));
                    lemma_digits_val_prefix_le(ds, i as int + 1 - start);
                    assert(digits_val(ds) > limit);
                }
            }
            return Err(SensorError::ParseError);
        }
        proof {
            assert(acc * 10 + d <= limit) by (nonlinear_arith)
                requires
                    acc <= (limit - d) / 10,
                    d <= limit,
                    acc >= 0,
            ;
            assert(digits_val(prefix1) == acc * 10 + d);
        }
        acc = acc * 10 + d;
        i = i + 1;
    }
    proof {
        assert(bytes@.subrange(start as int, end as int) =~= ds);
    }
    if neg {
        if acc == 9223372036854775808 {
            Ok(i64::MIN)
        } else {
            Ok(-(acc as i64))
        }
    } else {
        Ok(acc as i64)
    }
}

/// Path of the sysfs node for a probe with the given identifier: the 1-Wire
/// family code 0x28 in hex, a dash, then the identifier.
pub open spec fn spec_device_path(identifier: Seq<char>) -> Seq<char> {
    "/sys/bus/w1/devices/28-"@ + identifier
}

impl Ds18b20 {
    pub closed spec fn spec_path(&self) -> Seq<char> {
        self.path@
    }

    pub closed spec fn spec_measure_types(&self) -> Seq<SensorMeasureType> {
        self.measure_types@
    }

    /// Build the sensor for a configured identifier. Whether the device file
    /// actually exists is the caller's concern; this computes where it must
    /// be.
    pub fn new(config: &Ds18b20Config) -> (r: Ds18b20)
        ensures
            r.spec_path() == spec_device_path(config.identifier@),
            r.spec_measure_types() == seq![SensorMeasureType::Temperature],
    {
        let mut measure_types: Vec<SensorMeasureType> = Vec::new();
        measure_types.push(SensorMeasureType::Temperature);
        let mut path = String::new();
        path.append("/sys/bus/w1/devices/28-");
        path.append(config.identifier.as_str());
        proof {
            assert(path@ =~= spec_device_path(config.identifier@));
            assert(measure_types@ =~= seq![SensorMeasureType::Temperature]);
        }
        Ds18b20 { measure_types, path }
    }

    /// Where the device file must live.
    pub fn path(&self) -> (r: &String)
        ensures
            r@ == self.spec_path(),
    {
        &self.path
    }

    /// Decode the full contents of the device file: a line of decimal
    /// milli-degrees, giving a temperature-only reading.
    pub fn measure_from(s: &str) -> (r: Result<Measure, SensorError>)
        ensures
            ({
                let p = spec_parse_milli(s.spec_bytes());
                match r {
                    Ok(m) => m.humidity is None && m.temperature is Some && p == Some(
                        m.temperature->0 as int,
                    ),
                    Err(e) => e == SensorError::ParseError && (p is None || p->0 < i64::MIN
                        || p->0 > i64::MAX),
                }
            }),
    {
        let bytes = s.as_bytes();
        match parse_milli_degrees(bytes) {
            Ok(v) => Ok(Measure { temperature: Some(v), humidity: None }),
            Err(e) => Err(e),
        }
    }

    pub fn measure_types(&self) -> (r: &Vec<SensorMeasureType>)
        ensures
            r@ == self.spec_measure_types(),
    {
        &self.measure_types
    }
}

} // verus!

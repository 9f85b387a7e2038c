//! Sensor templates: the static data of a sensor, and the conversion of its
//! stored value into an entry of the status document.

use crate::api::{
    copy_text, text_of, PeopleNowPresentSensor, PeopleNowPresentSensorView, SensorEntry,
    SensorEntryView, TemperatureSensor, TemperatureSensorView,
};
use vstd::prelude::*;

verus! {

/// Converts the raw value of one sensor, as the store holds it, into a typed
/// entry of the sensors section.
///
/// An implementation stands for one sensor of one kind. It must be a function:
/// the entry depends on the template and on the value alone.
pub trait SensorTemplate: Send + Sync {
    /// The entry that this template makes of `value`.
    spec fn converted(&self, value: Seq<char>) -> SensorEntryView;

    fn to_sensor(&self, value_str: &str) -> (entry: SensorEntry)
        ensures
            entry@ == self.converted(value_str@),
    ;
}

/// Whether `c` is one of the ten decimal digits.
pub open spec fn is_digit(c: char) -> bool {
    '0' <= c <= '9'
}

/// Whether `s` holds decimal digits and nothing else.
pub open spec fn all_digits(s: Seq<char>) -> bool {
    forall|i: int| 0 <= i < s.len() ==> is_digit(#[trigger] s[i])
}

/// The number that the digits of `s` spell in base ten.
pub open spec fn decimal(s: Seq<char>) -> nat
    decreases s.len(),
{
    if s.len() == 0 {
        0
    } else {
        (decimal(s.drop_last()) * 10 + (s.last() as nat - '0' as nat)) as nat
    }
}

/// The number of people that a stored value stands for: the number it spells,
/// where it is made of decimal digits, at least one, and the number fits 64
/// bits. Any other value counts as no one.
pub open spec fn people_count(value: Seq<char>) -> u64 {
    if value.len() > 0 && all_digits(value) && decimal(value) <= u64::MAX {
        decimal(value) as u64
    } else {
        0
    }
}

proof fn lemma_decimal_of_prefix(s: Seq<char>, n: int)
    requires
        0 <= n <= s.len(),
        all_digits(s),
    ensures
        decimal(s.take(n)) <= decimal(s),
    decreases s.len(),
{
    if n == s.len() {
        assert(s.take(n) == s);
    } else {
        assert(s.drop_last().take(n) == s.take(n));
        assert(is_digit(s.last()));
        lemma_decimal_of_prefix(s.drop_last(), n);
    }
}

fn parse_count(value: &str) -> (count: u64)
    ensures
        count == people_count(value@),
{
    let len = value.unicode_len();
    let mut count: u64 = 0;
    let mut i: usize = 0;
    while i < len
        invariant
            i <= len,
            len == value@.len(),
            all_digits(value@.take(i as int)),
            count == decimal(value@.take(i as int)),
        decreases len - i,
    {
        let c = value.get_char(i);
        let ghost prefix = value@.take(i + 1);
        assert(prefix.drop_last() == value@.take(i as int));
        assert(prefix.last() == c);
        if c < '0' || c > '9' {
            assert(!is_digit(value@[i as int]));
            return 0;
        }
        let digit: u64 = (c as u64) - ('0' as u64);
        if count > (u64::MAX - digit) / 10 {
            proof {
                assert(decimal(prefix) > u64::MAX);
                if all_digits(value@) {
                    lemma_decimal_of_prefix(value@, i + 1);
                }
            }
            return 0;
        }
        count = count * 10 + digit;
        assert(all_digits(prefix)) by {
            assert forall|k: int| 0 <= k < prefix.len() implies is_digit(#[trigger] prefix[k]) by {
                if k < i {
                    assert(prefix[k] == value@.take(i as int)[k]);
                }
            }
        }
        i += 1;
    }
    assert(value@.take(len as int) == value@);
    count
}

/// The static data of a sensor that counts the people in the space.
pub struct PeopleNowPresentSensorTemplate {
    pub location: Option<String>,
    pub name: Option<String>,
}

impl SensorTemplate for PeopleNowPresentSensorTemplate {
    open spec fn converted(&self, value: Seq<char>) -> SensorEntryView {
        SensorEntryView::PeopleNowPresent(
            PeopleNowPresentSensorView {
                location: text_of(self.location),
                name: text_of(self.name),
                value: people_count(value),
            },
        )
    }

    fn to_sensor(&self, value_str: &str) -> (entry: SensorEntry) {
        SensorEntry::PeopleNowPresent(
            PeopleNowPresentSensor {
                location: copy_text(&self.location),
                name: copy_text(&self.name),
                value: parse_count(value_str),
            },
        )
    }
}

/// The static data of a temperature sensor.
pub struct TemperatureSensorTemplate {
    pub unit: String,
    pub location: String,
    pub name: Option<String>,
}

impl SensorTemplate for TemperatureSensorTemplate {
    open spec fn converted(&self, value: Seq<char>) -> SensorEntryView {
        SensorEntryView::Temperature(
            TemperatureSensorView {
                unit: self.unit@,
                location: self.location@,
                name: text_of(self.name),
                value,
            },
        )
    }

    /// The entry holds the reading as the store's text, unchanged.
    fn to_sensor(&self, value_str: &str) -> (entry: SensorEntry) {
        SensorEntry::Temperature(
            TemperatureSensor {
                unit: self.unit.clone(),
                location: self.location.clone(),
                name: copy_text(&self.name),
                value: String::from_str(value_str),
            },
        )
    }
}

} // verus!

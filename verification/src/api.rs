//! The status document of a space, and the mathematical view of each of its
//! parts.

use vstd::prelude::*;

verus! {

/// Whether the space is open, and what it has to say about that.
#[derive(Debug, PartialEq, Eq)]
pub struct State {
    pub open: Option<bool>,
    pub message: Option<String>,
}

/// Ways to reach the people who run the space.
#[derive(Debug, PartialEq, Eq)]
pub struct Contact {
    pub irc: Option<String>,
    pub twitter: Option<String>,
    pub email: Option<String>,
}

/// How many people are in the space, or in one part of it.
#[derive(Debug, PartialEq, Eq)]
pub struct PeopleNowPresentSensor {
    pub location: Option<String>,
    pub name: Option<String>,
    pub value: u64,
}

/// A temperature reading. The reading is kept as decimal text.
#[derive(Debug, PartialEq, Eq)]
pub struct TemperatureSensor {
    pub unit: String,
    pub location: String,
    pub name: Option<String>,
    pub value: String,
}

/// The sensors section of a status document: one ordered list per sensor kind.
#[derive(Debug, PartialEq, Eq)]
pub struct Sensors {
    pub people_now_present: Vec<PeopleNowPresentSensor>,
    pub temperature: Vec<TemperatureSensor>,
}

/// A typed entry of the sensors section. The variant says which list it
/// belongs to.
#[derive(Debug, PartialEq, Eq)]
pub enum SensorEntry {
    PeopleNowPresent(PeopleNowPresentSensor),
    Temperature(TemperatureSensor),
}

/// The status document of a space.
#[derive(Debug, PartialEq, Eq)]
pub struct Status {
    pub space: String,
    pub url: String,
    pub address: Option<String>,
    pub contact: Contact,
    pub issue_report_channels: Vec<String>,
    pub state: State,
    pub sensors: Option<Sensors>,
}

/// The view of a [`State`]: its texts as sequences of characters.
pub struct StateView {
    pub open: Option<bool>,
    pub message: Option<Seq<char>>,
}

/// The view of a [`Contact`].
pub struct ContactView {
    pub irc: Option<Seq<char>>,
    pub twitter: Option<Seq<char>>,
    pub email: Option<Seq<char>>,
}

/// The view of a [`PeopleNowPresentSensor`].
pub struct PeopleNowPresentSensorView {
    pub location: Option<Seq<char>>,
    pub name: Option<Seq<char>>,
    pub value: u64,
}

/// The view of a [`TemperatureSensor`].
pub struct TemperatureSensorView {
    pub unit: Seq<char>,
    pub location: Seq<char>,
    pub name: Option<Seq<char>>,
    pub value: Seq<char>,
}

/// The view of a [`Sensors`] section: its two lists as sequences.
pub struct SensorsView {
    pub people_now_present: Seq<PeopleNowPresentSensorView>,
    pub temperature: Seq<TemperatureSensorView>,
}

/// The view of a [`SensorEntry`].
pub enum SensorEntryView {
    PeopleNowPresent(PeopleNowPresentSensorView),
    Temperature(TemperatureSensorView),
}

/// The view of a [`Status`] document.
pub struct StatusView {
    pub space: Seq<char>,
    pub url: Seq<char>,
    pub address: Option<Seq<char>>,
    pub contact: ContactView,
    pub issue_report_channels: Seq<Seq<char>>,
    pub state: StateView,
    pub sensors: Option<SensorsView>,
}

/// The characters of an optional string.
pub open spec fn text_of(s: Option<String>) -> Option<Seq<char>> {
    match s {
        Some(t) => Some(t@),
        None => None,
    }
}

impl View for State {
    type V = StateView;

    open spec fn view(&self) -> StateView {
        StateView { open: self.open, message: text_of(self.message) }
    }
}

impl View for Contact {
    type V = ContactView;

    open spec fn view(&self) -> ContactView {
        ContactView {
            irc: text_of(self.irc),
            twitter: text_of(self.twitter),
            email: text_of(self.email),
        }
    }
}

impl View for PeopleNowPresentSensor {
    type V = PeopleNowPresentSensorView;

    open spec fn view(&self) -> PeopleNowPresentSensorView {
        PeopleNowPresentSensorView {
            location: text_of(self.location),
            name: text_of(self.name),
            value: self.value,
        }
    }
}

impl View for TemperatureSensor {
    type V = TemperatureSensorView;

    open spec fn view(&self) -> TemperatureSensorView {
        TemperatureSensorView {
            unit: self.unit@,
            location: self.location@,
            name: text_of(self.name),
            value: self.value@,
        }
    }
}

impl View for Sensors {
    type V = SensorsView;

    open spec fn view(&self) -> SensorsView {
        SensorsView {
            people_now_present: self.people_now_present@.map_values(
                |s: PeopleNowPresentSensor| s@,
            ),
            temperature: self.temperature@.map_values(|s: TemperatureSensor| s@),
        }
    }
}

impl View for SensorEntry {
    type V = SensorEntryView;

    open spec fn view(&self) -> SensorEntryView {
        match self {
            SensorEntry::PeopleNowPresent(s) => SensorEntryView::PeopleNowPresent(s@),
            SensorEntry::Temperature(s) => SensorEntryView::Temperature(s@),
        }
    }
}

/// The sensors section of an optional exec value.
pub open spec fn sensors_of(s: Option<Sensors>) -> Option<SensorsView> {
    match s {
        Some(t) => Some(t@),
        None => None,
    }
}

impl View for Status {
    type V = StatusView;

    open spec fn view(&self) -> StatusView {
        StatusView {
            space: self.space@,
            url: self.url@,
            address: text_of(self.address),
            contact: self.contact@,
            issue_report_channels: self.issue_report_channels@.map_values(|s: String| s@),
            state: self.state@,
            sensors: sensors_of(self.sensors),
        }
    }
}

impl SensorsView {
    /// A sensors section with both lists empty.
    pub open spec fn empty() -> SensorsView {
        SensorsView { people_now_present: Seq::empty(), temperature: Seq::empty() }
    }

    /// This section with `entry` appended to the list of its kind.
    pub open spec fn with_entry(self, entry: SensorEntryView) -> SensorsView {
        match entry {
            SensorEntryView::PeopleNowPresent(s) => SensorsView {
                people_now_present: self.people_now_present.push(s),
                temperature: self.temperature,
            },
            SensorEntryView::Temperature(s) => SensorsView {
                people_now_present: self.people_now_present,
                temperature: self.temperature.push(s),
            },
        }
    }
}

impl Sensors {
    /// A sensors section without entries.
    pub fn new() -> (res: Sensors)
        ensures
            res@ == SensorsView::empty(),
    {
        let res = Sensors { people_now_present: Vec::new(), temperature: Vec::new() };
        assert(res@.people_now_present =~= Seq::empty());
        assert(res@.temperature =~= Seq::empty());
        res
    }

    /// Appends `entry` to the list of its kind.
    pub fn push_entry(&mut self, entry: SensorEntry)
        ensures
            final(self)@ == old(self)@.with_entry(entry@),
    {
        match entry {
            SensorEntry::PeopleNowPresent(sensor) => {
                self.people_now_present.push(sensor);
                assert(self@.people_now_present =~= old(self)@.people_now_present.push(sensor@));
            },
            SensorEntry::Temperature(sensor) => {
                self.temperature.push(sensor);
                assert(self@.temperature =~= old(self)@.temperature.push(sensor@));
            },
        }
    }
}

impl StatusView {
    /// This document with `entry` in its sensors section. A document without
    /// a sensors section gets one.
    pub open spec fn with_sensor(self, entry: SensorEntryView) -> StatusView {
        let sensors = match self.sensors {
            Some(sensors) => sensors,
            None => SensorsView::empty(),
        };
        StatusView { sensors: Some(sensors.with_entry(entry)), ..self }
    }
}

pub(crate) fn copy_text(s: &Option<String>) -> (res: Option<String>)
    ensures
        res == *s,
{
    match s {
        Some(t) => Some(t.clone()),
        None => None,
    }
}

fn copy_texts(v: &Vec<String>) -> (res: Vec<String>)
    ensures
        res@ == v@,
{
    let mut res: Vec<String> = Vec::new();
    let mut i: usize = 0;
    while i < v.len()
        invariant
            i <= v.len(),
            res@ == v@.take(i as int),
        decreases v.len() - i,
    {
        res.push(v[i].clone());
        assert(v@.take(i + 1) == v@.take(i as int).push(v@[i as int]));
        i += 1;
    }
    assert(v@.take(v.len() as int) == v@);
    res
}

impl Clone for State {
    fn clone(&self) -> (res: Self)
        ensures
            res@ == self@,
    {
        State { open: self.open, message: copy_text(&self.message) }
    }
}

impl Clone for Contact {
    fn clone(&self) -> (res: Self)
        ensures
            res@ == self@,
    {
        Contact {
            irc: copy_text(&self.irc),
            twitter: copy_text(&self.twitter),
            email: copy_text(&self.email),
        }
    }
}

impl Clone for PeopleNowPresentSensor {
    fn clone(&self) -> (res: Self)
        ensures
            res@ == self@,
    {
        PeopleNowPresentSensor {
            location: copy_text(&self.location),
            name: copy_text(&self.name),
            value: self.value,
        }
    }
}

impl Clone for TemperatureSensor {
    fn clone(&self) -> (res: Self)
        ensures
            res@ == self@,
    {
        TemperatureSensor {
            unit: self.unit.clone(),
            location: self.location.clone(),
            name: copy_text(&self.name),
            value: self.value.clone(),
        }
    }
}

impl Clone for Sensors {
    fn clone(&self) -> (res: Self)
        ensures
            res@ == self@,
    {
        let mut people: Vec<PeopleNowPresentSensor> = Vec::new();
        let mut i: usize = 0;
        while i < self.people_now_present.len()
            invariant
                i <= self.people_now_present.len(),
                people@.len() == i,
                forall|k: int| 0 <= k < i ==> people@[k]@ == self.people_now_present@[k]@,
            decreases self.people_now_present.len() - i,
        {
            people.push(self.people_now_present[i].clone());
            i += 1;
        }
        let mut temperature: Vec<TemperatureSensor> = Vec::new();
        let mut j: usize = 0;
        while j < self.temperature.len()
            invariant
                j <= self.temperature.len(),
                temperature@.len() == j,
                forall|k: int| 0 <= k < j ==> temperature@[k]@ == self.temperature@[k]@,
            decreases self.temperature.len() - j,
        {
            temperature.push(self.temperature[j].clone());
            j += 1;
        }
        let res = Sensors { people_now_present: people, temperature };
        assert(res@.people_now_present =~= self@.people_now_present);
        assert(res@.temperature =~= self@.temperature);
        res
    }
}

fn copy_sensors(s: &Option<Sensors>) -> (res: Option<Sensors>)
    ensures
        sensors_of(res) == sensors_of(*s),
{
    match s {
        Some(t) => Some(t.clone()),
        None => None,
    }
}

impl Clone for Status {
    /// A deep copy: the copy shares nothing with the document it is made of.
    fn clone(&self) -> (res: Self)
        ensures
            res@ == self@,
    {
        Status {
            space: self.space.clone(),
            url: self.url.clone(),
            address: copy_text(&self.address),
            contact: self.contact.clone(),
            issue_report_channels: copy_texts(&self.issue_report_channels),
            state: self.state.clone(),
            sensors: copy_sensors(&self.sensors),
        }
    }
}

} // verus!

//! What holds of the handlers' answers, whatever the registry, the document
//! and the store's answers are.

use crate::api::{SensorEntryView, SensorsView, StatusView};
use crate::modifiers::{lemma_two_modifiers_in_order, StatusModifier};
use crate::sensors::{
    is_registered, outcome_for, stored_value, ReadingView, SensorError, SensorSpec, StoreError,
};
use crate::server::handlers::{
    assembled, omissions, people_among, read_entries, temperatures_among, update_conclusion,
    update_decision, OmissionView, ReadHandler, UpdateStepView,
};
use crate::server::response::{error_response, response_with, BodyView, StatusCode};
use vstd::prelude::*;

verus! {

/// The number of sensors of `specs` whose value could be read.
pub open spec fn sensors_read(specs: Seq<SensorSpec>, readings: Seq<ReadingView>) -> nat
    decreases specs.len(),
{
    if specs.len() == 0 {
        0
    } else {
        let before = sensors_read(specs.drop_last(), readings);
        if stored_value(readings, specs.last().data_key@) is Ok {
            before + 1
        } else {
            before
        }
    }
}

/// The sensors section that a document starts from: its own, or an empty one.
pub open spec fn given_sensors(status: StatusView) -> SensorsView {
    match status.sensors {
        Some(sensors) => sensors,
        None => SensorsView::empty(),
    }
}

/// Going through the registry sensor by sensor, a sensor whose value could be
/// read adds one entry, the one its template makes of the value, and is not
/// listed as left out. A sensor whose value could not be read adds no entry,
/// and is listed as left out with its key and the error that was met.
pub proof fn lemma_entries_sensor_by_sensor(
    specs: Seq<SensorSpec>,
    readings: Seq<ReadingView>,
    i: int,
)
    requires
        0 <= i < specs.len(),
    ensures
        read_entries(specs.take(i + 1), readings) == match stored_value(
            readings,
            specs[i].data_key@,
        ) {
            Ok(value) => read_entries(specs.take(i), readings).push(
                specs[i].template.converted(value),
            ),
            Err(_) => read_entries(specs.take(i), readings),
        },
        omissions(specs.take(i + 1), readings) == match stored_value(
            readings,
            specs[i].data_key@,
        ) {
            Ok(_) => omissions(specs.take(i), readings),
            Err(error) => omissions(specs.take(i), readings).push(
                OmissionView { data_key: specs[i].data_key@, error },
            ),
        },
        sensors_read(specs.take(i + 1), readings) == sensors_read(specs.take(i), readings) + (
        if stored_value(readings, specs[i].data_key@) is Ok {
            1nat
        } else {
            0nat
        }),
{
    assert(specs.take(i + 1).drop_last() == specs.take(i));
    assert(specs.take(i + 1).last() == specs[i]);
}

/// The entries of the first `n` sensors are the first entries of all.
pub proof fn lemma_entries_of_first_sensors(
    specs: Seq<SensorSpec>,
    readings: Seq<ReadingView>,
    n: int,
)
    requires
        0 <= n <= specs.len(),
    ensures
        read_entries(specs.take(n), readings).is_prefix_of(read_entries(specs, readings)),
    decreases specs.len(),
{
    if n == specs.len() {
        assert(specs.take(n) == specs);
    } else {
        assert(specs.drop_last().take(n) == specs.take(n));
        lemma_entries_of_first_sensors(specs.drop_last(), readings, n);
    }
}

/// Each entry goes to one of the two lists, and there it stands behind the
/// entries of its kind that came before it.
pub proof fn lemma_entry_in_the_list_of_its_kind(entries: Seq<SensorEntryView>, p: int)
    requires
        0 <= p < entries.len(),
    ensures
        people_among(entries).len() + temperatures_among(entries).len() == entries.len(),
        match entries[p] {
            SensorEntryView::PeopleNowPresent(sensor) => {
                &&& people_among(entries.take(p)).len() < people_among(entries).len()
                &&& people_among(entries)[people_among(entries.take(p)).len() as int] == sensor
            },
            SensorEntryView::Temperature(sensor) => {
                &&& temperatures_among(entries.take(p)).len() < temperatures_among(entries).len()
                &&& temperatures_among(entries)[temperatures_among(entries.take(p)).len() as int]
                    == sensor
            },
        },
    decreases entries.len(),
{
    lemma_entries_split(entries);
    if p == entries.len() - 1 {
        assert(entries.take(p) == entries.drop_last());
    } else {
        assert(entries.drop_last().take(p) == entries.take(p));
        assert(entries.drop_last()[p] == entries[p]);
        lemma_entry_in_the_list_of_its_kind(entries.drop_last(), p);
    }
}

/// The two lists take up all the entries between them.
pub proof fn lemma_entries_split(entries: Seq<SensorEntryView>)
    ensures
        people_among(entries).len() + temperatures_among(entries).len() == entries.len(),
    decreases entries.len(),
{
    if entries.len() > 0 {
        lemma_entries_split(entries.drop_last());
    }
}

/// As many entries are made as sensors could be read.
pub proof fn lemma_one_entry_for_each_sensor_read(
    specs: Seq<SensorSpec>,
    readings: Seq<ReadingView>,
)
    ensures
        read_entries(specs, readings).len() == sensors_read(specs, readings),
    decreases specs.len(),
{
    if specs.len() > 0 {
        lemma_one_entry_for_each_sensor_read(specs.drop_last(), readings);
    }
}

/// Every sensor is either read or left out.
pub proof fn lemma_sensor_is_read_or_omitted(specs: Seq<SensorSpec>, readings: Seq<ReadingView>)
    ensures
        sensors_read(specs, readings) + omissions(specs, readings).len() == specs.len(),
    decreases specs.len(),
{
    if specs.len() > 0 {
        lemma_sensor_is_read_or_omitted(specs.drop_last(), readings);
    }
}

/// Some sensor could be read exactly if the number of sensors read is not
/// zero.
pub proof fn lemma_some_sensor_read(specs: Seq<SensorSpec>, readings: Seq<ReadingView>)
    ensures
        sensors_read(specs, readings) > 0 <==> exists|i: int|
            0 <= i < specs.len() && stored_value(readings, (#[trigger] specs[i]).data_key@) is Ok,
    decreases specs.len(),
{
    if specs.len() > 0 {
        let front = specs.drop_last();
        lemma_some_sensor_read(front, readings);
        if sensors_read(specs, readings) > 0 {
            if stored_value(readings, specs.last().data_key@) is Ok {
                assert(stored_value(readings, specs[specs.len() - 1].data_key@) is Ok);
            } else {
                let i = choose|i: int|
                    0 <= i < front.len() && stored_value(
                        readings,
                        (#[trigger] front[i]).data_key@,
                    ) is Ok;
                assert(stored_value(readings, specs[i].data_key@) is Ok);
            }
        }
        if exists|i: int|
            0 <= i < specs.len() && stored_value(readings, (#[trigger] specs[i]).data_key@) is Ok {
            let i = choose|i: int|
                0 <= i < specs.len() && stored_value(
                    readings,
                    (#[trigger] specs[i]).data_key@,
                ) is Ok;
            if i < front.len() {
                assert(stored_value(readings, front[i].data_key@) is Ok);
            }
        }
    }
}

/// A sensor whose value could be read has its entry in the assembled
/// document: the entry that its template makes of the value, in the list of
/// the entry's kind, behind the entries that the document had from the start
/// and those of the sensors registered before it.
pub proof fn lemma_sensor_read_has_its_entry(
    status: StatusView,
    specs: Seq<SensorSpec>,
    readings: Seq<ReadingView>,
    i: int,
)
    requires
        0 <= i < specs.len(),
        stored_value(readings, specs[i].data_key@) is Ok,
    ensures
        ({
            let value = stored_value(readings, specs[i].data_key@)->Ok_0;
            let earlier = read_entries(specs.take(i), readings);
            let given = given_sensors(status);
            let document = assembled(status, specs, readings);
            &&& document.sensors is Some
            &&& match specs[i].template.converted(value) {
                SensorEntryView::PeopleNowPresent(sensor) => {
                    let place = given.people_now_present.len() + people_among(earlier).len();
                    &&& place < document.sensors->0.people_now_present.len()
                    &&& document.sensors->0.people_now_present[place as int] == sensor
                },
                SensorEntryView::Temperature(sensor) => {
                    let place = given.temperature.len() + temperatures_among(earlier).len();
                    &&& place < document.sensors->0.temperature.len()
                    &&& document.sensors->0.temperature[place as int] == sensor
                },
            }
        }),
{
    let entries = read_entries(specs, readings);
    let earlier = read_entries(specs.take(i), readings);
    lemma_entries_sensor_by_sensor(specs, readings, i);
    lemma_entries_of_first_sensors(specs, readings, i);
    lemma_entries_of_first_sensors(specs, readings, i + 1);
    let p = earlier.len() as int;
    assert(read_entries(specs.take(i + 1), readings)[p] == entries[p]);
    assert(entries.take(p) == earlier);
    lemma_entry_in_the_list_of_its_kind(entries, p);
}

/// The assembled document holds what the static document held and, for each
/// sensor that could be read, one entry more: its two lists grow by as many
/// entries as sensors could be read.
pub proof fn lemma_lists_grow_by_the_sensors_read(
    status: StatusView,
    specs: Seq<SensorSpec>,
    readings: Seq<ReadingView>,
)
    ensures
        ({
            let given = given_sensors(status);
            let grown = given_sensors(assembled(status, specs, readings));
            &&& given.people_now_present.is_prefix_of(grown.people_now_present)
            &&& given.temperature.is_prefix_of(grown.temperature)
            &&& grown.people_now_present.len() + grown.temperature.len()
                == given.people_now_present.len() + given.temperature.len() + sensors_read(
                specs,
                readings,
            )
        }),
{
    lemma_one_entry_for_each_sensor_read(specs, readings);
    lemma_entries_split(read_entries(specs, readings));
}

/// A static document without a sensors section gets one exactly if the value
/// of at least one sensor could be read.
pub proof fn lemma_sensors_section_when_a_sensor_is_read(
    status: StatusView,
    specs: Seq<SensorSpec>,
    readings: Seq<ReadingView>,
)
    requires
        status.sensors is None,
    ensures
        assembled(status, specs, readings).sensors is Some <==> exists|i: int|
            0 <= i < specs.len() && stored_value(readings, (#[trigger] specs[i]).data_key@) is Ok,
{
    lemma_one_entry_for_each_sensor_read(specs, readings);
    lemma_some_sensor_read(specs, readings);
}

/// Where no sensor could be read, the assembled document is the static
/// document.
pub proof fn lemma_nothing_read_nothing_added(
    status: StatusView,
    specs: Seq<SensorSpec>,
    readings: Seq<ReadingView>,
)
    requires
        forall|i: int|
            0 <= i < specs.len() ==> stored_value(readings, (#[trigger] specs[i]).data_key@) is Err,
    ensures
        assembled(status, specs, readings) == status,
{
    lemma_one_entry_for_each_sensor_read(specs, readings);
    lemma_some_sensor_read(specs, readings);
}

/// With two modifiers registered, the document of a read request is what the
/// second modifier makes of what the first made of the assembled document.
pub proof fn lemma_document_of_two_modifiers(handler: ReadHandler, readings: Seq<ReadingView>)
    requires
        handler.status_modifiers().len() == 2,
    ensures
        handler.document(readings) == handler.status_modifiers()[1].modified(
            handler.status_modifiers()[0].modified(
                assembled(handler.status(), handler.sensor_specs(), readings),
            ),
        ),
{
    lemma_two_modifiers_in_order(
        handler.status_modifiers(),
        assembled(handler.status(), handler.sensor_specs(), readings),
    );
}

/// A value that the store holds under a key is read back as it is.
pub proof fn lemma_value_stored_is_value_read(
    readings: Seq<ReadingView>,
    key: Seq<char>,
    value: Seq<char>,
)
    requires
        outcome_for(readings, key) == Some(Ok::<Seq<char>, StoreError>(value)),
    ensures
        stored_value(readings, key) == Ok::<Seq<char>, SensorError>(value),
{
}

/// An update with exactly one value for a registered sensor asks the store to
/// hold that value under the sensor's key, and succeeds when the store has
/// done so. A read request that then finds the value in the store has the
/// entry that the sensor's template makes of it.
pub proof fn lemma_update_shows_in_the_next_read(
    specs: Seq<SensorSpec>,
    i: int,
    value: Seq<char>,
    status: StatusView,
    readings: Seq<ReadingView>,
)
    requires
        0 <= i < specs.len(),
        outcome_for(readings, specs[i].data_key@) == Some(Ok::<Seq<char>, StoreError>(value)),
    ensures
        update_decision(specs, specs[i].data_key@, seq![value]) == (UpdateStepView::Store {
            key: specs[i].data_key@,
            value,
        }),
        update_conclusion(Ok(())) == response_with(StatusCode::NoContent, BodyView::Empty),
        read_entries(specs.take(i + 1), readings) == read_entries(specs.take(i), readings).push(
            specs[i].template.converted(value),
        ),
        read_entries(specs.take(i + 1), readings).is_prefix_of(read_entries(specs, readings)),
{
    assert(is_registered(specs, specs[i].data_key@));
    lemma_entries_sensor_by_sensor(specs, readings, i);
    lemma_entries_of_first_sensors(specs, readings, i + 1);
}

/// An update that does not come with exactly one value is the client's
/// fault, and nothing is written.
pub proof fn lemma_update_needs_one_value(
    specs: Seq<SensorSpec>,
    sensor: Seq<char>,
    values: Seq<Seq<char>>,
)
    requires
        values.len() != 1,
    ensures
        update_decision(specs, sensor, values) == UpdateStepView::Respond(
            error_response(
                StatusCode::BadRequest,
                if values.len() == 0 {
                    "\"value\" parameter not specified"@
                } else {
                    "Too many values specified"@
                },
            ),
        ),
{
}

/// An update with one value for an identifier that no sensor is registered
/// under is the client's fault, and nothing is written.
pub proof fn lemma_update_of_unknown_sensor(
    specs: Seq<SensorSpec>,
    sensor: Seq<char>,
    values: Seq<Seq<char>>,
)
    requires
        values.len() == 1,
        !is_registered(specs, sensor),
    ensures
        update_decision(specs, sensor, values) == UpdateStepView::Respond(
            error_response(StatusCode::BadRequest, "Unknown sensor: "@ + sensor),
        ),
{
}

} // verus!

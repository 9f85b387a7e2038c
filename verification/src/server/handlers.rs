//! Handlers for the two kinds of request: reading the status document and
//! updating the value of one sensor.
//!
//! A handler decides; it does not talk to the store or to the network. The
//! read handler is given what the store answered for the sensors' keys. The
//! update handler says which write the store is to carry out, and is told
//! afterwards how that went.

use crate::api::{
    PeopleNowPresentSensorView, SensorEntryView, Sensors, SensorsView, Status, StatusView,
    TemperatureSensorView,
};
use crate::modifiers::{modified_by, StatusModifier};
use crate::sensors::{
    is_registered, readings_view, store_failure, stored_value, Reading, ReadingView,
    SafeSensorSpecs, SensorError, SensorSpec, StoreError, WriteCommand,
};
use crate::server::response::{
    error_response, response_with, Body, BodyView, ErrorResponse, Response, ResponseView,
    StatusCode,
};
use vstd::prelude::*;

verus! {

/// A sensor that was left out of the document, and why.
#[derive(Debug, PartialEq, Eq)]
pub struct Omission {
    pub data_key: String,
    pub error: SensorError,
}

/// The view of an [`Omission`].
pub struct OmissionView {
    pub data_key: Seq<char>,
    pub error: SensorError,
}

impl View for Omission {
    type V = OmissionView;

    open spec fn view(&self) -> OmissionView {
        OmissionView { data_key: self.data_key@, error: self.error }
    }
}

/// The views of a list of omissions.
pub open spec fn omissions_view(omitted: Seq<Omission>) -> Seq<OmissionView> {
    omitted.map_values(|o: Omission| o@)
}

/// The entries that the sensors of `specs` contribute, in the order of
/// `specs`: one for each sensor whose value could be read, made by its
/// template, and none for the others.
pub open spec fn read_entries(specs: Seq<SensorSpec>, readings: Seq<ReadingView>) -> Seq<
    SensorEntryView,
>
    decreases specs.len(),
{
    if specs.len() == 0 {
        Seq::empty()
    } else {
        let before = read_entries(specs.drop_last(), readings);
        match stored_value(readings, specs.last().data_key@) {
            Ok(value) => before.push(specs.last().template.converted(value)),
            Err(_) => before,
        }
    }
}

/// The sensors of `specs` whose value could not be read, in the order of
/// `specs`, each with the error that was met.
pub open spec fn omissions(specs: Seq<SensorSpec>, readings: Seq<ReadingView>) -> Seq<
    OmissionView,
>
    decreases specs.len(),
{
    if specs.len() == 0 {
        Seq::empty()
    } else {
        let before = omissions(specs.drop_last(), readings);
        match stored_value(readings, specs.last().data_key@) {
            Ok(_) => before,
            Err(error) => before.push(OmissionView { data_key: specs.last().data_key@, error }),
        }
    }
}

/// The people-now-present entries among `entries`, in their order.
pub open spec fn people_among(entries: Seq<SensorEntryView>) -> Seq<PeopleNowPresentSensorView>
    decreases entries.len(),
{
    if entries.len() == 0 {
        Seq::empty()
    } else {
        let before = people_among(entries.drop_last());
        match entries.last() {
            SensorEntryView::PeopleNowPresent(sensor) => before.push(sensor),
            SensorEntryView::Temperature(_) => before,
        }
    }
}

/// The temperature entries among `entries`, in their order.
pub open spec fn temperatures_among(entries: Seq<SensorEntryView>) -> Seq<TemperatureSensorView>
    decreases entries.len(),
{
    if entries.len() == 0 {
        Seq::empty()
    } else {
        let before = temperatures_among(entries.drop_last());
        match entries.last() {
            SensorEntryView::PeopleNowPresent(_) => before,
            SensorEntryView::Temperature(sensor) => before.push(sensor),
        }
    }
}

/// The document `status` with `entries` added to its sensors section, each at
/// the end of the list of its kind. Without entries the document stays as it
/// is: a sensors section is made only when there is something to put in it.
pub open spec fn with_entries(status: StatusView, entries: Seq<SensorEntryView>) -> StatusView {
    if entries.len() == 0 {
        status
    } else {
        let sensors = match status.sensors {
            Some(sensors) => sensors,
            None => SensorsView::empty(),
        };
        StatusView {
            sensors: Some(
                SensorsView {
                    people_now_present: sensors.people_now_present + people_among(entries),
                    temperature: sensors.temperature + temperatures_among(entries),
                },
            ),
            ..status
        }
    }
}

/// The status document before any modifier has seen it: the static document
/// with the entries of the sensors that could be read.
pub open spec fn assembled(
    status: StatusView,
    specs: Seq<SensorSpec>,
    readings: Seq<ReadingView>,
) -> StatusView {
    with_entries(status, read_entries(specs, readings))
}

proof fn lemma_with_one_more_entry(
    status: StatusView,
    entries: Seq<SensorEntryView>,
    entry: SensorEntryView,
)
    ensures
        with_entries(status, entries.push(entry)) == with_entries(status, entries).with_sensor(
            entry,
        ),
{
    let more = entries.push(entry);
    assert(more.drop_last() == entries);
    let sensors = match status.sensors {
        Some(sensors) => sensors,
        None => SensorsView::empty(),
    };
    let lhs = with_entries(status, more).sensors->0;
    let rhs = with_entries(status, entries).with_sensor(entry).sensors->0;
    assert(lhs.people_now_present =~= rhs.people_now_present);
    assert(lhs.temperature =~= rhs.temperature);
}

/// What became of a request to read the status document.
#[derive(Debug, PartialEq, Eq)]
pub struct ReadOutcome {
    pub response: Response,
    /// The sensors that the document lacks because their value could not be
    /// read, for the diagnostics of whoever runs the server.
    pub omitted: Vec<Omission>,
}

/// Answers the requests that read the status document.
///
/// It holds the static document, the registry of sensors and the chain of
/// modifiers. None of them changes once the handler is made, so one handler
/// serves concurrent requests.
pub struct ReadHandler {
    status: Status,
    sensor_specs: SafeSensorSpecs,
    status_modifiers: Vec<Box<dyn StatusModifier>>,
}

impl ReadHandler {
    /// The static document that every response starts from.
    pub closed spec fn status(&self) -> StatusView {
        self.status@
    }

    /// The registered sensors, in the order of their registration.
    pub closed spec fn sensor_specs(&self) -> Seq<SensorSpec> {
        self.sensor_specs@
    }

    /// The registered modifiers, in the order of their registration.
    pub closed spec fn status_modifiers(&self) -> Seq<Box<dyn StatusModifier>> {
        self.status_modifiers@
    }

    /// The document that answers a read request, given what the store
    /// answered for the sensors' keys.
    pub open spec fn document(&self, readings: Seq<ReadingView>) -> StatusView {
        modified_by(
            self.status_modifiers(),
            assembled(self.status(), self.sensor_specs(), readings),
        )
    }

    pub fn new(
        status: Status,
        sensor_specs: SafeSensorSpecs,
        status_modifiers: Vec<Box<dyn StatusModifier>>,
    ) -> (handler: ReadHandler)
        ensures
            handler.status() == status@,
            handler.sensor_specs() == sensor_specs@,
            handler.status_modifiers() == status_modifiers@,
    {
        ReadHandler { status, sensor_specs, status_modifiers }
    }

    /// The keys whose values a read request needs from the store, in the
    /// order of the registry.
    pub fn sensor_keys(&self) -> (keys: Vec<String>)
        ensures
            keys@.len() == self.sensor_specs().len(),
            forall|i: int|
                0 <= i < keys@.len() ==> (#[trigger] keys@[i])@ == self.sensor_specs()[i].data_key@,
    {
        let mut keys: Vec<String> = Vec::new();
        let mut i: usize = 0;
        while i < self.sensor_specs.len()
            invariant
                i <= self.sensor_specs@.len(),
                keys@.len() == i,
                forall|k: int|
                    0 <= k < i ==> (#[trigger] keys@[k])@ == self.sensor_specs@[k].data_key@,
            decreases self.sensor_specs@.len() - i,
        {
            keys.push(self.sensor_specs[i].data_key.clone());
            i += 1;
        }
        keys
    }

    fn build_response_document(&self, readings: &Vec<Reading>) -> (res: (Status, Vec<Omission>))
        ensures
            res.0@ == self.document(readings_view(readings@)),
            omissions_view(res.1@) == omissions(self.sensor_specs(), readings_view(readings@)),
    {
        let ghost answers = readings_view(readings@);
        let ghost specs = self.sensor_specs@;

        // Create a mutable copy of the status struct
        let mut status_copy = self.status.clone();
        let mut omitted: Vec<Omission> = Vec::new();

        // Process registered sensors
        let mut i: usize = 0;
        assert(omissions_view(omitted@) =~= omissions(specs.take(0), answers));
        while i < self.sensor_specs.len()
            invariant
                i <= specs.len(),
                specs == self.sensor_specs@,
                answers == readings_view(readings@),
                status_copy@ == with_entries(self.status@, read_entries(specs.take(i as int), answers)),
                omissions_view(omitted@) == omissions(specs.take(i as int), answers),
            decreases specs.len() - i,
        {
            let sensor_spec = &self.sensor_specs[i];
            proof {
                assert(specs.take(i + 1).drop_last() == specs.take(i as int));
                assert(specs.take(i + 1).last() == specs[i as int]);
            }
            match sensor_spec.get_sensor_value(readings) {
                // Value could be read successfully
                Ok(value) => {
                    if status_copy.sensors.is_none() {
                        status_copy.sensors = Some(Sensors::new());
                    }
                    let entry = sensor_spec.template.to_sensor(value.as_str());
                    match &mut status_copy.sensors {
                        Some(sensors) => sensors.push_entry(entry),
                        None => {},
                    }
                    proof {
                        lemma_with_one_more_entry(
                            self.status@,
                            read_entries(specs.take(i as int), answers),
                            entry@,
                        );
                    }
                },
                // Value could not be read: the sensor is left out
                Err(err) => {
                    let ghost before = omitted@;
                    let omission = Omission { data_key: sensor_spec.data_key.clone(), error: err };
                    omitted.push(omission);
                    assert(omissions_view(omitted@) =~= omissions_view(before).push(omission@));
                },
            }
            i += 1;
        }
        assert(specs.take(specs.len() as int) == specs);

        let mut j: usize = 0;
        let ghost filled = status_copy@;
        while j < self.status_modifiers.len()
            invariant
                j <= self.status_modifiers@.len(),
                status_copy@ == modified_by(self.status_modifiers@.take(j as int), filled),
            decreases self.status_modifiers@.len() - j,
        {
            self.status_modifiers[j].modify(&mut status_copy);
            assert(self.status_modifiers@.take(j + 1).drop_last() == self.status_modifiers@.take(
                j as int,
            ));
            j += 1;
        }
        assert(self.status_modifiers@.take(self.status_modifiers@.len() as int)
            == self.status_modifiers@);

        (status_copy, omitted)
    }

    /// Return the current status document.
    ///
    /// A sensor whose value could not be read is left out and listed in
    /// `omitted`; the request succeeds all the same.
    pub fn handle(&self, readings: &Vec<Reading>) -> (outcome: ReadOutcome)
        ensures
            outcome.response@ == response_with(
                StatusCode::Success,
                BodyView::Document(self.document(readings_view(readings@))),
            ),
            omissions_view(outcome.omitted@) == omissions(
                self.sensor_specs(),
                readings_view(readings@),
            ),
    {
        // Get response body
        let (document, omitted) = self.build_response_document(readings);

        // Create response
        ReadOutcome { response: Response::new(StatusCode::Success, Body::Document(document)), omitted }
    }
}

/// What the update handler decided about a request.
#[derive(Debug, PartialEq, Eq)]
pub enum UpdateStep {
    /// The request is answered as it stands; nothing is written.
    Respond(Response),
    /// The store is to carry out this write. How that went is then handed to
    /// [`UpdateHandler::conclude`], which gives the response.
    Store(WriteCommand),
}

/// The view of an [`UpdateStep`].
pub enum UpdateStepView {
    Respond(ResponseView),
    Store { key: Seq<char>, value: Seq<char> },
}

impl View for UpdateStep {
    type V = UpdateStepView;

    open spec fn view(&self) -> UpdateStepView {
        match self {
            UpdateStep::Respond(response) => UpdateStepView::Respond(response@),
            UpdateStep::Store(write) => UpdateStepView::Store {
                key: write.key@,
                value: write.value@,
            },
        }
    }
}

/// The characters of each of `values`.
pub open spec fn values_view(values: Seq<String>) -> Seq<Seq<char>> {
    values.map_values(|v: String| v@)
}

/// What is to be done about a request to set the sensor `sensor` to the one
/// value among `values`.
pub open spec fn update_decision(
    specs: Seq<SensorSpec>,
    sensor: Seq<char>,
    values: Seq<Seq<char>>,
) -> UpdateStepView {
    if values.len() == 0 {
        UpdateStepView::Respond(
            error_response(StatusCode::BadRequest, "\"value\" parameter not specified"@),
        )
    } else if values.len() > 1 {
        UpdateStepView::Respond(
            error_response(StatusCode::BadRequest, "Too many values specified"@),
        )
    } else if !is_registered(specs, sensor) {
        UpdateStepView::Respond(
            error_response(StatusCode::BadRequest, "Unknown sensor: "@ + sensor),
        )
    } else {
        UpdateStepView::Store { key: sensor, value: values[0] }
    }
}

/// The response that tells a client of the error `err`: an unknown sensor is
/// the client's fault, a failure of the store is the server's.
pub open spec fn failure_response(err: SensorError) -> ResponseView {
    match err {
        SensorError::UnknownSensor(sensor) => error_response(
            StatusCode::BadRequest,
            "Unknown sensor: "@ + sensor@,
        ),
        SensorError::StoreUnavailable | SensorError::PoolTimeout => error_response(
            StatusCode::InternalServerError,
            "Updating values in datastore failed"@,
        ),
    }
}

/// The response to an update once the store has answered the write.
pub open spec fn update_conclusion(outcome: Result<(), StoreError>) -> ResponseView {
    match outcome {
        Ok(_) => response_with(StatusCode::NoContent, BodyView::Empty),
        Err(err) => failure_response(store_failure(err)),
    }
}

/// Answers the requests that update the value of one sensor.
pub struct UpdateHandler {
    sensor_specs: SafeSensorSpecs,
}

impl UpdateHandler {
    /// The registered sensors, in the order of their registration.
    pub closed spec fn sensor_specs(&self) -> Seq<SensorSpec> {
        self.sensor_specs@
    }

    pub fn new(sensor_specs: SafeSensorSpecs) -> (handler: UpdateHandler)
        ensures
            handler.sensor_specs() == sensor_specs@,
    {
        UpdateHandler { sensor_specs }
    }

    /// Update sensor value in the store: the write that does it, or the error
    /// that no sensor goes by that name.
    fn update_sensor(&self, sensor: &str, value: &str) -> (res: Result<WriteCommand, SensorError>)
        ensures
            match res {
                Ok(write) => is_registered(self.sensor_specs@, sensor@) && write.key@ == sensor@
                    && write.value@ == value@,
                Err(SensorError::UnknownSensor(name)) => !is_registered(
                    self.sensor_specs@,
                    sensor@,
                ) && name@ == sensor@,
                Err(_) => false,
            },
    {
        // Validate sensor
        let name = String::from_str(sensor);
        let mut i: usize = 0;
        while i < self.sensor_specs.len()
            invariant
                i <= self.sensor_specs@.len(),
                name@ == sensor@,
                forall|k: int| 0 <= k < i ==> self.sensor_specs@[k].data_key@ != sensor@,
            decreases self.sensor_specs@.len() - i,
        {
            let sensor_spec = &self.sensor_specs[i];
            if sensor_spec.data_key == name {
                // Store data
                return Ok(sensor_spec.set_sensor_value(value));
            }
            i += 1;
        }
        Err(SensorError::UnknownSensor(name))
    }

    /// Build an OK response with the status `NoContent`.
    fn ok_response(&self) -> (res: Response)
        ensures
            res@ == response_with(StatusCode::NoContent, BodyView::Empty),
    {
        Response::new(StatusCode::NoContent, Body::Empty)
    }

    /// Build an error response with the specified `error_code` and the specified `reason` text.
    fn err_response(&self, error_code: StatusCode, reason: &str) -> (res: Response)
        ensures
            res@ == error_response(error_code, reason@),
    {
        let error = ErrorResponse { reason: String::from_str(reason) };
        Response::new(error_code, Body::Json(error.to_json()))
    }

    /// Decide about an update of the sensor `sensor_name`. `values` are the
    /// values that the request gives for its field `value`: an update needs
    /// exactly one.
    pub fn handle(&self, sensor_name: &str, values: &Vec<String>) -> (step: UpdateStep)
        ensures
            step@ == update_decision(self.sensor_specs(), sensor_name@, values_view(values@)),
    {
        // Get sensor value
        if values.len() == 0 {
            return UpdateStep::Respond(
                self.err_response(StatusCode::BadRequest, "\"value\" parameter not specified"),
            );
        }
        if values.len() != 1 {
            return UpdateStep::Respond(
                self.err_response(StatusCode::BadRequest, "Too many values specified"),
            );
        }
        let sensor_value = &values[0];

        // Find out what to write
        match self.update_sensor(sensor_name, sensor_value.as_str()) {
            Ok(write) => UpdateStep::Store(write),
            Err(err) => UpdateStep::Respond(self.failure(err)),
        }
    }

    /// Tell the client of an error, with the status that says whose fault it
    /// is.
    fn failure(&self, err: SensorError) -> (res: Response)
        ensures
            res@ == failure_response(err),
    {
        match err {
            SensorError::UnknownSensor(sensor) => {
                let reason = String::from_str("Unknown sensor: ").concat(sensor.as_str());
                self.err_response(StatusCode::BadRequest, reason.as_str())
            },
            SensorError::StoreUnavailable | SensorError::PoolTimeout => self.err_response(
                StatusCode::InternalServerError,
                "Updating values in datastore failed",
            ),
        }
    }

    /// The response to an update whose write the store has answered with
    /// `outcome`.
    pub fn conclude(&self, outcome: Result<(), StoreError>) -> (res: Response)
        ensures
            res@ == update_conclusion(outcome),
    {
        match outcome {
            Ok(_) => self.ok_response(),
            Err(err) => self.failure(SensorError::from(err)),
        }
    }
}

} // verus!

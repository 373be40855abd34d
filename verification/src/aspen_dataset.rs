//! The realtime data that Aspen keeps per chateau, in the shape it serves it.
use vstd::prelude::*;

verus! {

/// A period during which an alert is in effect; times are seconds since the Unix epoch.
#[derive(Clone, Debug, PartialEq, Eq, Hash)]
pub struct AspenTimeRange {
    pub start: Option<u64>,
    pub end: Option<u64>,
}

/// What an alert is about.
#[derive(Clone, Debug, PartialEq, Eq, Hash)]
pub struct AspenEntitySelector {
    pub agency_id: Option<String>,
    pub route_id: Option<String>,
    pub route_type: Option<i32>,
    pub trip: Option<AspenRawTripInfo>,
    pub stop_id: Option<String>,
    pub direction_id: Option<u32>,
}

/// A text in several languages.
#[derive(Clone, Debug, PartialEq, Eq, Hash)]
pub struct AspenTranslatedString {
    pub translation: Vec<AspenTranslation>,
}

/// A text in one language.
#[derive(Clone, Debug, PartialEq, Eq, Hash)]
pub struct AspenTranslation {
    pub text: String,
    pub language: Option<String>,
}

/// An image in several languages.
#[derive(Clone, Debug, PartialEq, Eq, Hash)]
pub struct AspenTranslatedImage {
    pub localised_image: Vec<AspenLocalisedImage>,
}

/// An image in one language.
#[derive(Clone, Debug, PartialEq, Eq, Hash)]
pub struct AspenLocalisedImage {
    pub url: String,
    pub media_type: String,
    pub language: Option<String>,
}

/// A service alert.
#[derive(Clone, Debug, PartialEq, Eq, Hash)]
pub struct AspenisedAlert {
    pub active_period: Vec<AspenTimeRange>,
    pub informed_entity: Vec<AspenEntitySelector>,
    pub cause: Option<i32>,
    pub effect: Option<i32>,
    pub url: Option<AspenTranslatedString>,
    pub header_text: Option<AspenTranslatedString>,
    pub description_text: Option<AspenTranslatedString>,
    pub tts_header_text: Option<AspenTranslatedString>,
    pub tts_description_text: Option<AspenTranslatedString>,
    pub severity_level: Option<i32>,
    pub image: Option<AspenTranslatedImage>,
    pub image_alternative_text: Option<AspenTranslatedString>,
    pub cause_detail: Option<AspenTranslatedString>,
    pub effect_detail: Option<AspenTranslatedString>,
}

/// A realtime update of a trip.
#[derive(Clone, Debug)]
pub struct AspenisedTripUpdate {
    pub trip: AspenRawTripInfo,
    pub vehicle: Option<AspenisedVehicleDescriptor>,
    pub timestamp: Option<u64>,
    pub delay: Option<i32>,
    pub stop_time_update: Vec<AspenisedStopTimeUpdate>,
    pub trip_properties: Option<AspenTripProperties>,
    pub trip_headsign: Option<String>,
}

/// Properties of a trip that a realtime update changes.
#[derive(Clone, Debug)]
pub struct AspenTripProperties {
    pub trip_id: Option<String>,
    pub start_date: Option<String>,
    pub start_time: Option<String>,
    pub shape_id: Option<String>,
}

/// The trip that a realtime record is about, as the feed describes it.
#[derive(Clone, Debug, PartialEq, Eq, Hash)]
pub struct AspenRawTripInfo {
    pub trip_id: Option<String>,
    pub route_id: Option<String>,
    pub direction_id: Option<u32>,
    pub start_time: Option<String>,
    pub start_date: Option<String>,
    pub schedule_relationship: Option<i32>,
    pub modified_trip: Option<ModifiedTripSelector>,
}

/// A trip replaced by a trip modification.
#[derive(Clone, Debug, PartialEq, Eq, Hash)]
pub struct ModifiedTripSelector {
    pub modifications_id: Option<String>,
    pub affected_trip_id: Option<String>,
}

/// A realtime update of one stop of a trip.
#[derive(Clone, Debug)]
pub struct AspenisedStopTimeUpdate {
    pub stop_sequence: Option<u32>,
    pub stop_id: Option<String>,
    pub arrival: Option<AspenStopTimeEvent>,
    pub departure: Option<AspenStopTimeEvent>,
    pub departure_occupancy_status: Option<i32>,
    pub schedule_relationship: Option<i32>,
    pub stop_time_properties: Option<AspenisedStopTimeProperties>,
    pub platform_string: Option<String>,
}

/// Properties of a stop of a trip that a realtime update changes.
#[derive(Clone, Debug)]
pub struct AspenisedStopTimeProperties {
    pub assigned_stop_id: Option<String>,
}

/// A predicted arrival or departure.
#[derive(Clone, Debug, PartialEq, Eq, Hash)]
pub struct AspenStopTimeEvent {
    pub delay: Option<i32>,
    pub time: Option<i64>,
    pub uncertainty: Option<i32>,
}

/// A realtime vehicle position.
#[derive(Clone, Debug)]
pub struct AspenisedVehiclePosition {
    pub trip: Option<AspenisedVehicleTripInfo>,
    pub vehicle: Option<AspenisedVehicleDescriptor>,
    pub position: Option<CatenaryRtVehiclePosition>,
    pub timestamp: Option<u64>,
    pub route_type: i16,
    pub current_stop_sequence: Option<u32>,
    pub current_status: Option<i32>,
    pub congestion_level: Option<i32>,
    pub occupancy_status: Option<i32>,
    pub occupancy_percentage: Option<u32>,
}

/// Where a vehicle is. The coordinates, bearing and speed are IEEE 754 single-precision
/// numbers and the odometer a double-precision one, each held by its bit pattern.
#[derive(Clone, Copy, Debug, PartialEq, Eq, Structural)]
pub struct CatenaryRtVehiclePosition {
    pub latitude_bits: u32,
    pub longitude_bits: u32,
    pub bearing_bits: Option<u32>,
    pub odometer_bits: Option<u64>,
    pub speed_bits: Option<u32>,
}

/// The vehicle that serves a trip.
#[derive(Clone, Debug)]
pub struct AspenisedVehicleDescriptor {
    pub id: Option<String>,
    pub label: Option<String>,
    pub license_plate: Option<String>,
    pub wheelchair_accessible: Option<i32>,
}

/// The trip that a vehicle serves, with names from the static schedule.
#[derive(Clone, Debug)]
pub struct AspenisedVehicleTripInfo {
    pub trip_id: Option<String>,
    pub trip_headsign: Option<String>,
    pub route_id: Option<String>,
    pub trip_short_name: Option<String>,
    pub direction_id: Option<u32>,
    pub start_time: Option<String>,
    pub start_date: Option<String>,
    pub schedule_relationship: Option<i32>,
}

/// Route names and colours cached for the vehicles of a route.
#[derive(Clone, Debug, PartialEq, Eq, Hash)]
pub struct AspenisedVehicleRouteCache {
    pub route_short_name: Option<String>,
    pub route_long_name: Option<String>,
    pub route_colour: Option<String>,
    pub route_text_colour: Option<String>,
    pub route_type: i16,
    pub route_desc: Option<String>,
}

/// The three kinds of GTFS-realtime feed.
#[derive(Clone, Copy, Debug, PartialEq, Eq, Hash, Structural)]
pub enum GtfsRtType {
    VehiclePositions,
    TripUpdates,
    Alerts,
}

/// Shows a vehicle's identifier where its label would be shown.
pub trait ReplaceVehicleLabelWithVehicleId: Sized {
    fn replace_vehicle_label_with_vehicle_id(self) -> Self;
}

/// The descriptor `d` with its label set to its identifier.
pub open spec fn labelled_by_id(d: AspenisedVehicleDescriptor) -> AspenisedVehicleDescriptor {
    AspenisedVehicleDescriptor {
        id: d.id,
        label: d.id,
        license_plate: d.license_plate,
        wheelchair_accessible: d.wheelchair_accessible,
    }
}

/// An optional descriptor with its label, if present, set to its identifier.
pub open spec fn vehicle_labelled_by_id(v: Option<AspenisedVehicleDescriptor>) -> Option<
    AspenisedVehicleDescriptor,
> {
    match v {
        Some(d) => Some(labelled_by_id(d)),
        None => None,
    }
}

fn clone_optional_string(s: &Option<String>) -> (r: Option<String>)
    ensures
        r == *s,
{
    match s {
        Some(text) => Some(text.clone()),
        None => None,
    }
}

impl ReplaceVehicleLabelWithVehicleId for AspenisedVehicleDescriptor {
    fn replace_vehicle_label_with_vehicle_id(self) -> (r: Self)
        ensures
            r == labelled_by_id(self),
    {
        let mut input = self;
        input.label = clone_optional_string(&input.id);
        input
    }
}

impl ReplaceVehicleLabelWithVehicleId for AspenisedVehiclePosition {
    fn replace_vehicle_label_with_vehicle_id(self) -> (r: Self)
        ensures
            r == (AspenisedVehiclePosition { vehicle: vehicle_labelled_by_id(self.vehicle), ..self }),
    {
        let mut input = self;
        if let Some(vehicle) = input.vehicle {
            input.vehicle = Some(
                AspenisedVehicleDescriptor::replace_vehicle_label_with_vehicle_id(vehicle),
            );
        }
        input
    }
}

impl ReplaceVehicleLabelWithVehicleId for AspenisedTripUpdate {
    fn replace_vehicle_label_with_vehicle_id(self) -> (r: Self)
        ensures
            r == (AspenisedTripUpdate { vehicle: vehicle_labelled_by_id(self.vehicle), ..self }),
    {
        let mut input = self;
        if let Some(vehicle) = input.vehicle {
            input.vehicle = Some(
                AspenisedVehicleDescriptor::replace_vehicle_label_with_vehicle_id(vehicle),
            );
        }
        input
    }
}

/// Setting the label from the identifier a second time changes nothing.
pub proof fn lemma_label_replacement_idempotent(d: AspenisedVehicleDescriptor)
    ensures
        labelled_by_id(labelled_by_id(d)) == labelled_by_id(d),
        labelled_by_id(d).label == d.id,
        labelled_by_id(d).id == d.id,
{
}

} // verus!

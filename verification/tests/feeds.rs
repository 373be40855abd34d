use catenary::alpenrose::{alpenrose_next_action, AlpenroseAction, ProcessAlpenroseData};
use catenary::aspen_assignment::{assignment_value, realtime_feed_assignment_key};
use catenary::aspen_dataset::{
    AspenRawTripInfo, AspenisedTripUpdate, AspenisedVehicleDescriptor, AspenisedVehiclePosition,
    ReplaceVehicleLabelWithVehicleId,
};
use catenary::compression::{compress_zlib, decompress_zlib, try_decompress_zlib};
use catenary::feed_header::{current_full_dataset_header, duration_since_unix_epoch, full_dataset_header};
use catenary::gtfs_routes::{contains_rail_or_metro_lines, Gtfs, Route, RouteType};
use catenary::gtfs_schedule_protobuf::{
    frequencies_to_protobuf, protobuf_to_frequencies, ExactTimes, ExactTimesProto, Frequency,
    GtfsFrequenciesProto, GtfsFrequencyProto,
};
use catenary::metrolink::{metrolink_date_is_readable, metrolink_unix_fix, try_metrolink_unix_fix};
use catenary::route_ids::route_id_transform;
use catenary::unzip_uk::extract_gtfs_rt;
use std::io::Write;

#[test]
fn zlib_round_trip() {
    let input = b"catenary catenary catenary catenary".to_vec();
    let packed = compress_zlib(&input);
    assert_ne!(packed, input);
    assert_eq!(packed[0], 0x78);
    assert_eq!(decompress_zlib(&packed), input);
    assert_eq!(try_decompress_zlib(&packed), Some(input));
    assert_eq!(decompress_zlib(&compress_zlib(&[])), Vec::<u8>::new());
}

#[test]
fn zlib_rejects_garbage() {
    assert_eq!(try_decompress_zlib(b"not a zlib stream"), None);
}

#[test]
fn frequencies_encode_and_decode() {
    let freqs = vec![
        Frequency { start_time: 1, end_time: 2, headway_secs: 3, exact_times: Some(ExactTimes::FrequencyBased) },
        Frequency { start_time: 4, end_time: 5, headway_secs: 6, exact_times: Some(ExactTimes::ScheduleBased) },
        Frequency { start_time: 7, end_time: 8, headway_secs: 9, exact_times: None },
    ];
    let proto = frequencies_to_protobuf(&freqs);
    assert_eq!(proto.frequencies[0].exact_times, Some(0));
    assert_eq!(proto.frequencies[1].exact_times, Some(1));
    assert_eq!(proto.frequencies[2].exact_times, None);
    assert_eq!(proto.frequencies[1].headway_secs, 6);
    assert_eq!(protobuf_to_frequencies(&proto), freqs);
    assert_eq!(ExactTimesProto::ScheduleBased.value(), 1);
}

#[test]
fn unknown_exact_times_are_dropped() {
    let proto = GtfsFrequenciesProto {
        frequencies: vec![GtfsFrequencyProto { start_time: 1, end_time: 2, headway_secs: 3, exact_times: Some(7) }],
    };
    let freqs = protobuf_to_frequencies(&proto);
    assert_eq!(freqs[0].exact_times, None);
    assert_eq!(freqs[0].end_time, 2);
}

#[test]
fn pace_route_ids_get_the_suffix_once() {
    assert_eq!(route_id_transform("f-dp3-pace~rt", "208".to_string()), "208-367");
    assert_eq!(route_id_transform("f-dp3-pace~rt", "208-367".to_string()), "208-367");
    let once = route_id_transform("f-dp3-pace~rt", "x".to_string());
    assert_eq!(route_id_transform("f-dp3-pace~rt", once.clone()), once);
}

#[test]
fn foothill_route_ids_lose_two_characters() {
    assert_eq!(route_id_transform("f-foothilltransit~rt", "12187".to_string()), "187");
    assert_eq!(route_id_transform("f-foothilltransit~rt", "1218".to_string()), "1218");
    assert_eq!(route_id_transform("f-foothilltransit~rt", "éé1".to_string()), "1");
    assert_eq!(route_id_transform("f-foothilltransit~rt", "187".to_string()), "187");
}

#[test]
fn other_feeds_keep_route_ids() {
    assert_eq!(route_id_transform("f-other~rt", "12187".to_string()), "12187");
    assert_eq!(route_id_transform("", "208".to_string()), "208");
}

#[test]
fn metrolink_dates() {
    assert_eq!(metrolink_unix_fix("/Date(1729199040000)/"), 1_729_199_040);
    assert_eq!(try_metrolink_unix_fix("/Date(1729199040123)/"), Some(1_729_199_040));
    assert_eq!(try_metrolink_unix_fix("/Date(999)/"), None);
    assert_eq!(try_metrolink_unix_fix("/Date(12)/"), None);
    assert_eq!(try_metrolink_unix_fix("abc"), None);
    assert_eq!(try_metrolink_unix_fix("١٢٣٤٥"), None);
    assert_eq!(try_metrolink_unix_fix("184467440737095516150000"), None);
    assert_eq!(try_metrolink_unix_fix("18446744073709551615000"), Some(u64::MAX));
    assert!(metrolink_date_is_readable("1a2b3c4"));
    assert_eq!(metrolink_unix_fix("1a2b3c4"), 1);
}

#[test]
fn rail_lines_are_found() {
    let route = |t: RouteType| Route { id: "r".to_string(), route_type: t };
    let buses = Gtfs { routes: vec![route(RouteType::Bus), route(RouteType::Other(700)), route(RouteType::Extended(100))] };
    assert!(!contains_rail_or_metro_lines(&buses));
    let mixed = Gtfs { routes: vec![route(RouteType::Bus), route(RouteType::Funicular)] };
    assert!(contains_rail_or_metro_lines(&mixed));
    assert!(!contains_rail_or_metro_lines(&Gtfs { routes: vec![] }));
}

fn descriptor() -> AspenisedVehicleDescriptor {
    AspenisedVehicleDescriptor {
        id: Some("1234".to_string()),
        label: Some("Bus to Downtown".to_string()),
        license_plate: Some("ABC".to_string()),
        wheelchair_accessible: Some(1),
    }
}

#[test]
fn labels_become_identifiers() {
    let d = descriptor().replace_vehicle_label_with_vehicle_id();
    assert_eq!(d.label, Some("1234".to_string()));
    assert_eq!(d.id, Some("1234".to_string()));
    assert_eq!(d.license_plate, Some("ABC".to_string()));
    let again = d.clone().replace_vehicle_label_with_vehicle_id();
    assert_eq!(again.label, d.label);
    let no_id = AspenisedVehicleDescriptor { id: None, ..descriptor() };
    assert_eq!(no_id.replace_vehicle_label_with_vehicle_id().label, None);
}

#[test]
fn positions_and_updates_relabel_their_vehicle() {
    let position = AspenisedVehiclePosition {
        trip: None,
        vehicle: Some(descriptor()),
        position: None,
        timestamp: Some(5),
        route_type: 3,
        current_stop_sequence: None,
        current_status: None,
        congestion_level: None,
        occupancy_status: None,
        occupancy_percentage: None,
    };
    let p = position.replace_vehicle_label_with_vehicle_id();
    assert_eq!(p.vehicle.unwrap().label, Some("1234".to_string()));
    assert_eq!(p.timestamp, Some(5));
    let update = AspenisedTripUpdate {
        trip: AspenRawTripInfo {
            trip_id: Some("t".to_string()),
            route_id: None,
            direction_id: None,
            start_time: None,
            start_date: None,
            schedule_relationship: None,
            modified_trip: None,
        },
        vehicle: None,
        timestamp: None,
        delay: Some(30),
        stop_time_update: vec![],
        trip_properties: None,
        trip_headsign: None,
    };
    let u = update.replace_vehicle_label_with_vehicle_id();
    assert!(u.vehicle.is_none());
    assert_eq!(u.delay, Some(30));
}

#[test]
fn feed_headers() {
    let h = full_dataset_header(1_700_000_000);
    assert_eq!(h.gtfs_realtime_version, "2.0");
    assert_eq!(h.incrementality, Some(0));
    assert_eq!(h.timestamp, Some(1_700_000_000));
    let now = current_full_dataset_header().unwrap();
    assert!(now.timestamp.unwrap() > 1_700_000_000);
    assert!(duration_since_unix_epoch().unwrap().as_secs() > 1_700_000_000);
}

#[test]
fn assignment_keys_and_values() {
    assert_eq!(realtime_feed_assignment_key("f-9q5-metro~losangeles~rt"), "/aspen_assigned_realtime_feed_ids/f-9q5-metro~losangeles~rt");
    let none: Vec<Vec<u8>> = vec![];
    assert_eq!(assignment_value(&none), None);
    let some = vec![vec![1u8, 2], vec![3u8]];
    assert_eq!(assignment_value(&some), Some(&vec![1u8, 2]));
}

#[test]
fn alpenrose_steps() {
    let task = ProcessAlpenroseData {
        chateau_id: "metrolink".to_string(),
        realtime_feed_id: "f-metrolink~rt".to_string(),
        has_vehicles: true,
        has_trips: true,
        has_alerts: false,
        vehicles_response_code: Some(200),
        trips_response_code: Some(200),
        alerts_response_code: None,
    };
    match alpenrose_next_action(Some(task)) {
        AlpenroseAction::Process { chateau_id, task } => {
            assert_eq!(chateau_id, "metrolink");
            assert_eq!(task.realtime_feed_id, "f-metrolink~rt");
        }
        AlpenroseAction::Sleep { .. } => panic!("a task was taken"),
    }
    match alpenrose_next_action(None) {
        AlpenroseAction::Sleep { millis } => assert_eq!(millis, 5),
        AlpenroseAction::Process { .. } => panic!("nothing was taken"),
    }
}

#[test]
fn gtfs_rt_entry_is_extracted() {
    let mut buf = std::io::Cursor::new(Vec::new());
    {
        let mut writer = zip::ZipWriter::new(&mut buf);
        let options = zip::write::SimpleFileOptions::default()
            .compression_method(zip::CompressionMethod::Stored);
        writer.start_file("readme.txt", options).unwrap();
        writer.write_all(b"hello").unwrap();
        writer.start_file("gtfsrt.bin", options).unwrap();
        writer.write_all(&[8, 1, 2, 3]).unwrap();
        writer.finish().unwrap();
    }
    let archive = buf.into_inner();
    assert_eq!(extract_gtfs_rt(&archive), Some(vec![8, 1, 2, 3]));
    assert_eq!(extract_gtfs_rt(b"not a zip"), None);
}

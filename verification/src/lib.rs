use vstd::prelude::*;

pub mod alpenrose;
pub mod aspen_assignment;
pub mod aspen_dataset;
pub mod calendar;
pub mod compression;
pub mod feed_header;
pub mod gtfs_routes;
pub mod gtfs_schedule_protobuf;
pub mod metrolink;
pub mod route_ids;
pub mod service_ranges;
pub mod unzip_uk;

pub use calendar::{
    datetime_in_service, make_weekdays, CalendarUnified, GeneralCalendar,
};
pub use compression::{compress_zlib, decompress_zlib};
pub use feed_header::duration_since_unix_epoch;
pub use gtfs_routes::contains_rail_or_metro_lines;
pub use metrolink::metrolink_unix_fix;
pub use route_ids::route_id_transform;
pub use service_ranges::{find_service_ranges, TripToFindScheduleFor};

verus! {

/// A chateau (a group of feeds served together) without its geometry.
#[derive(Clone, Debug, PartialEq, Eq, Hash)]
pub struct ChateauDataNoGeometry {
    pub chateau_id: String,
    pub static_feeds: Vec<String>,
    pub realtime_feeds: Vec<String>,
}

/// The addresses of the etcd servers.
pub struct EtcdConnectionIps {
    pub ip_addresses: Vec<String>,
}

/// Spatial reference identifier of the WGS 84 coordinate system.
pub const WGS_84_SRID: u32 = 4326;

} // verus!

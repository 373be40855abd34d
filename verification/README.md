# catenary

The verified core of Catenary's transit-data back end, written in Verus.

`src/` holds the logic, each function with a contract that Verus proves:
service calendars and the search for the service days of a trip (`calendar`,
`service_ranges`), frequency encoding (`gtfs_schedule_protobuf`), route and
date clean-up for particular feeds (`route_ids`, `metrolink`), zlib
compression, the zip archive of the UK bus data service, the realtime records
that Aspen serves (`aspen_dataset`), feed headers, etcd keys and the decisions
of Aspen's workers. Calls into chrono, chrono-tz, flate2 and zip go through
small trusted wrappers whose contracts are documented beside them.

`app/` holds what talks to the network, etcd, the clock and threads, the
conversions from chrono, gtfs-structures and gtfs-realtime types, and the
generic hashing helpers.

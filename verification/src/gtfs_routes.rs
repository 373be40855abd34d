//! The modes of the routes of a static GTFS feed.
use vstd::prelude::*;

verus! {

/// The mode of a GTFS route (`routes.txt` `route_type`). An extended route type is held by
/// its numeric code.
#[derive(Clone, Copy, Debug, PartialEq, Eq, Structural)]
pub enum RouteType {
    Tramway,
    Subway,
    Rail,
    Bus,
    Ferry,
    CableCar,
    Gondola,
    Funicular,
    Extended(i16),
    Other(i16),
}

/// A route of a static feed, with what is read of it here.
#[derive(Clone, Debug)]
pub struct Route {
    pub id: String,
    pub route_type: RouteType,
}

/// The routes of a static GTFS feed.
#[derive(Clone, Debug)]
pub struct Gtfs {
    pub routes: Vec<Route>,
}

/// Whether a route of this mode runs on rails: tram, subway, rail, cable car or funicular.
pub open spec fn is_rail_or_metro(t: RouteType) -> bool {
    match t {
        RouteType::Tramway | RouteType::Subway | RouteType::Rail | RouteType::CableCar
        | RouteType::Funicular => true,
        _ => false,
    }
}

/// The rail modes are exactly tram, subway, rail, cable car and funicular; bus, ferry,
/// gondola, extended and other route types are not.
pub proof fn lemma_rail_modes(t: RouteType)
    ensures
        is_rail_or_metro(t) <==> (t == RouteType::Tramway || t == RouteType::Subway || t
            == RouteType::Rail || t == RouteType::CableCar || t == RouteType::Funicular),
        is_rail_or_metro(RouteType::Subway),
        is_rail_or_metro(RouteType::Tramway),
        is_rail_or_metro(RouteType::Rail),
        is_rail_or_metro(RouteType::CableCar),
        is_rail_or_metro(RouteType::Funicular),
        !is_rail_or_metro(RouteType::Bus),
        !is_rail_or_metro(RouteType::Ferry),
        !is_rail_or_metro(RouteType::Gondola),
        t is Extended || t is Other ==> !is_rail_or_metro(t),
{
}

/// A feed with a route of a rail mode contains rail or metro lines.
pub proof fn lemma_rail_route_found(gtfs: Gtfs, i: int)
    requires
        0 <= i < gtfs.routes@.len(),
        gtfs.routes@[i].route_type == RouteType::Tramway || gtfs.routes@[i].route_type
            == RouteType::Subway || gtfs.routes@[i].route_type == RouteType::Rail
            || gtfs.routes@[i].route_type == RouteType::CableCar || gtfs.routes@[i].route_type
            == RouteType::Funicular,
    ensures
        exists|j: int|
            0 <= j < gtfs.routes@.len() && is_rail_or_metro(#[trigger] gtfs.routes@[j].route_type),
{
    assert(is_rail_or_metro(gtfs.routes@[i].route_type));
}

/// Whether some route of `gtfs` runs on rails.
pub fn contains_rail_or_metro_lines(gtfs: &Gtfs) -> (answer: bool)
    ensures
        answer <==> exists|i: int|
            0 <= i < gtfs.routes@.len() && is_rail_or_metro(#[trigger] gtfs.routes@[i].route_type),
{
    let mut i: usize = 0;
    while i < gtfs.routes.len()
        invariant
            i <= gtfs.routes.len(),
            forall|j: int| 0 <= j < i ==> !is_rail_or_metro(#[trigger] gtfs.routes@[j].route_type),
        decreases gtfs.routes.len() - i,
    {
        let is_rail_line = match gtfs.routes[i].route_type {
            RouteType::Tramway | RouteType::Subway | RouteType::Rail | RouteType::CableCar
            | RouteType::Funicular => true,
            _ => false,
        };
        if is_rail_line {
            assert(is_rail_or_metro(gtfs.routes@[i as int].route_type));
            return true;
        }
        i = i + 1;
    }
    false
}

} // verus!

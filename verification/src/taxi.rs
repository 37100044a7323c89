//! Flight masters and innkeepers: whether a requested flight may start,
//! and which area a new home is bound to.
use vstd::prelude::*;

verus! {

pub const ERR_TAXIOK: u32 = 0;
pub const ERR_TAXIUNSPECIFIEDSERVERERROR: u32 = 1;
pub const ERR_TAXINOSUCHPATH: u32 = 2;
pub const ERR_TAXINOTENOUGHMONEY: u32 = 3;
pub const ERR_TAXINOTVISITED: u32 = 6;

/// A flight between two nodes.
#[derive(Clone, Copy, Debug, PartialEq, Eq, Structural)]
pub struct TaxiPathInfo {
    pub id: u32,
    pub price: u32,
}

/// What the world data and the character's records say of a requested
/// flight: whether the character knows both nodes, the path between them,
/// the map of the destination node, the maps of the path's nodes in
/// order, and the display of the mount the source node lends the
/// character's side (0 when it lends none).
#[derive(Clone, Debug)]
pub struct TaxiRoute {
    pub source_known: bool,
    pub destination_known: bool,
    pub path: Option<TaxiPathInfo>,
    pub destination_map: Option<u32>,
    pub flight_node_maps: Vec<u32>,
    pub mount_display_id: u32,
}

pub open spec fn taxi_activation_spec(
    source_node: u32,
    destination_node: u32,
    current_node: u32,
    character_map: u32,
    route: TaxiRoute,
) -> Result<TaxiPathInfo, u32> {
    if source_node != current_node {
        Err(ERR_TAXINOSUCHPATH)
    } else if !route.source_known || !route.destination_known {
        Err(ERR_TAXINOTVISITED)
    } else if route.path is None || route.destination_map is None {
        Err(ERR_TAXINOSUCHPATH)
    } else if route.destination_map->0 != character_map {
        Err(ERR_TAXIUNSPECIFIEDSERVERERROR)
    } else if route.flight_node_maps@.len() < 2 || exists|i: int|
        0 <= i < route.flight_node_maps@.len() && #[trigger] route.flight_node_maps@[i] != character_map {
        Err(ERR_TAXINOSUCHPATH)
    } else if route.mount_display_id == 0 {
        Err(ERR_TAXIUNSPECIFIEDSERVERERROR)
    } else {
        Ok(route.path->0)
    }
}

/// Whether a flight from `source_node` to `destination_node` may start for
/// a character at the flight master of `current_node` on map
/// `character_map`: the flight, whose price is still to be paid, or the
/// error the client is answered. The flight must leave from this master's
/// node, both nodes must be known, the path and destination must exist on
/// the character's map with at least two path nodes all on it, and the
/// node must lend a mount.
pub fn check_taxi_activation(
    source_node: u32,
    destination_node: u32,
    current_node: u32,
    character_map: u32,
    route: &TaxiRoute,
) -> (flight: Result<TaxiPathInfo, u32>)
    ensures
        flight == taxi_activation_spec(source_node, destination_node, current_node, character_map, *route),
{
    if source_node != current_node {
        return Err(ERR_TAXINOSUCHPATH);
    }
    if !route.source_known || !route.destination_known {
        return Err(ERR_TAXINOTVISITED);
    }
    let path = match route.path {
        None => return Err(ERR_TAXINOSUCHPATH),
        Some(p) => p,
    };
    let destination_map = match route.destination_map {
        None => return Err(ERR_TAXINOSUCHPATH),
        Some(m) => m,
    };
    if destination_map != character_map {
        return Err(ERR_TAXIUNSPECIFIEDSERVERERROR);
    }
    if route.flight_node_maps.len() < 2 {
        return Err(ERR_TAXINOSUCHPATH);
    }
    let mut i: usize = 0;
    while i < route.flight_node_maps.len()
        invariant
            i <= route.flight_node_maps@.len(),
            source_node == current_node,
            route.source_known && route.destination_known,
            route.path == Some(path),
            route.destination_map == Some(character_map),
            route.flight_node_maps@.len() >= 2,
            forall|j: int| 0 <= j < i ==> route.flight_node_maps@[j] == character_map,
        decreases route.flight_node_maps@.len() - i,
    {
        if route.flight_node_maps[i] != character_map {
            assert(route.flight_node_maps@[i as int] != character_map);
            return Err(ERR_TAXINOSUCHPATH);
        }
        i += 1;
    }
    if route.mount_display_id == 0 {
        return Err(ERR_TAXIUNSPECIFIEDSERVERERROR);
    }
    Ok(path)
}

/// The area a new home is bound to: the area the map places the character
/// in, else the character's current zone, else 0.
pub fn homebind_area_id(map_area: Option<u32>, current_zone: Option<u32>) -> (area: u32)
    ensures
        area == match map_area {
            Some(a) => a,
            None => match current_zone {
                Some(z) => z,
                None => 0,
            },
        },
{
    match map_area {
        Some(a) => a,
        None => match current_zone {
            Some(z) => z,
            None => 0,
        },
    }
}

} // verus!

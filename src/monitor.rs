//! Monitors as the enumeration service reports them, lookup by id, and the
//! translation between monitor-local and desktop-global coordinates.
use vstd::prelude::*;

use crate::error::ControlError;

verus! {

/// A monitor of the current enumeration.
#[derive(PartialEq, Eq, Debug)]
pub struct MonitorInfo {
    /// Identifier, stable for a physical display during a session.
    pub id: String,
    pub name: String,
    pub is_primary: bool,
    pub width: u32,
    pub height: u32,
    /// Origin of the monitor (its top-left corner) in desktop-global coordinates.
    pub x: i32,
    pub y: i32,
}

/// A pixel position, in the coordinates of a monitor or of the desktop.
#[derive(PartialEq, Eq, Structural, Clone, Copy, Debug)]
pub struct Point {
    pub x: i32,
    pub y: i32,
}

/// `i` is the first position of `ms` whose monitor has id `id`.
pub open spec fn first_with_id(ms: Seq<MonitorInfo>, id: Seq<char>, i: int) -> bool {
    &&& 0 <= i < ms.len()
    &&& ms[i].id@ == id
    &&& forall|j: int| 0 <= j < i ==> #[trigger] ms[j].id@ != id
}

/// The monitor of `ms` with id `id`: the first one that has it.
pub open spec fn lookup(ms: Seq<MonitorInfo>, id: Seq<char>) -> Option<MonitorInfo> {
    if exists|i: int| first_with_id(ms, id, i) {
        Some(ms[choose|i: int| first_with_id(ms, id, i)])
    } else {
        None
    }
}

proof fn lemma_first_with_id_unique(ms: Seq<MonitorInfo>, id: Seq<char>, i: int, j: int)
    requires
        first_with_id(ms, id, i),
        first_with_id(ms, id, j),
    ensures
        i == j,
{
    if i < j {
        assert(ms[i].id@ != id);
    } else if j < i {
        assert(ms[j].id@ != id);
    }
}

/// Finds the monitor with the given id in an enumeration: the first one
/// that has it, or `MonitorNotFound` where none does. Another monitor is
/// never returned in its place.
pub fn find_by_id(monitors: &Vec<MonitorInfo>, id: &str) -> (r: Result<MonitorInfo, ControlError>)
    ensures
        r is Err <==> forall|i: int| 0 <= i < monitors@.len() ==> #[trigger] monitors@[i].id@ != id@,
        r matches Ok(m) ==> m.id@ == id@,
        match lookup(monitors@, id@) {
            Some(m) => r == Ok::<MonitorInfo, ControlError>(m),
            None => r matches Err(ControlError::MonitorNotFound),
        },
{
    let wanted = id.to_string();
    let mut i: usize = 0;
    while i < monitors.len()
        invariant
            wanted@ == id@,
            i <= monitors@.len(),
            forall|j: int| 0 <= j < i ==> #[trigger] monitors@[j].id@ != id@,
        decreases monitors@.len() - i,
    {
        let m = &monitors[i];
        if m.id == wanted {
            assert(first_with_id(monitors@, id@, i as int));
            proof {
                let k = choose|k: int| first_with_id(monitors@, id@, k);
                lemma_first_with_id_unique(monitors@, id@, i as int, k);
            }
            return Ok(
                MonitorInfo {
                    id: m.id.clone(),
                    name: m.name.clone(),
                    is_primary: m.is_primary,
                    width: m.width,
                    height: m.height,
                    x: m.x,
                    y: m.y,
                },
            );
        }
        i = i + 1;
    }
    assert(!exists|k: int| first_with_id(monitors@, id@, k));
    Err(ControlError::MonitorNotFound)
}

/// `v` is a value of `i32`.
pub open spec fn fits_i32(v: int) -> bool {
    i32::MIN <= v <= i32::MAX
}

/// The desktop-global position of point `p` of monitor `m`: `p` plus the
/// monitor's origin, where that fits in `i32`.
pub open spec fn local_to_global_spec(m: MonitorInfo, p: Point) -> Option<Point> {
    let gx = p.x + m.x;
    let gy = p.y + m.y;
    if fits_i32(gx) && fits_i32(gy) {
        Some(Point { x: gx as i32, y: gy as i32 })
    } else {
        None
    }
}

/// The position on monitor `m` of the desktop-global point `g`: `g` less
/// the monitor's origin, where that fits in `i32`.
pub open spec fn global_to_local_spec(m: MonitorInfo, g: Point) -> Option<Point> {
    let lx = g.x - m.x;
    let ly = g.y - m.y;
    if fits_i32(lx) && fits_i32(ly) {
        Some(Point { x: lx as i32, y: ly as i32 })
    } else {
        None
    }
}

/// Translates a point of a monitor to desktop-global coordinates.
pub fn local_to_global(m: &MonitorInfo, p: Point) -> (r: Option<Point>)
    ensures
        r == local_to_global_spec(*m, p),
{
    let gx = p.x as i64 + m.x as i64;
    let gy = p.y as i64 + m.y as i64;
    if i32::MIN as i64 <= gx && gx <= i32::MAX as i64 && i32::MIN as i64 <= gy && gy
        <= i32::MAX as i64 {
        Some(Point { x: gx as i32, y: gy as i32 })
    } else {
        None
    }
}

/// Translates a desktop-global point to the coordinates of a monitor.
pub fn global_to_local(m: &MonitorInfo, g: Point) -> (r: Option<Point>)
    ensures
        r == global_to_local_spec(*m, g),
{
    let lx = g.x as i64 - m.x as i64;
    let ly = g.y as i64 - m.y as i64;
    if i32::MIN as i64 <= lx && lx <= i32::MAX as i64 && i32::MIN as i64 <= ly && ly
        <= i32::MAX as i64 {
        Some(Point { x: lx as i32, y: ly as i32 })
    } else {
        None
    }
}

/// Translating a point of a monitor to the desktop and back gives the
/// point again, wherever the first translation fits in `i32`.
pub proof fn lemma_coordinate_round_trip(m: MonitorInfo, p: Point)
    requires
        local_to_global_spec(m, p) is Some,
    ensures
        global_to_local_spec(m, local_to_global_spec(m, p)->0) == Some(p),
{
}

/// Translating a desktop point to a monitor and back gives the point again,
/// wherever the first translation fits in `i32`.
pub proof fn lemma_coordinate_round_trip_global(m: MonitorInfo, g: Point)
    requires
        global_to_local_spec(m, g) is Some,
    ensures
        local_to_global_spec(m, global_to_local_spec(m, g)->0) == Some(g),
{
}

} // verus!

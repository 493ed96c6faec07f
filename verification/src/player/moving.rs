//! The shared payload of every travelling state, and the axis-aware
//! lifecycle that advances it.

use vstd::prelude::*;

use crate::geometry::Point;
use crate::player::timeout::{Lifecycle, Timeout, next_timeout_lifecycle, spec_next_timeout_lifecycle};

verus! {

/// Minimap coordinates stay far inside this bound, which keeps every
/// distance computation inside `i32`.
pub const COORD_BOUND: i32 = 1000000;

/// Whether a coordinate pair is inside the representable playing field.
pub open spec fn spec_point_in_range(p: Point) -> bool {
    -COORD_BOUND <= p.x <= COORD_BOUND && -COORD_BOUND <= p.y <= COORD_BOUND
}

/// The rest of a multi-hop route: the destination the route finally aims
/// at, while the `Moving` payload holds the current hop.
#[derive(Clone, Copy, Debug, PartialEq, Eq, Structural)]
pub struct Intermediates {
    /// The route's final destination.
    pub last_dest: Point,
}

/// The payload every travelling state carries: where the player was last
/// seen, where this leg is headed, and how long it has been underway.
#[derive(Clone, Copy, Debug, PartialEq, Eq, Structural)]
pub struct Moving {
    /// The player position as of the previous tick of this state.
    pub pos: Point,
    /// The destination of the current leg.
    pub dest: Point,
    /// Whether the destination must be matched exactly.
    pub exact: bool,
    /// Whether the travelling motion finished; the state keeps ticking
    /// until its timeout ends even after completion.
    pub completed: bool,
    /// The leg's timeout.
    pub timeout: Timeout,
    /// The rest of the route, when `dest` is only an intermediate hop.
    pub intermediates: Option<Intermediates>,
}

impl Moving {
    pub open spec fn spec_new(
        pos: Point,
        dest: Point,
        exact: bool,
        intermediates: Option<Intermediates>,
    ) -> Moving {
        Moving {
            pos,
            dest,
            exact,
            completed: false,
            timeout: Timeout::initial(),
            intermediates,
        }
    }

    pub fn new(pos: Point, dest: Point, exact: bool, intermediates: Option<Intermediates>) -> (r:
        Moving)
        ensures
            r == Moving::spec_new(pos, dest, exact, intermediates),
    {
        Moving {
            pos,
            dest,
            exact,
            completed: false,
            timeout: Timeout { started: false, current: 0, total: 0 },
            intermediates,
        }
    }

    /// The same leg with `completed` replaced.
    pub fn completed(self, completed: bool) -> (r: Moving)
        ensures
            r == (Moving { completed, ..self }),
    {
        Moving { completed, ..self }
    }

    /// All coordinates this leg mentions are inside the playing field.
    pub open spec fn spec_in_range(self) -> bool {
        &&& spec_point_in_range(self.pos)
        &&& spec_point_in_range(self.dest)
        &&& (self.intermediates matches Some(i) ==> spec_point_in_range(i.last_dest))
    }

    /// Whether the current destination is only an intermediate hop.
    pub fn is_destination_intermediate(&self) -> (r: bool)
        ensures
            r == (self.intermediates is Some),
    {
        self.intermediates.is_some()
    }

    /// The destination the caller asked about: the current hop, or the
    /// route's final destination.
    pub open spec fn spec_dest_of(self, current_destination: bool) -> Point {
        if current_destination {
            self.dest
        } else {
            match self.intermediates {
                Some(i) => i.last_dest,
                None => self.dest,
            }
        }
    }

    /// Horizontal distance and signed direction from `cur` to the
    /// destination: positive means the destination lies to the right.
    pub fn x_distance_direction_from(&self, current_destination: bool, cur: Point) -> (r: (
        i32,
        i32,
    ))
        requires
            self.spec_in_range(),
            spec_point_in_range(cur),
        ensures
            r.1 == self.spec_dest_of(current_destination).x - cur.x,
            r.0 == (if r.1 >= 0 {
                r.1 as int
            } else {
                -(r.1 as int)
            }),
    {
        let dest = if current_destination {
            self.dest
        } else {
            match self.intermediates {
                Some(i) => i.last_dest,
                None => self.dest,
            }
        };
        let direction = dest.x - cur.x;
        let distance = if direction >= 0 {
            direction
        } else {
            -direction
        };
        (distance, direction)
    }

    /// Vertical distance and signed direction from `cur` to the
    /// destination: positive means the destination lies above.
    pub fn y_distance_direction_from(&self, current_destination: bool, cur: Point) -> (r: (
        i32,
        i32,
    ))
        requires
            self.spec_in_range(),
            spec_point_in_range(cur),
        ensures
            r.1 == self.spec_dest_of(current_destination).y - cur.y,
            r.0 == (if r.1 >= 0 {
                r.1 as int
            } else {
                -(r.1 as int)
            }),
    {
        let dest = if current_destination {
            self.dest
        } else {
            match self.intermediates {
                Some(i) => i.last_dest,
                None => self.dest,
            }
        };
        let direction = dest.y - cur.y;
        let distance = if direction >= 0 {
            direction
        } else {
            -direction
        };
        (distance, direction)
    }
}

/// Which coordinate counts as progress for a travelling state's timeout.
#[derive(Clone, Copy, Debug, PartialEq, Eq, Structural)]
pub enum ChangeAxis {
    Horizontal,
    Vertical,
    Both,
}

/// How one advance of a travelling state's timeout is classified.
#[derive(Clone, Copy, Debug, PartialEq, Eq, Structural)]
pub enum MovingLifecycle {
    /// The leg just started; the payload now carries the fresh position.
    Started(Moving),
    /// The timeout ran out; the payload is returned as it was.
    Ended(Moving),
    /// An ordinary tick: position refreshed, counters advanced, and the
    /// no-progress counter reset if the tracked coordinate moved.
    Updated(Moving),
}

/// What [`next_moving_lifecycle_with_axis`] returns.
pub open spec fn spec_next_moving_lifecycle(
    moving: Moving,
    cur_pos: Point,
    max_timeout: u32,
    axis: ChangeAxis,
) -> MovingLifecycle {
    match spec_next_timeout_lifecycle(moving.timeout, max_timeout) {
        Lifecycle::Started(timeout) => MovingLifecycle::Started(
            Moving { pos: cur_pos, timeout, ..moving },
        ),
        Lifecycle::Ended => MovingLifecycle::Ended(moving),
        Lifecycle::Updated(timeout) => {
            let progressed = match axis {
                ChangeAxis::Horizontal => cur_pos.x != moving.pos.x,
                ChangeAxis::Vertical => cur_pos.y != moving.pos.y,
                ChangeAxis::Both => cur_pos.x != moving.pos.x || cur_pos.y != moving.pos.y,
            };
            let timeout = if progressed {
                Timeout { current: 0, ..timeout }
            } else {
                timeout
            };
            MovingLifecycle::Updated(Moving { pos: cur_pos, timeout, ..moving })
        },
    }
}

/// Advances a travelling state's timeout one tick, refreshing its recorded
/// position and resetting the no-progress counter whenever the coordinate
/// tracked by `axis` moved since the previous tick.
pub fn next_moving_lifecycle_with_axis(
    moving: Moving,
    cur_pos: Point,
    max_timeout: u32,
    axis: ChangeAxis,
) -> (r: MovingLifecycle)
    requires
        moving.timeout.started && moving.timeout.current < max_timeout ==> moving.timeout.total
            < u32::MAX,
    ensures
        r == spec_next_moving_lifecycle(moving, cur_pos, max_timeout, axis),
{
    match next_timeout_lifecycle(moving.timeout, max_timeout) {
        Lifecycle::Started(timeout) => MovingLifecycle::Started(
            Moving { pos: cur_pos, timeout, ..moving },
        ),
        Lifecycle::Ended => MovingLifecycle::Ended(moving),
        Lifecycle::Updated(timeout) => {
            let progressed = match axis {
                ChangeAxis::Horizontal => cur_pos.x != moving.pos.x,
                ChangeAxis::Vertical => cur_pos.y != moving.pos.y,
                ChangeAxis::Both => cur_pos.x != moving.pos.x || cur_pos.y != moving.pos.y,
            };
            let timeout = if progressed {
                Timeout { current: 0, ..timeout }
            } else {
                timeout
            };
            MovingLifecycle::Updated(Moving { pos: cur_pos, timeout, ..moving })
        },
    }
}

} // verus!

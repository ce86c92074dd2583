//! The geometry of every shape cast the pipeline asks of the physics
//! service, so the driver issues exactly the probes the contracts assume.

use vstd::prelude::*;
use crate::constants::{
    BOUNCE_PROBE_RISE, CAST_MAX_TOI, CEILING_SLIDE_PROBE_MARGIN, COORD_LIMIT,
    PLAYER_HALF_HEIGHT, PLAYER_HALF_WIDTH, PLAYER_MAXIMUM_STRETCH, SIDE_PROBE_OFFSET_X,
    SIDE_PROBE_RAISE, STRETCH_PROBE_HALF_WIDTH, STRETCH_PROBE_RISE, TICKS_PER_SECOND, UNIT,
};
use crate::math::{div_trunc, div_trunc_i64, Vec2Fx};
use crate::state::Velocity;

verus! {

/// Which colliders a cast may report.
#[derive(Clone, Copy, Debug, PartialEq, Eq, Structural)]
pub enum CastFilter {
    /// Only fixed (static) solid bodies; sensors are excluded.
    FixedSolids,
    /// Only sensors; solid bodies are excluded.
    SensorsOnly,
}

/// One swept-box query against the physics world: a box of `half_extents`
/// at `origin`, swept along `cast_velocity` up to `max_time_of_impact`
/// (per mille of the sweep).
#[derive(Clone, Copy, Debug, PartialEq, Eq, Structural)]
pub struct ShapeCast {
    pub origin: Vec2Fx,
    pub half_extents: Vec2Fx,
    pub cast_velocity: Vec2Fx,
    pub max_time_of_impact: i64,
    pub filter: CastFilter,
}

/// The wall probe of `horizontal_controls`: the player's box grown by half
/// the stretch, nudged a fraction toward the move, swept one unit sideways
/// against fixed solids.
pub fn side_probe(position: Vec2Fx, stretch: i64, toward_left: bool) -> (c: ShapeCast)
    requires
        position.in_range(),
        0 <= stretch <= PLAYER_MAXIMUM_STRETCH,
    ensures
        c.origin.x == position.x + (if toward_left {
            -SIDE_PROBE_OFFSET_X as int
        } else {
            SIDE_PROBE_OFFSET_X as int
        }),
        c.origin.y == position.y + div_trunc(stretch as int, 2) + SIDE_PROBE_RAISE,
        c.half_extents == (Vec2Fx {
            x: PLAYER_HALF_WIDTH,
            y: (PLAYER_HALF_HEIGHT + div_trunc(stretch as int, 2)) as i64,
        }),
        c.cast_velocity == (Vec2Fx { x: (if toward_left { -UNIT as int } else { UNIT as int }) as i64, y: 0 }),
        c.max_time_of_impact == CAST_MAX_TOI,
        c.filter is FixedSolids,
{
    let half_stretch = div_trunc_i64(stretch, 2);
    ShapeCast {
        origin: Vec2Fx {
            x: if toward_left {
                position.x - SIDE_PROBE_OFFSET_X
            } else {
                position.x + SIDE_PROBE_OFFSET_X
            },
            y: position.y + half_stretch + SIDE_PROBE_RAISE,
        },
        half_extents: Vec2Fx { x: PLAYER_HALF_WIDTH, y: PLAYER_HALF_HEIGHT + half_stretch },
        cast_velocity: Vec2Fx { x: if toward_left { -UNIT } else { UNIT }, y: 0 },
        max_time_of_impact: CAST_MAX_TOI,
        filter: CastFilter::FixedSolids,
    }
}

/// The probe of `horizontal_controls_on_ceiling`: the player's box swept
/// upward past the stretch to check the grabbed ceiling is still there.
pub fn ceiling_slide_probe(position: Vec2Fx, stretch: i64) -> (c: ShapeCast)
    requires
        position.in_range(),
        0 <= stretch <= PLAYER_MAXIMUM_STRETCH,
    ensures
        c.origin == position,
        c.half_extents == (Vec2Fx { x: PLAYER_HALF_WIDTH, y: PLAYER_HALF_HEIGHT }),
        c.cast_velocity == (Vec2Fx { x: 0, y: (stretch + CEILING_SLIDE_PROBE_MARGIN) as i64 }),
        c.max_time_of_impact == CAST_MAX_TOI,
        c.filter is FixedSolids,
{
    ShapeCast {
        origin: position,
        half_extents: Vec2Fx { x: PLAYER_HALF_WIDTH, y: PLAYER_HALF_HEIGHT },
        cast_velocity: Vec2Fx { x: 0, y: stretch + CEILING_SLIDE_PROBE_MARGIN },
        max_time_of_impact: CAST_MAX_TOI,
        filter: CastFilter::FixedSolids,
    }
}

/// The probe of `bounce_off_ceiling`: the player's box swept a short way
/// up.
pub fn bounce_probe(position: Vec2Fx) -> (c: ShapeCast)
    requires
        position.in_range(),
    ensures
        c.origin == position,
        c.half_extents == (Vec2Fx { x: PLAYER_HALF_WIDTH, y: PLAYER_HALF_HEIGHT }),
        c.cast_velocity == (Vec2Fx { x: 0, y: BOUNCE_PROBE_RISE }),
        c.max_time_of_impact == CAST_MAX_TOI,
        c.filter is FixedSolids,
{
    ShapeCast {
        origin: position,
        half_extents: Vec2Fx { x: PLAYER_HALF_WIDTH, y: PLAYER_HALF_HEIGHT },
        cast_velocity: Vec2Fx { x: 0, y: BOUNCE_PROBE_RISE },
        max_time_of_impact: CAST_MAX_TOI,
        filter: CastFilter::FixedSolids,
    }
}

/// The probe of `stretching_controls`: a slim box at the top of the
/// current stretch, swept one more unit up, to validate the next growth
/// step.
pub fn stretch_probe(position: Vec2Fx, stretch: i64) -> (c: ShapeCast)
    requires
        position.in_range(),
        0 <= stretch <= PLAYER_MAXIMUM_STRETCH,
    ensures
        c.origin == (Vec2Fx { x: position.x, y: (position.y + stretch) as i64 }),
        c.half_extents == (Vec2Fx { x: STRETCH_PROBE_HALF_WIDTH, y: PLAYER_HALF_HEIGHT }),
        c.cast_velocity == (Vec2Fx { x: 0, y: STRETCH_PROBE_RISE }),
        c.max_time_of_impact == CAST_MAX_TOI,
        c.filter is FixedSolids,
{
    ShapeCast {
        origin: Vec2Fx { x: position.x, y: position.y + stretch },
        half_extents: Vec2Fx { x: STRETCH_PROBE_HALF_WIDTH, y: PLAYER_HALF_HEIGHT },
        cast_velocity: Vec2Fx { x: 0, y: STRETCH_PROBE_RISE },
        max_time_of_impact: CAST_MAX_TOI,
        filter: CastFilter::FixedSolids,
    }
}

/// The probe of the interaction, checkpoint and hazard systems: the
/// player's box swept along this tick's velocity-scaled displacement,
/// against sensors only.
pub fn swept_sensor_probe(position: Vec2Fx, velocity: &Velocity) -> (c: ShapeCast)
    requires
        position.in_range(),
        -COORD_LIMIT <= velocity.current.x <= COORD_LIMIT,
        -COORD_LIMIT <= velocity.current.y <= COORD_LIMIT,
    ensures
        c.origin == position,
        c.half_extents == (Vec2Fx { x: PLAYER_HALF_WIDTH, y: PLAYER_HALF_HEIGHT }),
        c.cast_velocity == (Vec2Fx {
            x: div_trunc(velocity.current.x as int, TICKS_PER_SECOND as int) as i64,
            y: div_trunc(velocity.current.y as int, TICKS_PER_SECOND as int) as i64,
        }),
        c.max_time_of_impact == CAST_MAX_TOI,
        c.filter is SensorsOnly,
{
    ShapeCast {
        origin: position,
        half_extents: Vec2Fx { x: PLAYER_HALF_WIDTH, y: PLAYER_HALF_HEIGHT },
        cast_velocity: Vec2Fx {
            x: div_trunc_i64(velocity.current.x, TICKS_PER_SECOND),
            y: div_trunc_i64(velocity.current.y, TICKS_PER_SECOND),
        },
        max_time_of_impact: CAST_MAX_TOI,
        filter: CastFilter::SensorsOnly,
    }
}

} // verus!

use vstd::prelude::*;

verus! {

/// Half-width of the player's square footprint, used when clamping movement.
pub const PLAYER_HALF_EXTENT: i64 = 10;

/// Height above which a projectile has left the field of play.
pub const TRAVEL_LIMIT: i64 = 800;

/// The fixed parameters of a simulation. Both the player clamp and the
/// out-of-bounds cleanup use the same arena: `[-width/2, width/2]` by
/// `[-height/2, height/2]`, centred on the origin.
#[derive(Clone, Copy, Debug, PartialEq, Eq, Structural)]
pub struct Config {
    pub width: u32,
    pub height: u32,
    pub collision_radius: u32,
    /// Units per second along the positive vertical axis.
    pub projectile_speed: u32,
    pub movement_step: u32,
    pub launch_offset: u32,
}

impl Config {
    /// An arena has positive extents.
    pub open spec fn valid(self) -> bool {
        self.width > 0 && self.height > 0
    }

    pub open spec fn half_width(self) -> int {
        self.width as int / 2
    }

    pub open spec fn half_height(self) -> int {
        self.height as int / 2
    }

    /// A configuration, or `None` for an arena without area.
    pub fn new(
        width: u32,
        height: u32,
        collision_radius: u32,
        projectile_speed: u32,
        movement_step: u32,
        launch_offset: u32,
    ) -> (r: Option<Config>)
        ensures
            r == (if width > 0 && height > 0 {
                Some(
                    Config {
                        width,
                        height,
                        collision_radius,
                        projectile_speed,
                        movement_step,
                        launch_offset,
                    },
                )
            } else {
                None
            }),
    {
        if width > 0 && height > 0 {
            Some(
                Config {
                    width,
                    height,
                    collision_radius,
                    projectile_speed,
                    movement_step,
                    launch_offset,
                },
            )
        } else {
            None
        }
    }

    /// The game's own setting: a 1200 by 800 arena, collisions within 25
    /// units, projectiles at 300 units per second launched 50 units above the
    /// player, who moves 10 units per step.
    pub fn standard() -> (r: Config)
        ensures
            r == (Config {
                width: 1200,
                height: 800,
                collision_radius: 25,
                projectile_speed: 300,
                movement_step: 10,
                launch_offset: 50,
            }),
            r.valid(),
    {
        Config {
            width: 1200,
            height: 800,
            collision_radius: 25,
            projectile_speed: 300,
            movement_step: 10,
            launch_offset: 50,
        }
    }

    pub fn half_width_exec(&self) -> (r: i64)
        ensures
            r == self.half_width(),
    {
        (self.width / 2) as i64
    }

    pub fn half_height_exec(&self) -> (r: i64)
        ensures
            r == self.half_height(),
    {
        (self.height / 2) as i64
    }
}

} // verus!

//! The configuration of a run, and the errors that reject one.

use vstd::prelude::*;

verus! {

/// The duration that stands for "no time limit".
pub const UNLIMITED: i32 = -1;

/// Why a shape or a configuration was refused.
#[derive(Clone, Copy, Debug, PartialEq, Eq, Structural)]
pub enum ConfigError {
    /// A shape takes exactly three parameters; `given` were handed in.
    InvalidParameters { given: usize },
    /// The number of steps across the line exceeds the number of columns.
    ResolutionExceedsWidth { resolution: usize, terminal_width: usize },
}

/// The settings of one run. They do not change while it lasts.
#[derive(Clone, Copy, Debug)]
pub struct AnimationConfig {
    /// Number of points in the trail; a run needs at least one.
    pub points: u8,
    /// Frames per second.
    pub velocity: u32,
    /// Seconds to run, or [`UNLIMITED`].
    pub total_time: i32,
    /// Columns of the line that a frame is drawn onto.
    pub terminal_width: usize,
    /// Steps that a point takes across the width of the line.
    pub resolution: usize,
}

impl AnimationConfig {
    /// A configuration may run when its resolution does not exceed its width.
    pub open spec fn valid(&self) -> bool {
        self.resolution <= self.terminal_width
    }

    /// Whether the run ends when its time is up: it does unless the duration
    /// is [`UNLIMITED`].
    pub open spec fn spec_is_timed(&self) -> bool {
        self.total_time != UNLIMITED
    }

    /// The error that [`AnimationConfig::validate`] gives for a configuration
    /// that is not valid.
    pub open spec fn rejection(&self) -> ConfigError {
        ConfigError::ResolutionExceedsWidth {
            resolution: self.resolution,
            terminal_width: self.terminal_width,
        }
    }

    /// The configuration with the given settings, unless they are refused:
    /// the resolution must not exceed the width.
    pub fn new(
        points: u8,
        velocity: u32,
        total_time: i32,
        terminal_width: usize,
        resolution: usize,
    ) -> (made: Result<Self, ConfigError>)
        ensures
            made is Ok <==> resolution <= terminal_width,
            made matches Ok(config) ==> config == (AnimationConfig {
                points,
                velocity,
                total_time,
                terminal_width,
                resolution,
            }) && config.valid(),
            made matches Err(e) ==> e == (ConfigError::ResolutionExceedsWidth {
                resolution,
                terminal_width,
            }),
    {
        let config = AnimationConfig { points, velocity, total_time, terminal_width, resolution };
        match config.validate() {
            Ok(()) => Ok(config),
            Err(e) => Err(e),
        }
    }

    /// Whether the run ends when its time is up.
    #[verifier::when_used_as_spec(spec_is_timed)]
    pub fn is_timed(&self) -> (timed: bool)
        ensures
            timed == self.spec_is_timed(),
    {
        self.total_time != UNLIMITED
    }

    /// Accepts a configuration that may run and refuses any other.
    pub fn validate(&self) -> (checked: Result<(), ConfigError>)
        ensures
            checked is Ok <==> self.valid(),
            checked is Err ==> checked == Err::<(), ConfigError>(self.rejection()),
    {
        if self.resolution > self.terminal_width {
            Err(
                ConfigError::ResolutionExceedsWidth {
                    resolution: self.resolution,
                    terminal_width: self.terminal_width,
                },
            )
        } else {
            Ok(())
        }
    }
}

impl Default for AnimationConfig {
    /// Two points at fifty frames a second, without a time limit, seventy
    /// steps across a line of a hundred columns.
    fn default() -> (config: Self)
        ensures
            config.points == 2,
            config.velocity == 50,
            config.total_time == UNLIMITED,
            config.terminal_width == 100,
            config.resolution == 70,
            config.valid(),
    {
        AnimationConfig {
            velocity: 50,
            total_time: UNLIMITED,
            points: 2,
            terminal_width: 100,
            resolution: 70,
        }
    }
}

} // verus!

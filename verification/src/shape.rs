//! A curve of the ellipse family together with the configuration of its run.

use vstd::prelude::*;
use crate::animation::{Animation, AnimationView};
use crate::config::{AnimationConfig, ConfigError};

verus! {

/// An ellipse-shaped curve and the settings with which it is animated.
///
/// The curve lives over the index axis from zero to `x_offset`; `y_offset`
/// scales it along the render axis, which runs from zero to twice `y_offset`;
/// `constant` is its shape coefficient, one for a plain ellipse. `C` is the
/// type of a coordinate, and the caller's arithmetic gives the three their
/// meaning.
pub struct Ellipse<C> {
    pub x_offset: C,
    pub y_offset: C,
    pub constant: C,
    pub config: AnimationConfig,
}

impl<C: Copy> Ellipse<C> {
    /// The curve with the given parameters and the default configuration.
    pub fn new(x_offset: C, y_offset: C, constant: C) -> (shape: Self)
        ensures
            shape.x_offset == x_offset,
            shape.y_offset == y_offset,
            shape.constant == constant,
            shape.config.points == 2,
            shape.config.velocity == 50,
            shape.config.total_time == crate::config::UNLIMITED,
            shape.config.terminal_width == 100,
            shape.config.resolution == 70,
    {
        Ellipse { x_offset, y_offset, constant, config: AnimationConfig::default() }
    }

    /// Sets the three parameters of the curve from a list that holds
    /// `x_offset`, `y_offset` and `constant` in this order. A list of any
    /// other length is refused, and the curve stays as it was.
    pub fn params(&mut self, params: Vec<C>) -> (set: Result<&mut Self, ConfigError>)
        ensures
            set is Ok <==> params.len() == 3,
            match set {
                Ok(shape) => *shape == (Ellipse {
                    x_offset: params[0],
                    y_offset: params[1],
                    constant: params[2],
                    config: old(self).config,
                }) && *final(self) == *final(shape),
                Err(e) => e == (ConfigError::InvalidParameters { given: params.len() })
                    && *final(self) == *old(self),
            },
    {
        if params.len() != 3 {
            return Err(ConfigError::InvalidParameters { given: params.len() });
        }
        self.x_offset = params[0];
        self.y_offset = params[1];
        self.constant = params[2];
        Ok(self)
    }

    /// Sets the number of columns of the line.
    pub fn width(&mut self, terminal_width: usize) -> (shape: &mut Self)
        ensures
            *shape == (Ellipse {
                config: (AnimationConfig { terminal_width, ..old(self).config }),
                ..*old(self)
            }),
            *final(self) == *final(shape),
    {
        self.config.terminal_width = terminal_width;
        self
    }

    /// Sets the number of frames per second.
    pub fn velocity(&mut self, velocity: u32) -> (shape: &mut Self)
        ensures
            *shape == (Ellipse {
                config: (AnimationConfig { velocity, ..old(self).config }),
                ..*old(self)
            }),
            *final(self) == *final(shape),
    {
        self.config.velocity = velocity;
        self
    }

    /// Sets the number of steps that a point takes across the line. More
    /// steps than the line has columns are refused, and the configuration
    /// stays as it was.
    pub fn resolution(&mut self, resolution: usize) -> (set: Result<&mut Self, ConfigError>)
        ensures
            set is Ok <==> resolution <= old(self).config.terminal_width,
            match set {
                Ok(shape) => *shape == (Ellipse {
                    config: (AnimationConfig { resolution, ..old(self).config }),
                    ..*old(self)
                }) && *final(self) == *final(shape),
                Err(e) => e == (ConfigError::ResolutionExceedsWidth {
                    resolution,
                    terminal_width: old(self).config.terminal_width,
                }) && *final(self) == *old(self),
            },
    {
        if resolution > self.config.terminal_width {
            return Err(
                ConfigError::ResolutionExceedsWidth {
                    resolution,
                    terminal_width: self.config.terminal_width,
                },
            );
        }
        self.config.resolution = resolution;
        Ok(self)
    }

    /// Sets the number of points in the trail.
    pub fn points(&mut self, points: u8) -> (shape: &mut Self)
        ensures
            *shape == (Ellipse {
                config: (AnimationConfig { points, ..old(self).config }),
                ..*old(self)
            }),
            *final(self) == *final(shape),
    {
        self.config.points = points;
        self
    }

    /// Sets the duration of the run in seconds;
    /// [`UNLIMITED`](crate::config::UNLIMITED) lets it run without end.
    pub fn total_time(&mut self, total_time: i32) -> (shape: &mut Self)
        ensures
            *shape == (Ellipse {
                config: (AnimationConfig { total_time, ..old(self).config }),
                ..*old(self)
            }),
            *final(self) == *final(shape),
    {
        self.config.total_time = total_time;
        self
    }

    /// Replaces the whole configuration.
    pub fn config(&mut self, config: AnimationConfig) -> (shape: &mut Self)
        ensures
            *shape == (Ellipse { config, ..*old(self) }),
            *final(self) == *final(shape),
    {
        self.config = config;
        self
    }

    /// Sets up the run of this curve's animation, every point at rest at
    /// `origin`, the caller's zero coordinate. The configuration is checked
    /// here, once, before the first frame: one whose resolution exceeds its
    /// width is refused.
    pub fn start_animation(&self, origin: C) -> (started: Result<Animation<C>, ConfigError>)
        requires
            self.config.points >= 1,
        ensures
            started is Ok <==> self.config.valid(),
            started matches Ok(run) ==> run@ == AnimationView::initial(self.config, origin),
            started matches Err(e) ==> e == self.config.rejection(),
    {
        Animation::new(self.config, origin)
    }
}

} // verus!

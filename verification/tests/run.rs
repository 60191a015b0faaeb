use animations::{Animation, AnimationConfig, Ellipse, Phase, Point, Sign, Step};

fn config(points: u8, velocity: u32, total_time: i32) -> AnimationConfig {
    AnimationConfig { points, velocity, total_time, terminal_width: 100, resolution: 70 }
}

#[test]
fn validating_constructor_takes_settings_that_may_run() {
    let config = match AnimationConfig::new(3, 25, 60, 150, 150) {
        Ok(config) => config,
        Err(e) => panic!("a valid configuration was refused: {:?}", e),
    };
    assert_eq!(config.points, 3);
    assert_eq!(config.velocity, 25);
    assert_eq!(config.total_time, 60);
    assert_eq!(config.terminal_width, 150);
    assert_eq!(config.resolution, 150);
}

#[test]
fn validating_constructor_refuses_resolution_above_width() {
    let refused = AnimationConfig::new(1, 50, -1, 10, 50).err();
    assert_eq!(
        refused,
        Some(animations::ConfigError::ResolutionExceedsWidth { resolution: 50, terminal_width: 10 })
    );
}

fn started(points: u8, velocity: u32, total_time: i32) -> Animation<f32> {
    match Animation::new(config(points, velocity, total_time), 0.0f32) {
        Ok(run) => run,
        Err(e) => panic!("a valid configuration was refused: {:?}", e),
    }
}

#[test]
fn run_sets_out_going_with_every_point_at_rest() {
    let run = started(3, 50, -1);
    assert_eq!(run.phase(), Phase::Running);
    assert_eq!(run.reversal(), Sign::Minus);
    assert_eq!(run.points().len(), 3);
    for p in run.points() {
        assert_eq!(p.x_index, 0.0);
        assert_eq!(p.x_pos, 0.0);
        assert_eq!(p.direction, Sign::Plus);
    }
    assert_eq!(run.config().points, 3);
    assert_eq!(run.config().velocity, 50);
}

#[test]
fn run_is_refused_for_an_invalid_configuration() {
    let bad = AnimationConfig {
        points: 1,
        velocity: 50,
        total_time: -1,
        terminal_width: 10,
        resolution: 50,
    };
    assert!(Animation::new(bad, 0.0f32).is_err());
}

#[test]
fn first_frame_flips_the_reversal_sign() {
    let mut run = started(1, 50, -1);
    // Every point rests at render position zero, an end of the render axis.
    let step = run.begin_frame(false, true);
    assert_eq!(step, Step::Draw { reversal: Sign::Plus });
    assert_eq!(run.reversal(), Sign::Plus);
    assert_eq!(run.phase(), Phase::Running);
}

#[test]
fn point_at_zero_is_drawn_at_render_position_zero() {
    let mut shape = Ellipse::new(75.0f32, 50.0f32, 1.0f32);
    shape.points(1);
    let mut run = match shape.start_animation(0.0) {
        Ok(run) => run,
        Err(e) => panic!("a valid configuration was refused: {:?}", e),
    };
    let reversal = match run.begin_frame(false, true) {
        Step::Draw { reversal } => reversal,
        Step::Halt => panic!("a run without a time limit halted"),
    };
    let point = run.last();
    let direction = point.heading(point.x_index >= shape.x_offset, point.x_index <= 0.0);
    assert_eq!(direction.value(), 1);
    assert_eq!(reversal.value(), 1);
    // The curve at the point's index, with the signs that the library gave.
    let ratio = point.x_index / shape.x_offset;
    let radius = f32::sqrt(shape.constant - ratio * ratio);
    let render_position =
        (1.0 - (direction.value() as f32) * radius * (reversal.value() as f32)) * shape.y_offset;
    assert_eq!(ratio, 0.0);
    assert_eq!(radius, 1.0);
    assert_eq!(render_position, 0.0);
}

#[test]
fn frame_away_from_the_ends_keeps_the_reversal_sign() {
    let mut run = started(1, 50, -1);
    assert_eq!(run.begin_frame(false, false), Step::Draw { reversal: Sign::Minus });
    assert_eq!(run.begin_frame(false, true), Step::Draw { reversal: Sign::Plus });
    assert_eq!(run.begin_frame(false, false), Step::Draw { reversal: Sign::Plus });
    assert_eq!(run.begin_frame(false, true), Step::Draw { reversal: Sign::Minus });
}

#[test]
fn unlimited_run_never_halts() {
    let mut run = started(2, 50, -1);
    for frame in 0..1000 {
        let step = run.begin_frame(true, frame % 7 == 0);
        assert!(matches!(step, Step::Draw { .. }));
        assert_eq!(run.phase(), Phase::Running);
    }
}

#[test]
fn timed_run_halts_once_the_time_is_up() {
    let mut run = started(2, 50, 3);
    assert!(matches!(run.begin_frame(false, false), Step::Draw { .. }));
    assert!(matches!(run.begin_frame(false, false), Step::Draw { .. }));
    assert_eq!(run.begin_frame(true, false), Step::Halt);
    assert_eq!(run.phase(), Phase::Stopped);
}

#[test]
fn halting_does_not_turn_the_run_round() {
    let mut run = started(2, 50, 3);
    assert_eq!(run.begin_frame(true, true), Step::Halt);
    assert_eq!(run.reversal(), Sign::Minus);
}

#[test]
fn stopped_run_stays_stopped() {
    let mut run = started(2, 50, 0);
    assert_eq!(run.begin_frame(true, false), Step::Halt);
    for _ in 0..10 {
        assert_eq!(run.begin_frame(false, true), Step::Halt);
        assert_eq!(run.phase(), Phase::Stopped);
        assert_eq!(run.reversal(), Sign::Minus);
    }
}

#[test]
fn negative_duration_other_than_minus_one_is_a_limit() {
    let mut run = started(1, 50, -5);
    // No time has run yet, and that is already more than the limit.
    let elapsed = 0.0f32;
    let step = run.begin_frame(elapsed > -5.0, true);
    assert_eq!(step, Step::Halt);
}

#[test]
fn render_moves_the_trail_on() {
    let mut run = started(3, 50, -1);
    assert!(matches!(run.begin_frame(false, true), Step::Draw { .. }));
    run.render(Point { x_index: 1.5, x_pos: 7.0, direction: Sign::Plus });
    assert_eq!(run.points().len(), 3);
    assert_eq!(run.points()[0].x_index, 0.0);
    assert_eq!(run.points()[1].x_index, 0.0);
    assert_eq!(run.points()[2].x_index, 1.5);
    assert_eq!(run.last().x_index, 1.5);
    assert_eq!(run.last().x_pos, 7.0);
    run.render(Point { x_index: 3.0, x_pos: 9.0, direction: Sign::Plus });
    run.render(Point { x_index: 4.5, x_pos: 11.0, direction: Sign::Minus });
    let indices: Vec<f32> = run.points().iter().map(|p| p.x_index).collect();
    assert_eq!(indices, vec![1.5, 3.0, 4.5]);
    assert_eq!(run.last().direction, Sign::Minus);
}

#[test]
fn trail_length_is_the_point_count_in_every_frame() {
    for points in [1u8, 2, 5, 255] {
        let mut run = started(points, 50, -1);
        for frame in 0..20 {
            assert!(matches!(run.begin_frame(false, frame == 0), Step::Draw { .. }));
            let last = run.last();
            let d = last.heading(false, last.x_index <= 0.0);
            run.render(Point { x_index: last.x_index + 1.0, x_pos: last.x_pos, direction: d });
            assert_eq!(run.points().len(), points as usize);
        }
    }
}

#[test]
fn run_of_one_second_at_ten_frames_a_second_draws_ten_frames() {
    let mut shape = Ellipse::new(75.0f32, 50.0f32, 1.0f32);
    shape.points(1).velocity(10).total_time(1);
    let mut run = match shape.start_animation(0.0) {
        Ok(run) => run,
        Err(e) => panic!("a valid configuration was refused: {:?}", e),
    };
    let time_offset = 1.0f32 / (shape.config.velocity as f32);
    let mut elapsed = 0.0f32;
    let mut drawn = 0;
    loop {
        let time_exceeded = elapsed > shape.config.total_time as f32;
        match run.begin_frame(time_exceeded, false) {
            Step::Halt => break,
            Step::Draw { .. } => {
                let last = run.last();
                run.render(last);
                drawn += 1;
                elapsed += time_offset;
            },
        }
        assert!(drawn <= 11);
    }
    assert_eq!(drawn, 10);
    assert_eq!(run.phase(), Phase::Stopped);
}

#[test]
fn run_bounces_between_the_bounds_and_draws_each_frame() {
    let mut shape = Ellipse::new(4.0f32, 5.0f32, 1.0f32);
    shape.width(10).points(2);
    assert!(shape.resolution(10).is_ok());
    let mut run = match shape.start_animation(0.0) {
        Ok(run) => run,
        Err(e) => panic!("a valid configuration was refused: {:?}", e),
    };
    let mut lines = Vec::new();
    let mut directions = Vec::new();
    for _ in 0..10 {
        let step = run.begin_frame(false, false);
        assert!(matches!(step, Step::Draw { .. }));
        let last = run.last();
        let d = last.heading(last.x_index >= shape.x_offset, last.x_index <= 0.0);
        let x = last.x_index + d.value() as f32;
        let x = animations::clamp_index(x, 0.0, shape.x_offset, x > shape.x_offset, x < 0.0);
        // The index itself stands in for the render position here.
        run.render(Point { x_index: x, x_pos: 2.0 * x, direction: d });
        directions.push(d.value());
        let columns: Vec<usize> = run.points().iter().map(|p| p.x_pos as usize).collect();
        lines.push(animations::rasterize(&columns, shape.config.terminal_width));
    }
    assert_eq!(directions, vec![1, 1, 1, 1, -1, -1, -1, -1, 1, 1]);
    assert_eq!(
        lines,
        vec![
            "* *       ",
            "  * *     ",
            "    * *   ",
            "      * * ",
            "      * * ",
            "    * *   ",
            "  * *     ",
            "* *       ",
            "* *       ",
            "  * *     ",
        ]
    );
}

use termrain::color::ColorName;
use termrain::config::{ColorStyle, EngineConfig};
use termrain::engine::{DrawCmd, Engine, Particle, Phase, SpawnRolls, Viewport};

fn quiet_config() -> EngineConfig {
    EngineConfig {
        base_speed_milli: 1200,
        dir_milli: 0,
        spawn_prob_milli: 10,
        palette: vec!['*'],
        grounded_life_ms: 10000,
        style: ColorStyle::Unset,
        bold: false,
        continuity: false,
        frame_ms: 25,
    }
}

fn fixed_rolls() -> SpawnRolls {
    SpawnRolls {
        spawn_roll: 0,
        x_cell: 10,
        speed_jitter: 1000,
        drift_jitter: 1000,
        glyph_index: 0,
    }
}

fn viewport_80x24() -> Viewport {
    Viewport { cols: 80, rows: 24 }
}

#[test]
fn spawn_creates_exactly_when_roll_below_probability() {
    let mut cfg = quiet_config();
    cfg.spawn_prob_milli = 500;
    let mut engine = Engine::new(cfg, viewport_80x24());

    let mut rolls = fixed_rolls();
    rolls.spawn_roll = 499;
    engine.spawn(&rolls);
    assert_eq!(engine.particles.len(), 1);

    rolls.spawn_roll = 500;
    engine.spawn(&rolls);
    assert_eq!(engine.particles.len(), 1);

    rolls.spawn_roll = 0;
    engine.spawn(&rolls);
    assert_eq!(engine.particles.len(), 2);
}

#[test]
fn spawned_particle_starts_on_top_row_with_jittered_speed() {
    let mut cfg = quiet_config();
    cfg.spawn_prob_milli = 1000;
    cfg.dir_milli = 500;
    let mut engine = Engine::new(cfg, viewport_80x24());
    let mut rolls = fixed_rolls();
    rolls.x_cell = 7;
    rolls.speed_jitter = 1100;
    rolls.drift_jitter = 900;
    engine.spawn(&rolls);
    let p = engine.particles[0];
    assert_eq!(p.x_milli, 7000);
    assert_eq!(p.y_milli, 0);
    // 1200 * 1100 / 1000
    assert_eq!(p.speed_milli, 1320);
    // 500 * 1320 * 900 / 1000000
    assert_eq!(p.dx_milli, 594);
    assert_eq!(p.glyph, '*');
    assert!(matches!(p.phase, Phase::Falling));
}

#[test]
fn drift_left_is_negative() {
    let mut cfg = quiet_config();
    cfg.spawn_prob_milli = 1000;
    cfg.dir_milli = -500;
    let mut engine = Engine::new(cfg, viewport_80x24());
    engine.spawn(&fixed_rolls());
    // 500 * 1200 * 1000 / 1000000
    assert_eq!(engine.particles[0].dx_milli, -600);
}

#[test]
fn wrap_off_left_edge_reappears_on_rightmost_column() {
    let mut engine = Engine::new(quiet_config(), viewport_80x24());
    engine.particles.push(Particle {
        x_milli: 200,
        y_milli: 5000,
        speed_milli: 1000,
        dx_milli: -600,
        glyph: '*',
        phase: Phase::Falling,
    });
    engine.integrate(0);
    assert_eq!(engine.particles[0].x_milli, 79000);
    assert_eq!(engine.particles[0].y_milli, 6000);
}

#[test]
fn wrap_off_right_edge_reappears_on_leftmost_column() {
    let mut engine = Engine::new(quiet_config(), viewport_80x24());
    engine.particles.push(Particle {
        x_milli: 79900,
        y_milli: 5000,
        speed_milli: 1000,
        dx_milli: 600,
        glyph: '*',
        phase: Phase::Falling,
    });
    engine.integrate(0);
    assert_eq!(engine.particles[0].x_milli, 0);
}

#[test]
fn floor_clamps_to_bottom_row_and_grounds() {
    let mut engine = Engine::new(quiet_config(), viewport_80x24());
    engine.particles.push(Particle {
        x_milli: 5000,
        y_milli: 23500,
        speed_milli: 1200,
        dx_milli: 0,
        glyph: '*',
        phase: Phase::Falling,
    });
    engine.integrate(42);
    let p = engine.particles[0];
    assert_eq!(p.y_milli, 23000);
    assert!(matches!(p.phase, Phase::Grounded(42)));
}

#[test]
fn grounded_particle_does_not_move() {
    let mut engine = Engine::new(quiet_config(), viewport_80x24());
    engine.particles.push(Particle {
        x_milli: 5000,
        y_milli: 23000,
        speed_milli: 1200,
        dx_milli: 600,
        glyph: '*',
        phase: Phase::Grounded(1),
    });
    engine.integrate(2);
    let p = engine.particles[0];
    assert_eq!(p.x_milli, 5000);
    assert_eq!(p.y_milli, 23000);
    assert!(matches!(p.phase, Phase::Grounded(1)));
}

#[test]
fn grounded_particle_survives_until_lifetime_and_not_longer() {
    let mut cfg = quiet_config();
    cfg.grounded_life_ms = 500;
    let grounded = Particle {
        x_milli: 5000,
        y_milli: 23000,
        speed_milli: 1200,
        dx_milli: 0,
        glyph: '*',
        phase: Phase::Grounded(1000),
    };

    let mut engine = Engine::new(cfg, viewport_80x24());
    engine.particles.push(grounded);
    engine.prune(1500);
    assert_eq!(engine.particles.len(), 1);

    engine.prune(1501);
    assert_eq!(engine.particles.len(), 0);
}

#[test]
fn prune_twice_keeps_the_same_survivors() {
    let mut cfg = quiet_config();
    cfg.grounded_life_ms = 500;
    let mut engine = Engine::new(cfg, viewport_80x24());
    engine.particles.push(Particle {
        x_milli: 1000,
        y_milli: 9000,
        speed_milli: 1000,
        dx_milli: 0,
        glyph: '*',
        phase: Phase::Falling,
    });
    engine.particles.push(Particle {
        x_milli: 2000,
        y_milli: 23000,
        speed_milli: 1000,
        dx_milli: 0,
        glyph: '*',
        phase: Phase::Grounded(100),
    });
    engine.particles.push(Particle {
        x_milli: 3000,
        y_milli: 23000,
        speed_milli: 1000,
        dx_milli: 0,
        glyph: '*',
        phase: Phase::Grounded(900),
    });
    engine.prune(1000);
    let first: Vec<Particle> = engine.particles.clone();
    engine.prune(1000);
    assert_eq!(engine.particles.len(), first.len());
    for (a, b) in engine.particles.iter().zip(first.iter()) {
        assert_eq!(a, b);
    }
}

#[test]
fn single_glyph_rain_grounds_after_twenty_ticks() {
    // Viewport 80x24, certain spawn, no drift, single '*' glyph, speed 1.2
    // cells per tick: the first particle grounds on tick ceil(24 / 1.2) = 20.
    let mut cfg = quiet_config();
    cfg.spawn_prob_milli = 1000;
    let mut engine = Engine::new(cfg, viewport_80x24());
    let rolls = fixed_rolls();

    engine.frame(&rolls, 1);
    assert_eq!(engine.particles.len(), 1);
    assert_eq!(engine.particles[0].y_milli, 1200);
    assert!(matches!(engine.particles[0].phase, Phase::Falling));

    for t in 2..=19u64 {
        engine.frame(&rolls, t);
        assert!(matches!(engine.particles[0].phase, Phase::Falling));
        assert_eq!(engine.particles[0].y_milli, 1200 * t);
    }

    engine.frame(&rolls, 20);
    assert!(matches!(engine.particles[0].phase, Phase::Grounded(20)));
    assert_eq!(engine.particles[0].y_milli, 23000);
}

#[test]
fn continuity_mode_removes_floor_crossers_on_the_next_prune() {
    let mut cfg = quiet_config();
    cfg.continuity = true;
    let mut engine = Engine::new(cfg, viewport_80x24());
    engine.particles.push(Particle {
        x_milli: 5000,
        y_milli: 23500,
        speed_milli: 1200,
        dx_milli: 0,
        glyph: '*',
        phase: Phase::Falling,
    });
    let mut rolls = fixed_rolls();
    rolls.spawn_roll = 999;  // above the spawn probability: no new particle
    engine.frame(&rolls, 7);
    assert_eq!(engine.particles.len(), 0);
}

#[test]
fn render_rounds_and_clamps_to_cells() {
    let mut engine = Engine::new(quiet_config(), viewport_80x24());
    engine.particles.push(Particle {
        x_milli: 499,
        y_milli: 500,
        speed_milli: 1000,
        dx_milli: 0,
        glyph: 'o',
        phase: Phase::Falling,
    });
    engine.particles.push(Particle {
        x_milli: 79999,
        y_milli: 23000,
        speed_milli: 1000,
        dx_milli: 0,
        glyph: '|',
        phase: Phase::Grounded(0),
    });
    let cmds = engine.render();
    assert_eq!(cmds.len(), 2);
    assert_eq!(cmds[0].col, 0);
    assert_eq!(cmds[0].row, 1);
    assert_eq!(cmds[0].glyph, 'o');
    assert_eq!(cmds[0].color, None);
    assert!(!cmds[0].bold);
    // 79999 rounds up to 80 and is clamped to the last column.
    assert_eq!(cmds[1].col, 79);
    assert_eq!(cmds[1].row, 23);
}

#[test]
fn render_applies_fixed_color_and_bold() {
    let mut cfg = quiet_config();
    cfg.style = ColorStyle::Fixed(ColorName::Red);
    cfg.bold = true;
    let mut engine = Engine::new(cfg, viewport_80x24());
    engine.particles.push(Particle {
        x_milli: 1000,
        y_milli: 1000,
        speed_milli: 1000,
        dx_milli: 0,
        glyph: '*',
        phase: Phase::Falling,
    });
    let cmds = engine.render();
    assert_eq!(cmds[0].color, Some(ColorName::Red));
    assert!(cmds[0].bold);
}

#[test]
fn render_gradient_shows_top_color_on_the_top_row() {
    let mut cfg = quiet_config();
    cfg.style = ColorStyle::Gradient(ColorName::Blue, ColorName::White);
    let mut engine = Engine::new(cfg, viewport_80x24());
    engine.particles.push(Particle {
        x_milli: 1000,
        y_milli: 0,
        speed_milli: 1000,
        dx_milli: 0,
        glyph: '*',
        phase: Phase::Falling,
    });
    let cmds = engine.render();
    assert_eq!(cmds[0].color, Some(ColorName::Rgb(0, 0, 255)));
}

#[test]
fn render_gradient_blends_monotonically_towards_the_floor() {
    let mut cfg = quiet_config();
    cfg.style = ColorStyle::Gradient(ColorName::Blue, ColorName::White);
    let mut engine = Engine::new(cfg, viewport_80x24());
    for y in [0u64, 6000, 12000, 18000, 23000] {
        engine.particles.push(Particle {
            x_milli: 1000,
            y_milli: y,
            speed_milli: 1000,
            dx_milli: 0,
            glyph: '*',
            phase: Phase::Falling,
        });
    }
    let cmds = engine.render();
    let mut last_red = 0u8;
    for cmd in &cmds {
        match cmd.color {
            Some(ColorName::Rgb(r, _, b)) => {
                assert!(r >= last_red);
                assert_eq!(b, 255);
                last_red = r;
            }
            other => panic!("expected a gradient color, got {:?}", other),
        }
    }
    // Halfway down: 255 * 12000 / 24000, rounded down.
    assert_eq!(cmds[2].color, Some(ColorName::Rgb(127, 127, 255)));
}

#[test]
fn random_frame_spawns_when_probability_is_certain() {
    let mut cfg = quiet_config();
    cfg.spawn_prob_milli = 1000;
    let mut engine = Engine::new(cfg, viewport_80x24());
    let cmds = engine.frame_random(1);
    assert_eq!(engine.particles.len(), 1);
    assert_eq!(cmds.len(), 1);
    let p = engine.particles[0];
    assert!(p.x_milli < 80000);
    assert!(matches!(p.phase, Phase::Falling));
    // base 1200 with jitter in [0.8, 1.35)
    assert!(p.speed_milli >= 960 && p.speed_milli < 1620);
    assert_eq!(p.dx_milli, 0);
    assert_eq!(p.glyph, '*');
}

#[test]
fn random_frame_never_spawns_more_than_one() {
    let mut cfg = quiet_config();
    cfg.spawn_prob_milli = 980;
    let mut engine = Engine::new(cfg, viewport_80x24());
    for t in 0..50u64 {
        let before = engine.particles.len();
        engine.frame_random(t);
        assert!(engine.particles.len() <= before + 1);
    }
}

#[test]
fn draw_commands_match_particles_one_to_one() {
    let mut cfg = quiet_config();
    cfg.spawn_prob_milli = 1000;
    let mut engine = Engine::new(cfg, viewport_80x24());
    let rolls = fixed_rolls();
    let mut cmds: Vec<DrawCmd> = Vec::new();
    for t in 1..=5u64 {
        cmds = engine.frame(&rolls, t);
    }
    assert_eq!(cmds.len(), engine.particles.len());
}

use snowfall::config::{Config, SpawnModel};
use snowfall::motion::{remove_off_screen, update_positions};
use snowfall::particle::Particle;
use snowfall::render::{render_frame, DrawOp};
use snowfall::rng::RandomSource;
use snowfall::sim::Simulation;
use snowfall::spawn::{spawn_snowballs, SpawnTimer};

fn particle(x_micro: i64, y_micro: i64, vy_milli: i64) -> Particle {
    Particle { x_micro, y_micro, vx_milli: 0, vy_milli, glyph: '*' }
}

fn config(model: SpawnModel, spawn_interval_ms: u64) -> Config {
    Config::new(80, 24, spawn_interval_ms, 1000, model, 24000, 1000, '*').unwrap()
}

#[test]
fn particle_new_sits_on_the_top_row() {
    let p = Particle::new(5_250_000, 2000, '#');
    assert_eq!(p.x_micro, 5_250_000);
    assert_eq!(p.y_micro, 0);
    assert_eq!(p.vx_milli, 0);
    assert_eq!(p.vy_milli, 2000);
    assert_eq!(p.glyph, '#');
}

#[test]
fn spawner_gated_within_interval_leaves_count_unchanged() {
    let c = config(SpawnModel::BernoulliCluster { chance_milli: 1000, cluster_size: 1 }, 1000);
    let mut particles = vec![particle(500_000, 500_000, 1000)];
    let mut timer = SpawnTimer { last_spawn_elapsed_ms: 500 };
    let mut rng = RandomSource::from_seed(7);
    spawn_snowballs(&mut particles, &mut timer, &mut rng, &c, 1499, 0);
    assert_eq!(particles.len(), 1);
    assert_eq!(timer.last_spawn_elapsed_ms, 500);
}

#[test]
fn spawner_past_interval_spawns_and_stamps_timer() {
    let c = config(SpawnModel::BernoulliCluster { chance_milli: 1000, cluster_size: 1 }, 1000);
    let mut particles = Vec::new();
    let mut timer = SpawnTimer { last_spawn_elapsed_ms: 500 };
    let mut rng = RandomSource::from_seed(7);
    spawn_snowballs(&mut particles, &mut timer, &mut rng, &c, 1500, 0);
    assert_eq!(particles.len(), 1);
    assert_eq!(timer.last_spawn_elapsed_ms, 1500);
    let p = particles[0];
    assert_eq!(p.y_micro, 0);
    assert_eq!(p.vx_milli, 0);
    assert_eq!(p.vy_milli, 1000);
    assert_eq!(p.glyph, '*');
    assert!(p.x_micro >= 0 && p.x_micro < 80 * 1_000_000);
}

#[test]
fn spawner_zero_chance_never_spawns() {
    let c = config(SpawnModel::BernoulliCluster { chance_milli: 0, cluster_size: 5 }, 0);
    let mut particles = Vec::new();
    let mut timer = SpawnTimer { last_spawn_elapsed_ms: 0 };
    let mut rng = RandomSource::from_seed(11);
    for t in 0..50u64 {
        spawn_snowballs(&mut particles, &mut timer, &mut rng, &c, t, 0);
    }
    assert_eq!(particles.len(), 0);
}

#[test]
fn spawner_cluster_size_bounds_each_event() {
    let c = config(SpawnModel::BernoulliCluster { chance_milli: 1000, cluster_size: 5 }, 0);
    let mut timer = SpawnTimer { last_spawn_elapsed_ms: 0 };
    let mut rng = RandomSource::from_seed(3);
    for t in 0..50u64 {
        let mut particles = Vec::new();
        spawn_snowballs(&mut particles, &mut timer, &mut rng, &c, t, 0);
        assert!(1 <= particles.len() && particles.len() <= 5);
        for p in &particles {
            assert!(p.x_micro >= 0 && p.x_micro < 80 * 1_000_000);
        }
    }
}

#[test]
fn spawner_per_column_with_certainty_fills_every_column() {
    let c = config(SpawnModel::PerColumn { chance_milli: 1000 }, 0);
    let mut particles = Vec::new();
    let mut timer = SpawnTimer { last_spawn_elapsed_ms: 0 };
    let mut rng = RandomSource::from_seed(5);
    spawn_snowballs(&mut particles, &mut timer, &mut rng, &c, 0, 0);
    assert_eq!(particles.len(), 80);
    for (col, p) in particles.iter().enumerate() {
        let center = col as i64 * 1_000_000;
        assert!(p.x_micro >= center - 500_000 && p.x_micro < center + 500_000);
        assert_eq!(p.y_micro, 0);
    }
}

#[test]
fn spawner_per_column_ties_each_particle_to_its_column() {
    // At a half chance, the spawned particles still carry strictly
    // increasing columns, each within half a cell of its center.
    let c = config(SpawnModel::PerColumn { chance_milli: 500 }, 0);
    let mut particles = Vec::new();
    let mut timer = SpawnTimer { last_spawn_elapsed_ms: 0 };
    let mut rng = RandomSource::from_seed(13);
    spawn_snowballs(&mut particles, &mut timer, &mut rng, &c, 0, 0);
    assert!(particles.len() <= 80);
    let columns: Vec<i64> = particles.iter().map(|p| (p.x_micro + 500_000).div_euclid(1_000_000)).collect();
    for w in columns.windows(2) {
        assert!(w[0] < w[1]);
    }
    for col in &columns {
        assert!(0 <= *col && *col < 80);
    }
}

#[test]
fn spawner_gaussian_count_is_rounded_sample_at_least_one() {
    let cases: [(i64, usize); 6] =
        [(2500, 3), (2499, 2), (500, 1), (499, 1), (-10000, 1), (0, 1)];
    for (sample_milli, expected) in cases {
        let c = config(SpawnModel::GaussianCount { mean_milli: 0, std_milli: 1000 }, 0);
        let mut particles = Vec::new();
        let mut timer = SpawnTimer { last_spawn_elapsed_ms: 0 };
        let mut rng = RandomSource::from_seed(9);
        spawn_snowballs(&mut particles, &mut timer, &mut rng, &c, 0, sample_milli);
        assert_eq!(particles.len(), expected);
    }
}

#[test]
fn kinematics_moves_by_velocity_times_delta() {
    let mut particles = vec![particle(500_000, 0, 2000), particle(79_999_000, 3_000_000, 500)];
    update_positions(&mut particles, 500);
    // 2000 milli-rows per second over half a second falls one row.
    assert_eq!(particles[0].y_micro, 1_000_000);
    assert_eq!(particles[0].x_micro, 500_000);
    // 500 milli-rows per second over half a second falls a quarter row.
    assert_eq!(particles[1].y_micro, 3_250_000);
    assert_eq!(particles[1].x_micro, 79_999_000);
}

#[test]
fn kinematics_is_frame_rate_independent() {
    // The same wall-clock second, as one tick or as four, falls the
    // same two rows.
    let mut once = vec![particle(0, 0, 2000)];
    update_positions(&mut once, 1000);
    let mut four = vec![particle(0, 0, 2000)];
    for _ in 0..4 {
        update_positions(&mut four, 250);
    }
    assert_eq!(once[0].y_micro, 2_000_000);
    assert_eq!(four[0].y_micro, 2_000_000);
}

#[test]
fn kinematics_split_delta_lands_exactly_where_one_tick_does() {
    // A speed that does not divide the fixed-point scale: two half
    // second ticks and one whole second tick agree to the micro-row.
    let mut split = vec![particle(0, 0, 999)];
    update_positions(&mut split, 500);
    update_positions(&mut split, 500);
    let mut whole = vec![particle(0, 0, 999)];
    update_positions(&mut whole, 1000);
    assert_eq!(split[0].y_micro, 999_000);
    assert_eq!(whole[0].y_micro, 999_000);
    // Sixteen 62-and-a-half millisecond ticks, same second, same place.
    let mut fine = vec![particle(0, 0, 999)];
    for _ in 0..8 {
        update_positions(&mut fine, 63);
        update_positions(&mut fine, 62);
    }
    assert_eq!(fine[0].y_micro, 999_000);
}

#[test]
fn cull_keeps_last_visible_row_and_drops_below() {
    let boundary = particle(0, 24_000_000, 1000);
    let below = particle(1_000_000, 24_000_001, 1000);
    let above = particle(2_000_000, 0, 1000);
    let mut particles = vec![boundary, below, above];
    remove_off_screen(&mut particles, 24);
    assert_eq!(particles, vec![boundary, above]);
}

#[test]
fn cull_boundary_particle_survives_one_pass_then_falls_out() {
    let mut particles = vec![particle(0, 24_000_000, 1000)];
    remove_off_screen(&mut particles, 24);
    assert_eq!(particles.len(), 1);
    update_positions(&mut particles, 1000);
    remove_off_screen(&mut particles, 24);
    assert_eq!(particles.len(), 0);
}

#[test]
fn cull_boundary_falls_out_even_at_the_slowest_speed() {
    // One milli-row per second over 999 ms still moves 999 micro-rows,
    // enough to leave the boundary.
    let mut particles = vec![particle(0, 24_000_000, 1)];
    update_positions(&mut particles, 999);
    assert_eq!(particles[0].y_micro, 24_000_999);
    remove_off_screen(&mut particles, 24);
    assert_eq!(particles.len(), 0);
}

#[test]
fn render_places_glyphs_at_cell_floors() {
    let particles = vec![particle(1_500_000, 2_500_000, 1000), particle(79_999_999, 23_999_999, 1000)];
    let ops = render_frame(&particles, 80, 24);
    assert_eq!(
        ops,
        vec![
            DrawOp { col: 1, row: 2, glyph: '*' },
            DrawOp { col: 79, row: 23, glyph: '*' },
        ]
    );
}

#[test]
fn render_skips_off_range_cells() {
    // A column left of the screen floors to -1; the last visible row of
    // a 24-row screen is row 23, so a particle on row 24 is not drawn.
    let particles = vec![particle(-400_000, 0, 1000), particle(0, 24_000_000, 1000)];
    let ops = render_frame(&particles, 80, 24);
    assert_eq!(ops.len(), 0);
}

#[test]
fn end_to_end_single_column_of_ticks() {
    // One particle per tick, one row per second, one tick per second:
    // the particle spawned at tick zero is on the last visible row
    // after tick 23, and culled during tick 24.
    let c = config(SpawnModel::BernoulliCluster { chance_milli: 1000, cluster_size: 1 }, 0);
    let mut sim = Simulation::new(c, RandomSource::from_seed(1));
    for t in 0..24u64 {
        let ops = sim.step(t * 1000, 1000, 0);
        assert_eq!(sim.particles.len() as u64, t + 1);
        // The last visible row of the grid is row 23; a particle on the
        // retained boundary row 24 is kept but not drawn.
        let drawn = sim.particles.iter().filter(|p| p.y_micro < 24_000_000).count();
        assert_eq!(ops.len(), drawn);
    }
    assert_eq!(sim.particles.len(), 24);
    let max_y = sim.particles.iter().map(|p| p.y_micro).max().unwrap();
    assert_eq!(max_y, 24_000_000);
    sim.step(24_000, 1000, 0);
    // One spawned, the oldest culled: the count holds at 24 and nothing
    // sits below the last visible row.
    assert_eq!(sim.particles.len(), 24);
    let max_y = sim.particles.iter().map(|p| p.y_micro).max().unwrap();
    assert_eq!(max_y, 24_000_000);
}

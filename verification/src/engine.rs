//! The particle simulation engine: spawn, integrate, prune, render.
//!
//! Positions and speeds are fixed-point values in thousandths of a terminal
//! cell, so one simulated tick is exact integer arithmetic.  Time is a
//! millisecond count supplied by the caller.

use vstd::prelude::*;
use crate::color::{ColorName, gradient_rgb, gradient_rgb_spec};
use crate::config::{ColorStyle, EngineConfig};

verus! {

/// The largest per-tick displacement, in thousandths of a cell, that a
/// well-formed particle may carry in either axis.
pub const MAX_STEP_MILLI: u64 = 1000000;

/// The fixed terminal character grid, captured once at startup.
#[derive(Clone, Copy, PartialEq, Eq, Debug)]
pub struct Viewport {
    pub cols: u16,
    pub rows: u16,
}

impl Viewport {
    /// A viewport has at least one column and one row.
    pub open spec fn wf(self) -> bool {
        self.cols >= 1 && self.rows >= 1
    }
}

/// The viewport width in thousandths of a cell.
pub open spec fn cols_milli(vp: Viewport) -> int {
    (vp.cols as int) * 1000
}

/// The viewport height in thousandths of a cell.
pub open spec fn rows_milli(vp: Viewport) -> int {
    (vp.rows as int) * 1000
}

/// Where a particle is in its life: falling, resting on the floor since a
/// given millisecond, or marked for removal.
#[derive(Clone, Copy, PartialEq, Eq, Debug)]
pub enum Phase {
    Falling,
    Grounded(u64),
    Expired,
}

/// One falling or resting glyph.
#[derive(Clone, Copy, PartialEq, Eq, Debug)]
pub struct Particle {
    /// Horizontal position in thousandths of a cell, in `[0, cols * 1000)`.
    pub x_milli: u64,
    /// Vertical position in thousandths of a cell; `0` is the top row.
    pub y_milli: u64,
    /// Fall distance per tick, in thousandths of a cell.
    pub speed_milli: u64,
    /// Horizontal drift per tick, in thousandths of a cell, signed.
    pub dx_milli: i64,
    /// The character drawn for this particle.
    pub glyph: char,
    pub phase: Phase,
}

impl Particle {
    /// Positions stay inside the viewport: horizontally always, vertically
    /// according to the phase — a falling particle is above the floor, a
    /// grounded one sits exactly on the bottom row, and an expired one has
    /// overshot the floor by at most one step.
    pub open spec fn wf(self, vp: Viewport) -> bool {
        &&& (self.x_milli as int) < cols_milli(vp)
        &&& self.speed_milli <= MAX_STEP_MILLI
        &&& -(MAX_STEP_MILLI as int) <= (self.dx_milli as int) <= (MAX_STEP_MILLI as int)
        &&& match self.phase {
            Phase::Falling => (self.y_milli as int) < rows_milli(vp),
            Phase::Grounded(_) => (self.y_milli as int) == rows_milli(vp) - 1000,
            Phase::Expired => (self.y_milli as int) < rows_milli(vp) + (MAX_STEP_MILLI as int),
        }
    }
}

/// The random draws that one tick consumes when it spawns.
#[derive(Clone, Copy, PartialEq, Eq, Debug)]
pub struct SpawnRolls {
    /// Spawn decision draw, in `[0, 1000)`; a particle is created exactly
    /// when it falls below the spawn probability.
    pub spawn_roll: u64,
    /// Spawn column, in `[0, cols)`.
    pub x_cell: u16,
    /// Fall-speed jitter in thousandths, in `[800, 1350)`.
    pub speed_jitter: u64,
    /// Drift jitter in thousandths, in `[800, 1200)`.
    pub drift_jitter: u64,
    /// Which palette glyph the particle shows, in `[0, palette len)`.
    pub glyph_index: usize,
}

/// The draws are inside the ranges the spawn step samples from.
pub open spec fn rolls_wf(r: SpawnRolls, cfg: EngineConfig, vp: Viewport) -> bool {
    &&& r.spawn_roll < 1000
    &&& (r.x_cell as int) < (vp.cols as int)
    &&& 800 <= r.speed_jitter < 1350
    &&& 800 <= r.drift_jitter < 1200
    &&& (r.glyph_index as int) < cfg.palette@.len()
}

/// The particle a spawn with the given draws creates: at the drawn column
/// on the top row, falling, with jittered fall speed and drift.
pub open spec fn new_particle_spec(cfg: EngineConfig, rolls: SpawnRolls) -> Particle {
    let speed = ((cfg.base_speed_milli as int) * (rolls.speed_jitter as int)) / 1000;
    let dir_abs = if cfg.dir_milli >= 0 {
        cfg.dir_milli as int
    } else {
        -(cfg.dir_milli as int)
    };
    let mag = dir_abs * speed * (rolls.drift_jitter as int) / 1000000;
    Particle {
        x_milli: ((rolls.x_cell as int) * 1000) as u64,
        y_milli: 0,
        speed_milli: speed as u64,
        dx_milli: (if cfg.dir_milli >= 0 {
            mag
        } else {
            -mag
        }) as i64,
        glyph: cfg.palette@[rolls.glyph_index as int],
        phase: Phase::Falling,
    }
}

/// The particle field after the spawn step: one particle appended exactly
/// when the spawn roll is below the spawn probability.
pub open spec fn spawn_spec(s: Seq<Particle>, cfg: EngineConfig, rolls: SpawnRolls) -> Seq<
    Particle,
> {
    if rolls.spawn_roll < cfg.spawn_prob_milli {
        s.push(new_particle_spec(cfg, rolls))
    } else {
        s
    }
}

/// Horizontal wrap-around: a position pushed off the left edge reappears
/// on the rightmost column, one pushed off the right edge on the leftmost.
pub open spec fn wrap_x_spec(nx: int, vp: Viewport) -> int {
    if nx < 0 {
        cols_milli(vp) - 1000
    } else if nx >= cols_milli(vp) {
        0
    } else {
        nx
    }
}

/// One integration step of a single particle.  A falling particle drifts
/// with wrap-around and falls by its speed; if it reaches the floor it
/// either expires (continuity mode) or settles on the bottom row,
/// grounded at the current time.  Other particles do not move.
pub open spec fn step_particle_spec(p: Particle, cont: bool, vp: Viewport, now_ms: u64) -> Particle {
    match p.phase {
        Phase::Falling => {
            let nx = wrap_x_spec((p.x_milli as int) + (p.dx_milli as int), vp);
            let ny = (p.y_milli as int) + (p.speed_milli as int);
            if ny >= rows_milli(vp) {
                if cont {
                    Particle { x_milli: nx as u64, y_milli: ny as u64, phase: Phase::Expired, ..p }
                } else {
                    Particle {
                        x_milli: nx as u64,
                        y_milli: (rows_milli(vp) - 1000) as u64,
                        phase: Phase::Grounded(now_ms),
                        ..p
                    }
                }
            } else {
                Particle { x_milli: nx as u64, y_milli: ny as u64, ..p }
            }
        },
        _ => p,
    }
}

/// The particle field after the integration step.
pub open spec fn integrate_spec(s: Seq<Particle>, cont: bool, vp: Viewport, now_ms: u64) -> Seq<
    Particle,
> {
    s.map_values(|p: Particle| step_particle_spec(p, cont, vp, now_ms))
}

/// Whether a particle survives the prune step at time `now_ms`: expired
/// particles never do, grounded particles only while the time elapsed
/// since grounding does not exceed the grounded lifetime, falling
/// particles always do.
pub open spec fn keep_spec(p: Particle, now_ms: u64, life_ms: u64) -> bool {
    match p.phase {
        Phase::Expired => false,
        Phase::Grounded(since) => (now_ms as int) <= (since as int) + (life_ms as int),
        Phase::Falling => true,
    }
}

/// The particle field after the prune step.
pub open spec fn prune_spec(s: Seq<Particle>, now_ms: u64, life_ms: u64) -> Seq<Particle> {
    s.filter(|p: Particle| keep_spec(p, now_ms, life_ms))
}

/// A particle field after one whole tick: spawn, integrate, prune.
pub open spec fn tick_spec(
    s: Seq<Particle>,
    cfg: EngineConfig,
    vp: Viewport,
    rolls: SpawnRolls,
    now_ms: u64,
) -> Seq<Particle> {
    prune_spec(
        integrate_spec(spawn_spec(s, cfg, rolls), cfg.continuity, vp, now_ms),
        now_ms,
        cfg.grounded_life_ms,
    )
}

/// One drawing instruction of a frame: a glyph at an integer cell with its
/// styling.
#[derive(Clone, Copy, PartialEq, Eq, Debug)]
pub struct DrawCmd {
    pub col: u16,
    pub row: u16,
    pub glyph: char,
    pub color: Option<ColorName>,
    pub bold: bool,
}

/// A fixed-point coordinate rounded to the nearest cell and clamped to the
/// viewport: never past the last of `n_cells` cells.
pub open spec fn round_to_cell(v_milli: int, n_cells: int) -> int {
    let r = (v_milli + 500) / 1000;
    if r > n_cells - 1 {
        n_cells - 1
    } else {
        r
    }
}

/// The color a particle is drawn with: none, the fixed color, or the
/// gradient blend at the particle's height.
pub open spec fn particle_color_spec(p: Particle, cfg: EngineConfig, vp: Viewport) -> Option<
    ColorName,
> {
    match cfg.style {
        ColorStyle::Unset => None,
        ColorStyle::Fixed(c) => Some(c),
        ColorStyle::Gradient(top, bottom) => {
            let den = rows_milli(vp);
            let num = if (p.y_milli as int) > den {
                den
            } else {
                p.y_milli as int
            };
            Some(gradient_rgb_spec(top, bottom, num, den))
        },
    }
}

/// The drawing instruction for one particle.
pub open spec fn draw_of(p: Particle, cfg: EngineConfig, vp: Viewport) -> DrawCmd {
    DrawCmd {
        col: round_to_cell(p.x_milli as int, vp.cols as int) as u16,
        row: round_to_cell(p.y_milli as int, vp.rows as int) as u16,
        glyph: p.glyph,
        color: particle_color_spec(p, cfg, vp),
        bold: cfg.bold,
    }
}

/// The full frame drawn for a particle field, one instruction per particle
/// in order.
pub open spec fn render_spec(s: Seq<Particle>, cfg: EngineConfig, vp: Viewport) -> Seq<DrawCmd> {
    s.map_values(|p: Particle| draw_of(p, cfg, vp))
}

/// The simulation engine: the resolved configuration, the fixed viewport,
/// and the live particle field it alone owns.
pub struct Engine {
    pub config: EngineConfig,
    pub viewport: Viewport,
    pub particles: Vec<Particle>,
}

impl Engine {
    /// The configuration and viewport are well formed and every particle
    /// is inside the viewport.
    pub open spec fn wf(self) -> bool {
        &&& self.config.wf()
        &&& self.viewport.wf()
        &&& forall|i: int|
            0 <= i < self.particles@.len() ==> (#[trigger] self.particles@[i]).wf(self.viewport)
    }

    /// A fresh engine with no particles.
    pub fn new(config: EngineConfig, viewport: Viewport) -> (e: Engine)
        requires
            config.wf(),
            viewport.wf(),
        ensures
            e.wf(),
            e.config == config,
            e.viewport == viewport,
            e.particles@.len() == 0,
    {
        Engine { config, viewport, particles: Vec::new() }
    }

    /// The spawn step: at most one particle is created per tick, and one
    /// is created exactly when the spawn roll falls below the spawn
    /// probability.
    pub fn spawn(&mut self, rolls: &SpawnRolls)
        requires
            old(self).wf(),
            rolls_wf(*rolls, old(self).config, old(self).viewport),
        ensures
            final(self).config == old(self).config,
            final(self).viewport == old(self).viewport,
            final(self).particles@ == spawn_spec(old(self).particles@, old(self).config, *rolls),
            final(self).particles@.len() <= old(self).particles@.len() + 1,
            rolls.spawn_roll < old(self).config.spawn_prob_milli <==> final(self).particles@.len()
                == old(self).particles@.len() + 1,
            final(self).wf(),
    {
        if rolls.spawn_roll < self.config.spawn_prob_milli {
            proof {
                assert((self.config.base_speed_milli as int) * (rolls.speed_jitter as int)
                    <= 100000 * 1350) by (nonlinear_arith)
                    requires
                        self.config.base_speed_milli <= 100000,
                        rolls.speed_jitter < 1350,
                        self.config.base_speed_milli >= 0,
                        rolls.speed_jitter >= 0,
                ;
            }
            let speed: u64 = self.config.base_speed_milli * rolls.speed_jitter / 1000;
            proof {
                vstd::arithmetic::div_mod::lemma_div_is_ordered(
                    (self.config.base_speed_milli as int) * (rolls.speed_jitter as int),
                    (100000 * 1350) as int,
                    1000 as int,
                );
            }
            let dir_abs: u64 = if self.config.dir_milli >= 0 {
                self.config.dir_milli as u64
            } else {
                (-self.config.dir_milli) as u64
            };
            proof {
                assert((dir_abs as int) * (speed as int) <= 1000 * 135000) by (nonlinear_arith)
                    requires
                        dir_abs <= 1000,
                        speed <= 135000,
                ;
                assert((dir_abs as int) * (speed as int) * (rolls.drift_jitter as int) <= 1000
                    * 135000 * 1200) by (nonlinear_arith)
                    requires
                        0 <= (dir_abs as int) * (speed as int) <= 1000 * 135000,
                        0 <= rolls.drift_jitter < 1200,
                ;
            }
            let mag: u64 = dir_abs * speed * rolls.drift_jitter / 1000000;
            proof {
                vstd::arithmetic::div_mod::lemma_div_is_ordered(
                    (dir_abs as int) * (speed as int) * (rolls.drift_jitter as int),
                    (1000 * 135000 * 1200) as int,
                    1000000 as int,
                );
            }
            let dx: i64 = if self.config.dir_milli >= 0 {
                mag as i64
            } else {
                -(mag as i64)
            };
            let glyph: char = self.config.palette[rolls.glyph_index];
            let p = Particle {
                x_milli: (rolls.x_cell as u64) * 1000,
                y_milli: 0,
                speed_milli: speed,
                dx_milli: dx,
                glyph,
                phase: Phase::Falling,
            };
            self.particles.push(p);
        }
    }

    /// The integration step: every falling particle drifts and falls once;
    /// grounded and expired particles do not move.
    pub fn integrate(&mut self, now_ms: u64)
        requires
            old(self).wf(),
        ensures
            final(self).config == old(self).config,
            final(self).viewport == old(self).viewport,
            final(self).particles@ == integrate_spec(
                old(self).particles@,
                old(self).config.continuity,
                old(self).viewport,
                now_ms,
            ),
            final(self).wf(),
    {
        let ghost step = |p: Particle|
            step_particle_spec(p, self.config.continuity, self.viewport, now_ms);
        let n = self.particles.len();
        let mut out: Vec<Particle> = Vec::new();
        let mut i: usize = 0;
        while i < n
            invariant
                *self == *old(self),
                old(self).wf(),
                i <= n,
                n == self.particles@.len(),
                step == (|p: Particle|
                    step_particle_spec(p, self.config.continuity, self.viewport, now_ms)),
                out@ =~= self.particles@.take(i as int).map_values(step),
                forall|j: int| 0 <= j < out@.len() ==> (#[trigger] out@[j]).wf(self.viewport),
            decreases n - i,
        {
            let q = step_particle(
                &self.particles[i],
                self.config.continuity,
                &self.viewport,
                now_ms,
            );
            out.push(q);
            proof {
                assert(out@ =~= self.particles@.take(i as int + 1).map_values(step));
            }
            i = i + 1;
        }
        proof {
            assert(self.particles@.take(n as int) =~= self.particles@);
        }
        self.particles = out;
    }

    /// The prune step: a particle survives exactly when `keep_spec` says
    /// so — expired ones never, grounded ones only until their lifetime
    /// elapses, falling ones always.  Survivors keep their order.
    pub fn prune(&mut self, now_ms: u64)
        requires
            old(self).wf(),
        ensures
            final(self).config == old(self).config,
            final(self).viewport == old(self).viewport,
            final(self).particles@ == prune_spec(
                old(self).particles@,
                now_ms,
                old(self).config.grounded_life_ms,
            ),
            forall|i: int|
                0 <= i < final(self).particles@.len() ==> !((#[trigger] final(self).particles@[i]).phase
                    is Expired),
            final(self).wf(),
    {
        let life_ms = self.config.grounded_life_ms;
        let ghost pred = |p: Particle| keep_spec(p, now_ms, life_ms);
        let n = self.particles.len();
        let mut out: Vec<Particle> = Vec::new();
        let mut i: usize = 0;
        while i < n
            invariant
                *self == *old(self),
                old(self).wf(),
                life_ms == self.config.grounded_life_ms,
                i <= n,
                n == self.particles@.len(),
                pred == (|p: Particle| keep_spec(p, now_ms, life_ms)),
                out@ =~= self.particles@.take(i as int).filter(pred),
                forall|j: int| 0 <= j < out@.len() ==> (#[trigger] out@[j]).wf(self.viewport),
                forall|j: int| 0 <= j < out@.len() ==> !((#[trigger] out@[j]).phase is Expired),
            decreases n - i,
        {
            let p = self.particles[i];
            proof {
                assert(self.particles@.take(i as int + 1) =~= self.particles@.take(i as int).push(
                    self.particles@[i as int],
                ));
                self.particles@.take(i as int).lemma_filter_push(self.particles@[i as int], pred);
            }
            if keep_particle(&p, now_ms, life_ms) {
                out.push(p);
            }
            i = i + 1;
        }
        proof {
            assert(self.particles@.take(n as int) =~= self.particles@);
        }
        self.particles = out;
    }

    /// The render step: one drawing instruction per surviving particle, in
    /// field order.
    pub fn render(&self) -> (cmds: Vec<DrawCmd>)
        requires
            self.wf(),
        ensures
            cmds@ == render_spec(self.particles@, self.config, self.viewport),
    {
        let ghost draw = |p: Particle| draw_of(p, self.config, self.viewport);
        let n = self.particles.len();
        let mut out: Vec<DrawCmd> = Vec::new();
        let mut i: usize = 0;
        while i < n
            invariant
                self.wf(),
                i <= n,
                n == self.particles@.len(),
                draw == (|p: Particle| draw_of(p, self.config, self.viewport)),
                out@ =~= self.particles@.take(i as int).map_values(draw),
            decreases n - i,
        {
            let cmd = draw_particle(&self.particles[i], &self.config, &self.viewport);
            out.push(cmd);
            proof {
                assert(out@ =~= self.particles@.take(i as int + 1).map_values(draw));
            }
            i = i + 1;
        }
        proof {
            assert(self.particles@.take(n as int) =~= self.particles@);
        }
        out
    }

    /// One whole tick with the given draws: spawn, integrate, prune, and
    /// the frame to draw for the surviving particles.
    pub fn frame(&mut self, rolls: &SpawnRolls, now_ms: u64) -> (cmds: Vec<DrawCmd>)
        requires
            old(self).wf(),
            rolls_wf(*rolls, old(self).config, old(self).viewport),
        ensures
            final(self).config == old(self).config,
            final(self).viewport == old(self).viewport,
            final(self).particles@ == tick_spec(
                old(self).particles@,
                old(self).config,
                old(self).viewport,
                *rolls,
                now_ms,
            ),
            cmds@ == render_spec(final(self).particles@, old(self).config, old(self).viewport),
            final(self).wf(),
    {
        self.spawn(rolls);
        self.integrate(now_ms);
        self.prune(now_ms);
        self.render()
    }
}

/// Relies on rand::random_range: a value drawn uniformly from the given
/// range.  The range `0..n` is non-empty, so the call returns, and every
/// outcome is below `n`.
#[verifier::external_body]
fn rand_below(n: u64) -> (r: u64)
    requires
        n > 0,
    ensures
        r < n,
{
    rand::random_range(0..n)
}

impl Engine {
    /// One whole tick with fresh random draws.  Whatever the draws were:
    /// at most one particle appears, the field stays well formed, and the
    /// returned frame matches the surviving particles.
    pub fn frame_random(&mut self, now_ms: u64) -> (cmds: Vec<DrawCmd>)
        requires
            old(self).wf(),
        ensures
            final(self).config == old(self).config,
            final(self).viewport == old(self).viewport,
            final(self).particles@.len() <= old(self).particles@.len() + 1,
            final(self).wf(),
            cmds@ == render_spec(final(self).particles@, final(self).config, final(self).viewport),
    {
        let spawn_roll = rand_below(1000);
        let x_roll = rand_below(self.viewport.cols as u64);
        let speed_jitter = 800 + rand_below(550);
        let drift_jitter = 800 + rand_below(400);
        let glyph_roll = rand_below(self.config.palette.len() as u64);
        let rolls = SpawnRolls {
            spawn_roll,
            x_cell: x_roll as u16,
            speed_jitter,
            drift_jitter,
            glyph_index: glyph_roll as usize,
        };
        let cmds = self.frame(&rolls, now_ms);
        proof {
            let ghost after_spawn = spawn_spec(old(self).particles@, old(self).config, rolls);
            let ghost after_step = integrate_spec(
                after_spawn,
                old(self).config.continuity,
                old(self).viewport,
                now_ms,
            );
            after_step.lemma_filter_len(
                |p: Particle| keep_spec(p, now_ms, old(self).config.grounded_life_ms),
            );
        }
        cmds
    }
}

/// Horizontal wrap-around never leaves the viewport: whatever the prior
/// position and drift were, the wrapped position is in `[0, cols * 1000)`.
pub proof fn lemma_wrap_in_bounds(nx: int, vp: Viewport)
    requires
        vp.wf(),
    ensures
        0 <= wrap_x_spec(nx, vp) < cols_milli(vp),
{
}

/// After integration every particle is horizontally inside the viewport,
/// and a falling particle that would pass the floor is never left falling
/// with its position at or past the floor: it either expires (continuity
/// mode) or settles exactly on the bottom row, grounded at the tick's
/// time.
pub proof fn lemma_grounding_clamp(p: Particle, cont: bool, vp: Viewport, now_ms: u64)
    requires
        vp.wf(),
        p.wf(vp),
    ensures
        0 <= step_particle_spec(p, cont, vp, now_ms).x_milli < cols_milli(vp),
        step_particle_spec(p, cont, vp, now_ms).phase is Falling ==> (step_particle_spec(
            p,
            cont,
            vp,
            now_ms,
        ).y_milli as int) < rows_milli(vp),
        p.phase is Falling && (p.y_milli as int) + (p.speed_milli as int) >= rows_milli(vp) && cont
            ==> step_particle_spec(p, cont, vp, now_ms).phase is Expired,
        p.phase is Falling && (p.y_milli as int) + (p.speed_milli as int) >= rows_milli(vp)
            && !cont ==> step_particle_spec(p, cont, vp, now_ms).phase == Phase::Grounded(now_ms)
            && (step_particle_spec(p, cont, vp, now_ms).y_milli as int) == rows_milli(vp) - 1000,
{
}

/// A grounded particle survives a prune at time `now_ms` exactly while
/// the time elapsed since it grounded does not exceed the grounded
/// lifetime: still present at the last millisecond of its lifetime,
/// absent one millisecond later.
pub proof fn lemma_lifetime_expiry(p: Particle, since: u64, life_ms: u64, now_ms: u64)
    requires
        p.phase == Phase::Grounded(since),
    ensures
        keep_spec(p, now_ms, life_ms) <==> (now_ms as int) - (since as int) <= (life_ms as int),
{
}

/// A sequence whose elements all satisfy a predicate is unchanged by
/// filtering with it.
proof fn lemma_filter_all_kept<A>(s: Seq<A>, pred: spec_fn(A) -> bool)
    requires
        forall|i: int| 0 <= i < s.len() ==> pred(#[trigger] s[i]),
    ensures
        s.filter(pred) == s,
    decreases s.len(),
{
    reveal(Seq::filter);
    if s.len() != 0 {
        assert(pred(s.last()));
        lemma_filter_all_kept(s.drop_last(), pred);
        assert(s.drop_last().push(s.last()) =~= s);
    }
}

/// Pruning is idempotent: pruning an already pruned field at the same
/// time removes nothing more.
pub proof fn lemma_prune_idempotent(s: Seq<Particle>, now_ms: u64, life_ms: u64)
    ensures
        prune_spec(prune_spec(s, now_ms, life_ms), now_ms, life_ms) == prune_spec(
            s,
            now_ms,
            life_ms,
        ),
{
    let pred = |p: Particle| keep_spec(p, now_ms, life_ms);
    assert forall|i: int| 0 <= i < s.filter(pred).len() implies pred(#[trigger] s.filter(pred)[i]) by {
        s.lemma_filter_pred(pred, i);
    }
    lemma_filter_all_kept(s.filter(pred), pred);
}

/// One integration step of a single particle, on machine integers.
fn step_particle(p: &Particle, cont: bool, vp: &Viewport, now_ms: u64) -> (q: Particle)
    requires
        vp.wf(),
        p.wf(*vp),
    ensures
        q == step_particle_spec(*p, cont, *vp, now_ms),
        q.wf(*vp),
{
    match p.phase {
        Phase::Falling => {
            let cols_m: i64 = (vp.cols as i64) * 1000;
            let nx0: i64 = (p.x_milli as i64) + p.dx_milli;
            let nx: u64 = if nx0 < 0 {
                (cols_m - 1000) as u64
            } else if nx0 >= cols_m {
                0
            } else {
                nx0 as u64
            };
            let rows_m: u64 = (vp.rows as u64) * 1000;
            let ny: u64 = p.y_milli + p.speed_milli;
            if ny >= rows_m {
                if cont {
                    Particle {
                        x_milli: nx,
                        y_milli: ny,
                        speed_milli: p.speed_milli,
                        dx_milli: p.dx_milli,
                        glyph: p.glyph,
                        phase: Phase::Expired,
                    }
                } else {
                    Particle {
                        x_milli: nx,
                        y_milli: rows_m - 1000,
                        speed_milli: p.speed_milli,
                        dx_milli: p.dx_milli,
                        glyph: p.glyph,
                        phase: Phase::Grounded(now_ms),
                    }
                }
            } else {
                Particle {
                    x_milli: nx,
                    y_milli: ny,
                    speed_milli: p.speed_milli,
                    dx_milli: p.dx_milli,
                    glyph: p.glyph,
                    phase: Phase::Falling,
                }
            }
        },
        _ => *p,
    }
}

/// Whether a particle survives the prune step, on machine integers.
fn keep_particle(p: &Particle, now_ms: u64, life_ms: u64) -> (r: bool)
    ensures
        r == keep_spec(*p, now_ms, life_ms),
{
    match p.phase {
        Phase::Expired => false,
        Phase::Grounded(since) => if now_ms <= life_ms {
            true
        } else {
            since >= now_ms - life_ms
        },
        Phase::Falling => true,
    }
}

/// The drawing instruction for one particle, on machine integers.
fn draw_particle(p: &Particle, cfg: &EngineConfig, vp: &Viewport) -> (cmd: DrawCmd)
    requires
        vp.wf(),
        p.wf(*vp),
    ensures
        cmd == draw_of(*p, *cfg, *vp),
{
    let px: u64 = (p.x_milli + 500) / 1000;
    let col: u16 = if px > ((vp.cols - 1) as u64) {
        vp.cols - 1
    } else {
        px as u16
    };
    let py: u64 = (p.y_milli + 500) / 1000;
    let row: u16 = if py > ((vp.rows - 1) as u64) {
        vp.rows - 1
    } else {
        py as u16
    };
    let color: Option<ColorName> = match &cfg.style {
        ColorStyle::Unset => None,
        ColorStyle::Fixed(c) => Some(*c),
        ColorStyle::Gradient(top, bottom) => {
            let den: u64 = (vp.rows as u64) * 1000;
            let num: u64 = if p.y_milli > den {
                den
            } else {
                p.y_milli
            };
            Some(gradient_rgb(*top, *bottom, num, den))
        },
    };
    DrawCmd { col, row, glyph: p.glyph, color, bold: cfg.bold }
}

} // verus!

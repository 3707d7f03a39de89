//! Option keywords and the resolved engine configuration.

use vstd::prelude::*;
use crate::color::ColorName;
use crate::text::{lower_of, lowercase, invalid_msg};

verus! {

/// How surviving particles are colored: with the terminal default, one
/// fixed color, or a vertical gradient between two colors.
#[derive(Clone, Copy, PartialEq, Eq, Debug)]
pub enum ColorStyle {
    Unset,
    Fixed(ColorName),
    Gradient(ColorName, ColorName),
}

/// The resolved parameter set the engine consumes read-only.  All rates
/// are fixed-point values in thousandths.
pub struct EngineConfig {
    /// Base fall speed in thousandths of a cell per tick, before the
    /// per-particle jitter.
    pub base_speed_milli: u64,
    /// Horizontal drift factor in thousandths, signed; zero means
    /// straight down.
    pub dir_milli: i64,
    /// Spawn probability in thousandths, at most one spawn per tick.
    pub spawn_prob_milli: u64,
    /// The non-empty set of glyphs a spawn chooses from.
    pub palette: Vec<char>,
    /// How long a grounded particle lingers, in milliseconds.
    pub grounded_life_ms: u64,
    pub style: ColorStyle,
    pub bold: bool,
    /// When set, particles vanish at the floor instead of settling.
    pub continuity: bool,
    /// The pause between frames, in milliseconds.
    pub frame_ms: u64,
}

impl EngineConfig {
    /// The palette is non-empty and the rates are within the bounds the
    /// fixed-point arithmetic is sized for.
    pub open spec fn wf(self) -> bool {
        &&& 1 <= self.base_speed_milli <= 100000
        &&& -1000 <= self.dir_milli <= 1000
        &&& self.spawn_prob_milli <= 1000
        &&& self.palette@.len() >= 1
    }
}

/// The weather preset: plain rain when no preset is chosen.
#[derive(Clone, Copy, PartialEq, Eq, Debug)]
pub enum Weather {
    Plain,
    Stormy,
    Snowy,
}

/// Which weather preset a lowercase keyword names.
pub open spec fn weather_of_lower(t: Seq<char>) -> Option<Weather> {
    if t == "stormy"@ {
        Some(Weather::Stormy)
    } else if t == "snowy"@ {
        Some(Weather::Snowy)
    } else {
        None
    }
}

/// The weather preset named by an already lower-cased keyword.
pub fn classify_weather(t: &String) -> (r: Option<Weather>)
    ensures
        r == weather_of_lower(t@),
{
    if *t == "stormy".to_owned() {
        Some(Weather::Stormy)
    } else if *t == "snowy".to_owned() {
        Some(Weather::Snowy)
    } else {
        None
    }
}

/// Validates a weather option: accepted case-insensitively, handed on in
/// lowercase; anything else is rejected with a message naming the input.
pub fn parse_weather(s: &str) -> (r: Result<String, String>)
    ensures
        weather_of_lower(lower_of(s@)) is Some ==> (r matches Ok(t) && t@ == lower_of(s@)),
        weather_of_lower(lower_of(s@)) is None ==> (r matches Err(e) && e@ == "Invalid weather '"@
            + s@ + "'. Use 'stormy' or 'snowy'"@),
{
    let t = lowercase(s);
    match classify_weather(&t) {
        Some(_) => Ok(t),
        None => Err(invalid_msg("Invalid weather '", s, "'. Use 'stormy' or 'snowy'")),
    }
}

/// The horizontal drift of falling particles.
#[derive(Clone, Copy, PartialEq, Eq, Debug)]
pub enum Direction {
    Down,
    Left,
    Right,
}

/// Which drift direction a lowercase keyword names.
pub open spec fn direction_of_lower(t: Seq<char>) -> Option<Direction> {
    if t == "left"@ {
        Some(Direction::Left)
    } else if t == "right"@ {
        Some(Direction::Right)
    } else if t == "down"@ {
        Some(Direction::Down)
    } else {
        None
    }
}

/// The drift direction named by an already lower-cased keyword.
pub fn classify_direction(t: &String) -> (r: Option<Direction>)
    ensures
        r == direction_of_lower(t@),
{
    if *t == "left".to_owned() {
        Some(Direction::Left)
    } else if *t == "right".to_owned() {
        Some(Direction::Right)
    } else if *t == "down".to_owned() {
        Some(Direction::Down)
    } else {
        None
    }
}

/// Validates a drift direction option, case-insensitively.
pub fn parse_direction(s: &str) -> (r: Result<String, String>)
    ensures
        direction_of_lower(lower_of(s@)) is Some ==> (r matches Ok(t) && t@ == lower_of(s@)),
        direction_of_lower(lower_of(s@)) is None ==> (r matches Err(e) && e@
            == "Invalid direction '"@ + s@ + "'. Use 'left', 'right', or 'down'"@),
{
    let t = lowercase(s);
    match classify_direction(&t) {
        Some(_) => Ok(t),
        None => Err(invalid_msg("Invalid direction '", s, "'. Use 'left', 'right', or 'down'")),
    }
}

/// How densely the screen is populated.
#[derive(Clone, Copy, PartialEq, Eq, Debug)]
pub enum Density {
    Low,
    Medium,
    High,
}

/// Which screen density a lowercase keyword names.
pub open spec fn density_of_lower(t: Seq<char>) -> Option<Density> {
    if t == "low"@ {
        Some(Density::Low)
    } else if t == "medium"@ {
        Some(Density::Medium)
    } else if t == "high"@ {
        Some(Density::High)
    } else {
        None
    }
}

/// The screen density named by an already lower-cased keyword.
pub fn classify_density(t: &String) -> (r: Option<Density>)
    ensures
        r == density_of_lower(t@),
{
    if *t == "low".to_owned() {
        Some(Density::Low)
    } else if *t == "medium".to_owned() {
        Some(Density::Medium)
    } else if *t == "high".to_owned() {
        Some(Density::High)
    } else {
        None
    }
}

/// Validates a chars-on-screen option, case-insensitively.
pub fn parse_chars_on_screen(s: &str) -> (r: Result<String, String>)
    ensures
        density_of_lower(lower_of(s@)) is Some ==> (r matches Ok(t) && t@ == lower_of(s@)),
        density_of_lower(lower_of(s@)) is None ==> (r matches Err(e) && e@
            == "Invalid chars-on-screen '"@ + s@ + "'. Use 'low', 'medium', or 'high'"@),
{
    let t = lowercase(s);
    match classify_density(&t) {
        Some(_) => Ok(t),
        None => Err(invalid_msg("Invalid chars-on-screen '", s, "'. Use 'low', 'medium', or 'high'")),
    }
}

/// How long a grounded particle lingers before it decays.
#[derive(Clone, Copy, PartialEq, Eq, Debug)]
pub enum GroundLife {
    Short,
    Medium,
    Long,
}

/// Which ground lifetime a lowercase keyword names.
pub open spec fn ground_life_of_lower(t: Seq<char>) -> Option<GroundLife> {
    if t == "short"@ {
        Some(GroundLife::Short)
    } else if t == "medium"@ {
        Some(GroundLife::Medium)
    } else if t == "long"@ {
        Some(GroundLife::Long)
    } else {
        None
    }
}

/// The ground lifetime named by an already lower-cased keyword.
pub fn classify_ground_life(t: &String) -> (r: Option<GroundLife>)
    ensures
        r == ground_life_of_lower(t@),
{
    if *t == "short".to_owned() {
        Some(GroundLife::Short)
    } else if *t == "medium".to_owned() {
        Some(GroundLife::Medium)
    } else if *t == "long".to_owned() {
        Some(GroundLife::Long)
    } else {
        None
    }
}

/// Validates a particle-on-ground option, case-insensitively.
pub fn parse_particle_on_ground(s: &str) -> (r: Result<String, String>)
    ensures
        ground_life_of_lower(lower_of(s@)) is Some ==> (r matches Ok(t) && t@ == lower_of(s@)),
        ground_life_of_lower(lower_of(s@)) is None ==> (r matches Err(e) && e@
            == "Invalid particle-on-ground '"@ + s@ + "'. Use 'short', 'medium', or 'long'"@),
{
    let t = lowercase(s);
    match classify_ground_life(&t) {
        Some(_) => Ok(t),
        None => Err(invalid_msg("Invalid particle-on-ground '", s, "'. Use 'short', 'medium', or 'long'")),
    }
}

/// The animation speed multiplier a lowercase keyword names, in thousandths.
pub open spec fn speed_of_lower(t: Seq<char>) -> Option<u64> {
    if t == "fast"@ {
        Some(1700u64)
    } else if t == "medium"@ {
        Some(1200u64)
    } else if t == "slow"@ {
        Some(1000u64)
    } else {
        None
    }
}

/// The speed multiplier named by an already lower-cased keyword.
pub fn classify_speed(t: &String) -> (r: Option<u64>)
    ensures
        r == speed_of_lower(t@),
{
    if *t == "fast".to_owned() {
        Some(1700)
    } else if *t == "medium".to_owned() {
        Some(1200)
    } else if *t == "slow".to_owned() {
        Some(1000)
    } else {
        None
    }
}

/// Validates a speed option, case-insensitively, and returns the speed
/// multiplier in thousandths.
pub fn parse_speed(s: &str) -> (r: Result<u64, String>)
    ensures
        speed_of_lower(lower_of(s@)) is Some ==> r == Ok::<u64, String>(
            speed_of_lower(lower_of(s@)).unwrap(),
        ),
        speed_of_lower(lower_of(s@)) is None ==> (r matches Err(e) && e@ == "Invalid speed '"@
            + s@ + "'. Use 'fast', 'medium', or 'slow'"@),
{
    let t = lowercase(s);
    match classify_speed(&t) {
        Some(m) => Ok(m),
        None => Err(invalid_msg("Invalid speed '", s, "'. Use 'fast', 'medium', or 'slow'")),
    }
}

/// The overall speed multiplier, in thousandths: the chosen speed, except
/// that a storm is never slower than one and a half times.
pub open spec fn speed_multiplier_spec(w: Weather, speed_milli: u64) -> u64 {
    if w is Stormy {
        if speed_milli > 1000 {
            speed_milli
        } else {
            1500u64
        }
    } else {
        speed_milli
    }
}

/// The base spawn rate before speed scaling, in thousandths: denser
/// screens spawn more, and snow spawns more sparsely than rain.
pub open spec fn spawn_base_spec(d: Density, w: Weather) -> u64 {
    match d {
        Density::Low => if w is Snowy {
            100u64
        } else {
            300u64
        },
        Density::High => if w is Snowy {
            800u64
        } else {
            2500u64
        },
        Density::Medium => if w is Snowy {
            400u64
        } else {
            1200u64
        },
    }
}

/// The per-tick spawn probability in thousandths: the base rate scaled by
/// the speed multiplier and clamped into `[10, 980]`.
pub open spec fn spawn_probability_spec(base_milli: u64, mult_milli: u64) -> u64 {
    let raw = ((base_milli as int) * (mult_milli as int)) / 1000;
    if raw < 10 {
        10u64
    } else if raw > 980 {
        980u64
    } else {
        raw as u64
    }
}

/// The per-tick spawn probability, on machine integers.
pub fn spawn_probability(base_milli: u64, mult_milli: u64) -> (r: u64)
    requires
        base_milli <= 10000,
        mult_milli <= 100000,
    ensures
        r == spawn_probability_spec(base_milli, mult_milli),
        10 <= r <= 980,
{
    proof {
        assert((base_milli as int) * (mult_milli as int) <= 10000 * 100000) by (nonlinear_arith)
            requires
                0 <= base_milli <= 10000,
                0 <= mult_milli <= 100000,
        ;
        assert((base_milli as int) * (mult_milli as int) >= 0) by (nonlinear_arith);
    }
    let raw = base_milli * mult_milli / 1000;
    if raw < 10 {
        10
    } else if raw > 980 {
        980
    } else {
        raw
    }
}

/// The pause between frames in milliseconds: a thirty-millisecond base
/// shortened by the speed multiplier, clamped into `[5, 1000]`.
pub open spec fn frame_interval_spec(mult_milli: u64) -> u64 {
    let raw = 30000 as int / (mult_milli as int);
    if raw < 5 {
        5u64
    } else if raw > 1000 {
        1000u64
    } else {
        raw as u64
    }
}

/// The pause between frames, on machine integers.
pub fn frame_interval_ms(mult_milli: u64) -> (r: u64)
    requires
        mult_milli >= 1,
    ensures
        r == frame_interval_spec(mult_milli),
        5 <= r <= 1000,
{
    let raw = 30000 / mult_milli;
    if raw < 5 {
        5
    } else if raw > 1000 {
        1000
    } else {
        raw
    }
}

/// The grounded-lifetime scaling factor a keyword stands for, in
/// thousandths.
pub open spec fn ground_multiplier_spec(g: GroundLife) -> u64 {
    match g {
        GroundLife::Short => 500u64,
        GroundLife::Long => 2000u64,
        GroundLife::Medium => 1000u64,
    }
}

/// How long a grounded particle lingers, in milliseconds: a
/// 1200-millisecond base scaled by the lifetime factor and shortened by
/// the speed multiplier.
pub open spec fn grounded_life_spec(ground_mult_milli: u64, speed_mult_milli: u64) -> u64 {
    (((1200 as int) * (ground_mult_milli as int)) / (speed_mult_milli as int)) as u64
}

/// The grounded lifetime, on machine integers.
pub fn grounded_life_ms(ground_mult_milli: u64, speed_mult_milli: u64) -> (r: u64)
    requires
        ground_mult_milli <= 10000,
        speed_mult_milli >= 1,
    ensures
        r == grounded_life_spec(ground_mult_milli, speed_mult_milli),
{
    1200 * ground_mult_milli / speed_mult_milli
}

/// The drift factor a direction stands for, in thousandths: half a cell
/// per fall-step sideways, or none.
pub open spec fn dir_multiplier_spec(d: Direction) -> i64 {
    match d {
        Direction::Right => 500i64,
        Direction::Left => -500i64,
        Direction::Down => 0i64,
    }
}

/// The drift factor, on machine integers.
pub fn dir_multiplier(d: Direction) -> (r: i64)
    ensures
        r == dir_multiplier_spec(d),
{
    match d {
        Direction::Right => 500,
        Direction::Left => -500,
        Direction::Down => 0,
    }
}

/// The glyphs the weather draws with, unless a single character overrides
/// them.
pub open spec fn palette_spec(w: Weather, character: Option<char>) -> Seq<char> {
    match character {
        Some(ch) => seq![ch],
        None => match w {
            Weather::Stormy => seq!['.', ',', '`', '\'', '|', 'o', '*', '+'],
            Weather::Snowy => seq!['*'],
            Weather::Plain => seq!['.', ',', '`', '\'', '|', 'o'],
        },
    }
}

/// The glyph palette, as a vector.
pub fn build_palette(w: Weather, character: Option<char>) -> (r: Vec<char>)
    ensures
        r@ == palette_spec(w, character),
        r@.len() >= 1,
{
    match character {
        Some(ch) => {
            let v = vec![ch];
            proof {
                assert(v@ =~= palette_spec(w, character));
            }
            v
        },
        None => match w {
            Weather::Stormy => {
                let v = vec!['.', ',', '`', '\'', '|', 'o', '*', '+'];
                proof {
                    assert(v@ =~= palette_spec(w, character));
                }
                v
            },
            Weather::Snowy => {
                let v = vec!['*'];
                proof {
                    assert(v@ =~= palette_spec(w, character));
                }
                v
            },
            Weather::Plain => {
                let v = vec!['.', ',', '`', '\'', '|', 'o'];
                proof {
                    assert(v@ =~= palette_spec(w, character));
                }
                v
            },
        },
    }
}

/// The style when no gradient applies: the fixed color if one was chosen,
/// else the terminal default.
pub open spec fn plain_style_spec(fallback: Option<ColorName>) -> ColorStyle {
    match fallback {
        Some(c) => ColorStyle::Fixed(c),
        None => ColorStyle::Unset,
    }
}

/// The style two gradient endpoint keywords resolve to: the gradient when
/// both name a color, else the plain fallback.
pub open spec fn gradient_or_plain(t1: Seq<char>, t2: Seq<char>, fallback: Option<ColorName>) -> ColorStyle {
    match (crate::color::color_of_lower(t1), crate::color::color_of_lower(t2)) {
        (Some(a), Some(b)) => ColorStyle::Gradient(a, b),
        _ => plain_style_spec(fallback),
    }
}

/// The gradient endpoint keywords: explicit pair, or defaults of blue at
/// the top and white at the bottom when fewer than two are given.
pub open spec fn style_spec(live: Option<Seq<Seq<char>>>, fallback: Option<ColorName>) -> ColorStyle {
    match live {
        None => plain_style_spec(fallback),
        Some(v) => if v.len() == 0 {
            gradient_or_plain(lower_of("blue"@), lower_of("white"@), fallback)
        } else if v.len() == 1 {
            gradient_or_plain(lower_of(v[0]), lower_of("white"@), fallback)
        } else {
            gradient_or_plain(lower_of(v[0]), lower_of(v[1]), fallback)
        },
    }
}

/// The gradient endpoint strings as character sequences.
pub open spec fn live_view(live: Option<Vec<String>>) -> Option<Seq<Seq<char>>> {
    match live {
        None => None,
        Some(v) => Some(v.deep_view()),
    }
}

/// Resolves the gradient option: with it, the two endpoint colors
/// (defaulting to blue and white) drive a gradient, unless one of them
/// does not name a color, in which case the plain color applies.
pub fn resolve_style(live: &Option<Vec<String>>, fallback: Option<ColorName>) -> (r: ColorStyle)
    ensures
        r == style_spec(live_view(*live), fallback),
{
    match live {
        None => match fallback {
            Some(c) => ColorStyle::Fixed(c),
            None => ColorStyle::Unset,
        },
        Some(v) => {
            let e1: Result<ColorName, String> = if v.len() == 0 {
                crate::color::parse_color("blue")
            } else {
                crate::color::parse_color(v[0].as_str())
            };
            let e2: Result<ColorName, String> = if v.len() >= 2 {
                crate::color::parse_color(v[1].as_str())
            } else {
                crate::color::parse_color("white")
            };
            match (e1, e2) {
                (Ok(a), Ok(b)) => ColorStyle::Gradient(a, b),
                _ => match fallback {
                    Some(c) => ColorStyle::Fixed(c),
                    None => ColorStyle::Unset,
                },
            }
        },
    }
}

/// The raw options as the command line hands them over, already decoded
/// to plain values.
pub struct Options {
    /// The chosen speed multiplier in thousandths.
    pub speed_milli: u64,
    /// The fixed color, if one was chosen.
    pub color: Option<ColorName>,
    pub bold: bool,
    pub weather: Option<Weather>,
    pub direction: Option<Direction>,
    pub continuity: bool,
    /// The gradient endpoints: absent, or zero to two color keywords.
    pub live: Option<Vec<String>>,
    /// A single glyph overriding the whole palette.
    pub character: Option<char>,
    pub chars_on_screen: Option<Density>,
    pub particle_on_ground: Option<GroundLife>,
}

/// The weather with its default.
pub open spec fn resolved_weather(w: Option<Weather>) -> Weather {
    match w {
        Some(x) => x,
        None => Weather::Plain,
    }
}

/// The direction with its default of straight down.
pub open spec fn resolved_direction(d: Option<Direction>) -> Direction {
    match d {
        Some(x) => x,
        None => Direction::Down,
    }
}

/// The screen density with its default: a storm fills the screen, other
/// weather stays medium.
pub open spec fn resolved_density(d: Option<Density>, w: Weather) -> Density {
    match d {
        Some(x) => x,
        None => if w is Stormy {
            Density::High
        } else {
            Density::Medium
        },
    }
}

/// The ground lifetime with its default: a storm leaves particles long,
/// other weather medium.
pub open spec fn resolved_ground_life(g: Option<GroundLife>, w: Weather) -> GroundLife {
    match g {
        Some(x) => x,
        None => if w is Stormy {
            GroundLife::Long
        } else {
            GroundLife::Medium
        },
    }
}

/// Turns the decoded options into the finalized parameter set the engine
/// consumes: defaults applied, every rate computed and clamped.
pub fn resolve_config(opts: Options) -> (cfg: EngineConfig)
    requires
        1 <= opts.speed_milli <= 10000,
    ensures
        cfg.wf(),
        ({
            let w = resolved_weather(opts.weather);
            let mult = speed_multiplier_spec(w, opts.speed_milli);
            &&& cfg.base_speed_milli == mult
            &&& cfg.dir_milli == dir_multiplier_spec(resolved_direction(opts.direction))
            &&& cfg.spawn_prob_milli == spawn_probability_spec(
                spawn_base_spec(resolved_density(opts.chars_on_screen, w), w),
                mult,
            )
            &&& cfg.palette@ == palette_spec(w, opts.character)
            &&& cfg.grounded_life_ms == grounded_life_spec(
                ground_multiplier_spec(resolved_ground_life(opts.particle_on_ground, w)),
                mult,
            )
            &&& cfg.style == style_spec(live_view(opts.live), opts.color)
            &&& cfg.bold == opts.bold
            &&& cfg.continuity == opts.continuity
            &&& cfg.frame_ms == frame_interval_spec(mult)
        }),
{
    let w = match opts.weather {
        Some(x) => x,
        None => Weather::Plain,
    };
    let mult: u64 = match w {
        Weather::Stormy => if opts.speed_milli > 1000 {
            opts.speed_milli
        } else {
            1500
        },
        _ => opts.speed_milli,
    };
    let density = match opts.chars_on_screen {
        Some(x) => x,
        None => match w {
            Weather::Stormy => Density::High,
            _ => Density::Medium,
        },
    };
    let ground = match opts.particle_on_ground {
        Some(x) => x,
        None => match w {
            Weather::Stormy => GroundLife::Long,
            _ => GroundLife::Medium,
        },
    };
    let base: u64 = match density {
        Density::Low => match w {
            Weather::Snowy => 100,
            _ => 300,
        },
        Density::High => match w {
            Weather::Snowy => 800,
            _ => 2500,
        },
        Density::Medium => match w {
            Weather::Snowy => 400,
            _ => 1200,
        },
    };
    let ground_mult: u64 = match ground {
        GroundLife::Short => 500,
        GroundLife::Long => 2000,
        GroundLife::Medium => 1000,
    };
    let dir = match opts.direction {
        Some(x) => x,
        None => Direction::Down,
    };
    EngineConfig {
        base_speed_milli: mult,
        dir_milli: dir_multiplier(dir),
        spawn_prob_milli: spawn_probability(base, mult),
        palette: build_palette(w, opts.character),
        grounded_life_ms: grounded_life_ms(ground_mult, mult),
        style: resolve_style(&opts.live, opts.color),
        bold: opts.bold,
        continuity: opts.continuity,
        frame_ms: frame_interval_ms(mult),
    }
}

} // verus!

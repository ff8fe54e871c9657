use vstd::prelude::*;

verus! {

/// Default number of movement steps per second.
pub const MOVEMENT_SPEED: u32 = 35;
/// Default chance, in percent, that a click on the idle character plays the click animation.
pub const ON_CLICK_CHANCE: u8 = 10;
/// Default horizontal start position.
pub const X: i32 = 0;
/// Default vertical start position.
pub const Y: i32 = 0;
/// Whether the character runs to the left by default.
pub const RUN_LEFT: bool = false;
/// Whether the sprites are mirrored horizontally by default.
pub const FLIP_HORIZONTAL: bool = false;
/// Whether the sprites are mirrored vertically by default.
pub const FLIP_VERTICAL: bool = false;
/// Whether bounds checking is switched off by default.
pub const DEBUG: bool = false;
/// Default number of automatic sprite reloads per second.
pub const SIGNAL_FREQUENCY: u32 = 1;
/// Whether sprites are reloaded automatically by default.
pub const AUTOMATIC_RELOAD: bool = false;

/// The configuration as it is stored in the configuration file.
#[derive(Clone, Debug)]
pub struct Config {
    pub fps: Option<u32>,
    pub width: Option<u16>,
    pub height: Option<u16>,
    pub movement_speed: u32,
    pub onclick_event_chance: u8,
    pub x: i32,
    pub y: i32,
    pub sprites_path: Option<String>,
    pub left: bool,
    pub flip_horizontal: bool,
    pub flip_vertical: bool,
    pub debug: bool,
    pub signal_frequency: u32,
    pub automatic_reload: bool,
}

/// The configuration written on first start.
pub open spec fn default_config() -> Config {
    Config {
        movement_speed: MOVEMENT_SPEED,
        onclick_event_chance: ON_CLICK_CHANCE,
        x: X,
        y: Y,
        left: RUN_LEFT,
        flip_horizontal: FLIP_HORIZONTAL,
        flip_vertical: FLIP_VERTICAL,
        debug: DEBUG,
        signal_frequency: SIGNAL_FREQUENCY,
        automatic_reload: AUTOMATIC_RELOAD,
        sprites_path: None,
        fps: None,
        width: None,
        height: None,
    }
}

impl Default for Config {
    fn default() -> (c: Config)
        ensures
            c == default_config(),
    {
        Config {
            movement_speed: MOVEMENT_SPEED,
            onclick_event_chance: ON_CLICK_CHANCE,
            x: X,
            y: Y,
            left: RUN_LEFT,
            flip_horizontal: FLIP_HORIZONTAL,
            flip_vertical: FLIP_VERTICAL,
            debug: DEBUG,
            signal_frequency: SIGNAL_FREQUENCY,
            automatic_reload: AUTOMATIC_RELOAD,
            sprites_path: None,
            fps: None,
            width: None,
            height: None,
        }
    }
}

/// The configuration that rendering works with: all settings but the sprite path.
#[derive(Clone, Copy, Debug)]
pub struct InternalConfig {
    pub fps: Option<u32>,
    pub width: Option<u16>,
    pub height: Option<u16>,
    pub movement_speed: u32,
    pub onclick_event_chance: u8,
    pub x: i32,
    pub y: i32,
    pub left: bool,
    pub flip_horizontal: bool,
    pub flip_vertical: bool,
    pub debug: bool,
    pub signal_frequency: u32,
    pub automatic_reload: bool,
}

/// Every setting of `value` but its sprite path.
pub open spec fn internal_of(value: Config) -> InternalConfig {
    InternalConfig {
        fps: value.fps,
        width: value.width,
        height: value.height,
        movement_speed: value.movement_speed,
        onclick_event_chance: value.onclick_event_chance,
        x: value.x,
        y: value.y,
        left: value.left,
        flip_vertical: value.flip_vertical,
        flip_horizontal: value.flip_horizontal,
        debug: value.debug,
        signal_frequency: value.signal_frequency,
        automatic_reload: value.automatic_reload,
    }
}

impl From<Config> for InternalConfig {
    fn from(value: Config) -> (r: InternalConfig) {
        InternalConfig {
            fps: value.fps,
            width: value.width,
            height: value.height,
            movement_speed: value.movement_speed,
            onclick_event_chance: value.onclick_event_chance,
            x: value.x,
            y: value.y,
            left: value.left,
            flip_vertical: value.flip_vertical,
            flip_horizontal: value.flip_horizontal,
            debug: value.debug,
            signal_frequency: value.signal_frequency,
            automatic_reload: value.automatic_reload,
        }
    }
}

impl vstd::std_specs::convert::FromSpecImpl<Config> for InternalConfig {
    open spec fn obeys_from_spec() -> bool {
        true
    }

    open spec fn from_spec(v: Config) -> InternalConfig {
        internal_of(v)
    }
}

/// The settings given on the command line; `None` where an option was not given.
#[derive(Clone, Debug)]
pub struct CliArgs {
    pub sprites_path: Option<String>,
    pub config_path: Option<String>,
    pub width: Option<u16>,
    pub height: Option<u16>,
    pub fps: Option<u32>,
    pub movement_speed: Option<u32>,
    pub signal_frequency: Option<u32>,
    pub automatic_reload: Option<bool>,
    pub onclick_event_chance: Option<u8>,
    pub x: Option<i32>,
    pub y: Option<i32>,
    pub left: Option<bool>,
    pub flip_horizontal: Option<bool>,
    pub flip_vertical: Option<bool>,
    pub debug: Option<bool>,
}

/// The value given on the command line where there is one, else the configured one.
pub open spec fn given_or<T>(given: Option<T>, configured: T) -> T {
    match given {
        Some(v) => v,
        None => configured,
    }
}

/// `config` with every setting that `cli` gives replaced by the given value.
/// A width, height or frame rate given on the command line replaces the
/// configured one; one not given leaves it as configured. The sprite path
/// is left alone.
pub open spec fn overridden(config: Config, cli: CliArgs) -> Config {
    Config {
        width: match cli.width { Some(w) => Some(w), None => config.width },
        height: match cli.height { Some(h) => Some(h), None => config.height },
        fps: match cli.fps { Some(f) => Some(f), None => config.fps },
        movement_speed: given_or(cli.movement_speed, config.movement_speed),
        signal_frequency: given_or(cli.signal_frequency, config.signal_frequency),
        automatic_reload: given_or(cli.automatic_reload, config.automatic_reload),
        onclick_event_chance: given_or(cli.onclick_event_chance, config.onclick_event_chance),
        x: given_or(cli.x, config.x),
        y: given_or(cli.y, config.y),
        left: given_or(cli.left, config.left),
        flip_horizontal: given_or(cli.flip_horizontal, config.flip_horizontal),
        flip_vertical: given_or(cli.flip_vertical, config.flip_vertical),
        debug: given_or(cli.debug, config.debug),
        sprites_path: config.sprites_path,
    }
}

/// Lets every setting given on the command line take the place of the configured one.
pub fn apply_cli_args(config: Config, cli: &CliArgs) -> (r: Config)
    ensures
        r == overridden(config, *cli),
{
    Config {
        width: match cli.width { Some(value) => Some(value), None => config.width },
        height: match cli.height { Some(value) => Some(value), None => config.height },
        fps: match cli.fps { Some(value) => Some(value), None => config.fps },
        movement_speed: match cli.movement_speed { Some(value) => value, None => config.movement_speed },
        signal_frequency: match cli.signal_frequency {
            Some(value) => value,
            None => config.signal_frequency,
        },
        automatic_reload: match cli.automatic_reload {
            Some(value) => value,
            None => config.automatic_reload,
        },
        onclick_event_chance: match cli.onclick_event_chance {
            Some(value) => value,
            None => config.onclick_event_chance,
        },
        x: match cli.x { Some(value) => value, None => config.x },
        y: match cli.y { Some(value) => value, None => config.y },
        left: match cli.left { Some(value) => value, None => config.left },
        flip_horizontal: match cli.flip_horizontal {
            Some(value) => value,
            None => config.flip_horizontal,
        },
        flip_vertical: match cli.flip_vertical { Some(value) => value, None => config.flip_vertical },
        debug: match cli.debug { Some(value) => value, None => config.debug },
        sprites_path: config.sprites_path,
    }
}


/// Every option given on the command line is the merged value, and every
/// option not given keeps the configured value; the sprite path is never
/// touched.
pub proof fn lemma_command_line_wins(config: Config, cli: CliArgs)
    ensures
        ({
            let r = overridden(config, cli);
            &&& (cli.width matches Some(v) ==> r.width == Some(v))
            &&& (cli.width is None ==> r.width == config.width)
            &&& (cli.height matches Some(v) ==> r.height == Some(v))
            &&& (cli.height is None ==> r.height == config.height)
            &&& (cli.fps matches Some(v) ==> r.fps == Some(v))
            &&& (cli.fps is None ==> r.fps == config.fps)
            &&& (cli.movement_speed matches Some(v) ==> r.movement_speed == v)
            &&& (cli.movement_speed is None ==> r.movement_speed == config.movement_speed)
            &&& (cli.signal_frequency matches Some(v) ==> r.signal_frequency == v)
            &&& (cli.signal_frequency is None ==> r.signal_frequency == config.signal_frequency)
            &&& (cli.automatic_reload matches Some(v) ==> r.automatic_reload == v)
            &&& (cli.automatic_reload is None ==> r.automatic_reload == config.automatic_reload)
            &&& (cli.onclick_event_chance matches Some(v) ==> r.onclick_event_chance == v)
            &&& (cli.onclick_event_chance is None ==> r.onclick_event_chance
                == config.onclick_event_chance)
            &&& (cli.x matches Some(v) ==> r.x == v)
            &&& (cli.x is None ==> r.x == config.x)
            &&& (cli.y matches Some(v) ==> r.y == v)
            &&& (cli.y is None ==> r.y == config.y)
            &&& (cli.left matches Some(v) ==> r.left == v)
            &&& (cli.left is None ==> r.left == config.left)
            &&& (cli.flip_horizontal matches Some(v) ==> r.flip_horizontal == v)
            &&& (cli.flip_horizontal is None ==> r.flip_horizontal == config.flip_horizontal)
            &&& (cli.flip_vertical matches Some(v) ==> r.flip_vertical == v)
            &&& (cli.flip_vertical is None ==> r.flip_vertical == config.flip_vertical)
            &&& (cli.debug matches Some(v) ==> r.debug == v)
            &&& (cli.debug is None ==> r.debug == config.debug)
            &&& r.sprites_path == config.sprites_path
        }),
{
}

/// Rendering sees every setting of the configuration but the sprite path.
pub proof fn lemma_internal_keeps_settings(c: Config)
    ensures
        ({
            let i = internal_of(c);
            &&& i.fps == c.fps && i.width == c.width && i.height == c.height
            &&& i.movement_speed == c.movement_speed
            &&& i.onclick_event_chance == c.onclick_event_chance
            &&& i.x == c.x && i.y == c.y && i.left == c.left
            &&& i.flip_horizontal == c.flip_horizontal && i.flip_vertical == c.flip_vertical
            &&& i.debug == c.debug && i.signal_frequency == c.signal_frequency
            &&& i.automatic_reload == c.automatic_reload
        }),
{
}


/// The configuration written on first start names no sprite directory and
/// no size, so both have to be given before the character can be shown.
pub proof fn lemma_default_needs_sprites_and_size()
    ensures
        default_config().sprites_path is None,
        default_config().width is None,
        default_config().height is None,
        default_config().fps is None,
{
}

} // verus!

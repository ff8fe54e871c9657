use homie::animation::{click_outcome, Animation};
use homie::config::{apply_cli_args, CliArgs, Config, InternalConfig};
use homie::env::{expand_env, expand_matches, replace_tilde_str};
use homie::error::HomieError;
use homie::gif::{decode_frames, load_gif, load_gif_checked, prepare_frames, transform, GifFrame};
use homie::motion::{check_start_position, interval_ms, next_position};
use homie::parse::run;
use homie::state::State;

fn no_args() -> CliArgs {
    CliArgs {
        sprites_path: None,
        config_path: None,
        width: None,
        height: None,
        fps: None,
        movement_speed: None,
        signal_frequency: None,
        automatic_reload: None,
        onclick_event_chance: None,
        x: None,
        y: None,
        left: None,
        flip_horizontal: None,
        flip_vertical: None,
        debug: None,
    }
}

fn env() -> Vec<(String, String)> {
    vec![
        ("HOME".to_string(), "/home/rat".to_string()),
        ("XDG_DATA".to_string(), "/data".to_string()),
    ]
}

fn internal(flip_vertical: bool, flip_horizontal: bool, fps: Option<u32>) -> InternalConfig {
    let mut c: InternalConfig = Config::default().into();
    c.flip_vertical = flip_vertical;
    c.flip_horizontal = flip_horizontal;
    c.fps = fps;
    c
}

#[test]
fn not_toggles_between_idle_and_running() {
    assert_eq!(!State::Idle, State::Running);
    assert_eq!(!State::Running, State::Idle);
    assert_eq!(!State::Click, State::Idle);
    assert_eq!(State::default(), State::Idle);
}

#[test]
fn toggling_twice_returns_except_from_click() {
    assert_eq!(!!State::Idle, State::Idle);
    assert_eq!(!!State::Running, State::Running);
    assert_eq!(!!State::Click, State::Running);
}

#[test]
fn default_config_has_no_sprites_and_no_size() {
    let c = Config::default();
    assert_eq!(c.sprites_path, None);
    assert_eq!(c.width, None);
    assert_eq!(c.height, None);
    assert_eq!(c.fps, None);
    assert_eq!(c.movement_speed, 35);
    assert_eq!(c.onclick_event_chance, 10);
    assert_eq!((c.x, c.y), (0, 0));
    assert!(!c.left && !c.flip_horizontal && !c.flip_vertical && !c.debug && !c.automatic_reload);
    assert_eq!(c.signal_frequency, 1);
}

#[test]
fn internal_config_keeps_every_setting() {
    let mut c = Config::default();
    c.width = Some(200);
    c.fps = Some(9);
    c.x = 5;
    c.left = true;
    c.sprites_path = Some("/tmp".to_string());
    let i: InternalConfig = c.clone().into();
    assert_eq!(i.width, Some(200));
    assert_eq!(i.height, None);
    assert_eq!(i.fps, Some(9));
    assert_eq!(i.x, 5);
    assert!(i.left);
    assert_eq!(i.movement_speed, c.movement_speed);
}

#[test]
fn command_line_overrides_configuration() {
    let mut c = Config::default();
    c.width = Some(100);
    c.movement_speed = 20;
    let mut cli = no_args();
    cli.width = Some(200);
    cli.fps = Some(9);
    cli.left = Some(true);
    let r = apply_cli_args(c, &cli);
    assert_eq!(r.width, Some(200));
    assert_eq!(r.fps, Some(9));
    assert!(r.left);
    assert_eq!(r.movement_speed, 20);
    assert_eq!(r.height, None);
}

#[test]
fn run_needs_a_dimension() {
    let mut cli = no_args();
    cli.sprites_path = Some("./res".to_string());
    assert!(matches!(run(Config::default(), cli, &env()), Err(HomieError::NoDimensions)));
}

#[test]
fn run_needs_a_sprite_directory() {
    let mut cli = no_args();
    cli.height = Some(50);
    assert!(matches!(run(Config::default(), cli, &env()), Err(HomieError::NoSprites)));
}

#[test]
fn run_prefers_the_command_line_directory() {
    let mut c = Config::default();
    c.sprites_path = Some("~/sprites".to_string());
    c.width = Some(200);
    let mut cli = no_args();
    cli.sprites_path = Some("./res/rat_sprites/".to_string());
    let (config, path) = run(c, cli, &env()).unwrap();
    assert_eq!(path, "./res/rat_sprites/");
    assert_eq!(config.sprites_path, None);
    assert_eq!(config.width, Some(200));
}

#[test]
fn run_expands_the_configured_directory() {
    let mut c = Config::default();
    c.sprites_path = Some("~/sprites/$XDG_DATA/$NOPE".to_string());
    let mut cli = no_args();
    cli.height = Some(80);
    let (config, path) = run(c, cli, &env()).unwrap();
    assert_eq!(path, "/home/rat/sprites//data/$NOPE");
    assert_eq!(config.sprites_path, None);
    assert_eq!(config.height, Some(80));
}

fn expand(input: &str, e: &Vec<(String, String)>) -> String {
    expand_env(input, e).unwrap()
}

#[test]
fn expansion_follows_the_variable_grammar() {
    let e = env();
    assert_eq!(expand("$HOME", &e), "/home/rat");
    assert_eq!(expand("$HOMEx", &e), "$HOMEx");
    assert_eq!(expand("$$HOME", &e), "$/home/rat");
    assert_eq!(expand("$1HOME", &e), "$1HOME");
    assert_eq!(expand("a$HOME.b", &e), "a/home/rat.b");
    assert_eq!(expand("$", &e), "$");
    assert_eq!(expand("~", &e), "~");
    assert_eq!(expand("", &e), "");
    assert_eq!(expand("$HOME$XDG_DATA", &e), "/home/rat/data");
}

#[test]
fn tilde_stands_for_home() {
    assert_eq!(replace_tilde_str("~/a~b"), "$HOME/a$HOMEb");
    assert_eq!(expand(&replace_tilde_str("~~"), &env()), "/home/rat/home/rat");
    assert_eq!(expand(&replace_tilde_str("~"), &Vec::new()), "$HOME");
}

#[test]
fn matches_are_joined_with_their_replacements() {
    let gaps = vec!["a".to_string(), "/".to_string(), "".to_string()];
    let names = vec!["HOME".to_string(), "NOPE".to_string()];
    assert_eq!(expand_matches(&gaps, &names, &env()), "a/home/rat/$NOPE");
    assert_eq!(expand_matches(&vec!["plain".to_string()], &Vec::new(), &env()), "plain");
}

#[test]
fn click_animation_plays_once() {
    let mut a: Animation<u32> = Animation::new();
    a.load(vec![10, 11], vec![20, 21, 22], vec![30]);
    a.switch_animation(State::Click);
    assert_eq!(a.setup_next_frame(), Some((State::Click, 0)));
    assert_eq!(a.setup_next_frame(), Some((State::Click, 1)));
    assert_eq!(a.state(), State::Click);
    assert_eq!(a.setup_next_frame(), Some((State::Click, 2)));
    assert_eq!(a.state(), State::Idle);
    assert_eq!(a.current_index(), 0);
    assert_eq!(a.setup_next_frame(), Some((State::Idle, 0)));
    assert_eq!(a.setup_next_frame(), Some((State::Idle, 1)));
    assert_eq!(a.setup_next_frame(), Some((State::Idle, 0)));
    assert_eq!(a.frames(State::Click), Some(&vec![20, 21, 22]));
}

#[test]
fn nothing_is_shown_before_loading() {
    let mut a: Animation<u32> = Animation::new();
    assert_eq!(a.state(), State::Idle);
    assert_eq!(a.setup_next_frame(), None);
    assert_eq!(a.frames(State::Running), None);
}

#[test]
fn switching_and_loading_start_from_the_first_frame() {
    let mut a: Animation<u32> = Animation::new();
    a.load(vec![1, 2, 3], vec![4], vec![5, 6]);
    a.setup_next_frame();
    a.setup_next_frame();
    assert_eq!(a.current_index(), 2);
    a.rewind();
    assert_eq!(a.current_index(), 0);
    a.setup_next_frame();
    a.switch_animation(State::Running);
    assert_eq!(a.current_index(), 0);
    assert_eq!(a.setup_next_frame(), Some((State::Running, 0)));
    a.load(vec![7], vec![8], vec![9, 9, 9]);
    assert_eq!(a.state(), State::Running);
    assert_eq!(a.current_index(), 0);
}

#[test]
fn clicks_follow_the_state() {
    assert_eq!(click_outcome(State::Click, 0, 100), None);
    assert_eq!(click_outcome(State::Running, 0, 100), Some(State::Idle));
    assert_eq!(click_outcome(State::Idle, 30, 30), Some(State::Click));
    assert_eq!(click_outcome(State::Idle, 31, 30), Some(State::Running));
    assert_eq!(click_outcome(State::Idle, 0, 0), Some(State::Click));
    assert_eq!(click_outcome(State::Idle, 100, 99), Some(State::Running));
}

#[test]
fn pressing_the_character() {
    let mut a: Animation<u32> = Animation::new();
    a.load(vec![1], vec![2, 3], vec![4]);
    a.press(100);
    assert_eq!(a.state(), State::Click);
    a.setup_next_frame();
    a.press(100);
    assert_eq!(a.state(), State::Click);
    assert_eq!(a.current_index(), 1);
    a.switch_animation(State::Running);
    a.press(100);
    assert_eq!(a.state(), State::Idle);
    a.press(0);
    assert!(a.state() == State::Click || a.state() == State::Running);
}

#[test]
fn movement_wraps_around_the_screen() {
    assert_eq!(next_position(State::Idle, 50, false, 20, 100), None);
    assert_eq!(next_position(State::Click, 50, false, 20, 100), None);
    assert_eq!(next_position(State::Running, 50, false, 20, 100), Some(60));
    assert_eq!(next_position(State::Running, 90, false, 20, 100), Some(-20));
    assert_eq!(next_position(State::Running, 50, true, 20, 100), Some(40));
    assert_eq!(next_position(State::Running, -10, true, 20, 100), Some(100));
    assert_eq!(next_position(State::Running, -9, true, 20, 100), Some(-19));
}

#[test]
fn start_position_must_fit_on_screen() {
    assert!(check_start_position(0, 0, 200, 100, 1920, 1080, false).is_ok());
    assert!(matches!(
        check_start_position(1800, 0, 200, 100, 1920, 1080, false),
        Err(HomieError::CoordinatesOutOfBounds(1800, 0, 1920, 1080, 200, 100))
    ));
    assert!(matches!(
        check_start_position(0, -1, 200, 100, 1920, 1080, false),
        Err(HomieError::CoordinatesOutOfBounds(0, -1, 1920, 1080, 200, 100))
    ));
    assert!(check_start_position(0, 980, 200, 100, 1920, 1080, false).is_err());
    assert!(check_start_position(1800, -5, 200, 100, 1920, 1080, true).is_ok());
}

#[test]
fn intervals_in_milliseconds() {
    assert_eq!(interval_ms(35), 28);
    assert_eq!(interval_ms(1), 1000);
    assert_eq!(interval_ms(9), 111);
    assert_eq!(interval_ms(2000), 0);
}

fn frame_2x2() -> GifFrame {
    // pixels a b / c d, each pixel four equal bytes
    GifFrame {
        width: 2,
        height: 2,
        left: 3,
        top: 4,
        delay_numer_ms: 100,
        delay_denom_ms: 1,
        pixels: vec![1, 1, 1, 1, 2, 2, 2, 2, 3, 3, 3, 3, 4, 4, 4, 4],
    }
}

#[test]
fn transform_flips_as_configured() {
    let f = transform(frame_2x2(), &internal(false, false, None));
    assert_eq!(f.pixels, frame_2x2().pixels);
    let v = transform(frame_2x2(), &internal(true, false, None));
    assert_eq!(v.pixels, vec![3, 3, 3, 3, 4, 4, 4, 4, 1, 1, 1, 1, 2, 2, 2, 2]);
    let h = transform(frame_2x2(), &internal(false, true, None));
    assert_eq!(h.pixels, vec![2, 2, 2, 2, 1, 1, 1, 1, 4, 4, 4, 4, 3, 3, 3, 3]);
    let b = transform(frame_2x2(), &internal(true, true, None));
    assert_eq!(b.pixels, vec![4, 4, 4, 4, 3, 3, 3, 3, 2, 2, 2, 2, 1, 1, 1, 1]);
    assert_eq!((b.width, b.height, b.left, b.top), (2, 2, 3, 4));
    assert_eq!((b.delay_numer_ms, b.delay_denom_ms), (100, 1));
}

#[test]
fn frame_rate_sets_every_delay() {
    let frames = prepare_frames(vec![frame_2x2(), frame_2x2()], &internal(false, true, Some(9)));
    assert_eq!(frames.len(), 2);
    for f in &frames {
        assert_eq!((f.delay_numer_ms, f.delay_denom_ms), (111, 1));
        assert_eq!(f.pixels, vec![2, 2, 2, 2, 1, 1, 1, 1, 4, 4, 4, 4, 3, 3, 3, 3]);
    }
    let kept = prepare_frames(vec![frame_2x2()], &internal(false, false, None));
    assert_eq!((kept[0].delay_numer_ms, kept[0].delay_denom_ms), (100, 1));
}

/// A 1 × 1 GIF with one white pixel shown for 100 ms.
const WHITE_PIXEL: [u8; 43] = [
    0x47, 0x49, 0x46, 0x38, 0x39, 0x61, 0x01, 0x00, 0x01, 0x00, 0x80, 0x00, 0x00, 0xff, 0xff,
    0xff, 0x00, 0x00, 0x00, 0x21, 0xf9, 0x04, 0x00, 0x0a, 0x00, 0x00, 0x00, 0x2c, 0x00, 0x00,
    0x00, 0x00, 0x01, 0x00, 0x01, 0x00, 0x00, 0x02, 0x02, 0x44, 0x01, 0x00, 0x3b,
];

#[test]
fn load_gif_decodes_frames() {
    let frames = load_gif(&WHITE_PIXEL, &internal(false, false, None)).unwrap();
    assert_eq!(frames.len(), 1);
    assert_eq!((frames[0].width, frames[0].height), (1, 1));
    assert_eq!(frames[0].pixels, vec![255, 255, 255, 255]);
    assert_eq!((frames[0].delay_numer_ms, frames[0].delay_denom_ms), (100, 1));
    let fast = load_gif(&WHITE_PIXEL, &internal(true, true, Some(20))).unwrap();
    assert_eq!((fast[0].delay_numer_ms, fast[0].delay_denom_ms), (50, 1));
}

#[test]
fn load_gif_refuses_other_files() {
    assert!(matches!(
        load_gif(b"not a gif", &internal(false, false, None)),
        Err(HomieError::GifDecodingFailed(_))
    ));
}

#[test]
fn plain_paths_are_used_as_written() {
    assert_eq!(expand("/usr/share/homie/rat", &env()), "/usr/share/homie/rat");
    assert_eq!(expand("./res/rat_sprites/", &Vec::new()), "./res/rat_sprites/");
}

#[test]
fn running_character_stays_on_track() {
    let (width, screen) = (20, 100);
    let mut x: i64 = 95;
    for _ in 0..50 {
        x = next_position(State::Running, x, false, width, screen).unwrap();
        assert!(-(width as i64) <= x && x <= screen as i64);
    }
    for _ in 0..50 {
        x = next_position(State::Running, x, true, width, screen).unwrap();
        assert!(-(width as i64) <= x && x <= screen as i64);
    }
}

#[test]
fn default_converts_to_internal() {
    let i: InternalConfig = Config::default().into();
    assert_eq!(i.movement_speed, 35);
    assert_eq!(i.width, None);
    assert!(!i.debug);
}

#[test]
fn zero_frame_rate_only_where_no_frame_needs_it() {
    assert!(matches!(
        load_gif(b"not a gif", &internal(false, false, Some(0))),
        Err(HomieError::GifDecodingFailed(_))
    ));
    assert!(load_gif_checked(&WHITE_PIXEL, &internal(false, false, Some(0))).is_none());
    assert!(matches!(
        load_gif_checked(b"nope", &internal(false, false, Some(0))),
        Some(Err(HomieError::GifDecodingFailed(_)))
    ));
    let ok = load_gif_checked(&WHITE_PIXEL, &internal(false, false, Some(10))).unwrap().unwrap();
    assert_eq!((ok[0].delay_numer_ms, ok[0].delay_denom_ms), (100, 1));
    assert!(prepare_frames(Vec::new(), &internal(true, true, Some(0))).is_empty());
    let decoded = decode_frames(&WHITE_PIXEL).unwrap();
    assert_eq!(decoded.len(), 1);
    assert_eq!(decoded[0].pixels, vec![255, 255, 255, 255]);
}

#[test]
fn transforming_twice_gives_the_frame_back() {
    for (v, h) in [(false, false), (true, false), (false, true), (true, true)] {
        let c = internal(v, h, None);
        let twice = transform(transform(frame_2x2(), &c), &c);
        assert_eq!(twice.pixels, frame_2x2().pixels);
        assert_eq!((twice.width, twice.height, twice.left, twice.top), (2, 2, 3, 4));
    }
}

#[test]
fn empty_animations_are_reported() {
    let mut a: Animation<u32> = Animation::new();
    assert!(!a.plays_empty());
    a.load(Vec::new(), vec![1], vec![2]);
    assert!(a.plays_empty());
    a.switch_animation(State::Running);
    assert!(!a.plays_empty());
}

#[test]
fn position_stays_on_track_through_clicks() {
    let states = [State::Running, State::Idle, State::Click, State::Running, State::Running];
    let mut x: i64 = -20;
    for _ in 0..30 {
        for s in states {
            if let Some(n) = next_position(s, x, true, 20, 100) {
                x = n;
            }
            assert!((-20..=100).contains(&x));
        }
    }
}

#[test]
fn configured_path_always_resolves() {
    let mut c = Config::default();
    c.sprites_path = Some("/opt/homie".to_string());
    c.width = Some(10);
    let (_, path) = run(c, no_args(), &Vec::new()).unwrap();
    assert_eq!(path, "/opt/homie");
    assert!(expand_env("no references here", &Vec::new()).is_some());
}

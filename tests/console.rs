use puppet::parsing::{match_overloaded, match_player_joined};
use puppet::sanitize::sanitize;
use puppet::{load_all, ConsoleLine, Patterns};

fn patterns() -> Patterns {
    load_all().expect("the pattern table compiles")
}

fn parse(line: &str) -> Option<ConsoleLine> {
    ConsoleLine::parse_from(line, &patterns())
}

#[test]
fn done_loading_line() {
    let r = parse("[09:58:23] [Server thread/INFO]: Done (3.228s)! For help, type \"help\"");
    assert_eq!(r, Some(ConsoleLine::DoneLoading { time: "3.228".to_string() }));
    if let Some(ConsoleLine::DoneLoading { time }) = r {
        let seconds: f64 = time.parse().unwrap();
        assert!((seconds - 3.228).abs() < 1e-9);
    }
}

#[test]
fn player_joined_line() {
    let r = parse("[09:58:23] [Server thread/INFO]: Alex joined the game");
    assert_eq!(r, Some(ConsoleLine::PlayerJoined { username: "Alex".to_string() }));
}

#[test]
fn player_died_line() {
    let r = parse("[09:58:23] [Server thread/INFO]: Alex was slain by Zombie");
    assert_eq!(
        r,
        Some(ConsoleLine::PlayerDied { death_message: "Alex was slain by Zombie".to_string() })
    );
}

#[test]
fn chat_message_line() {
    let r = parse("[09:58:23] [Async Chat Thread - #0/INFO]: <Alex> hello world");
    assert_eq!(
        r,
        Some(ConsoleLine::ChatMessage {
            username: "Alex".to_string(),
            message: "hello world".to_string()
        })
    );
}

#[test]
fn overloaded_line() {
    let r = parse(
        "[09:58:23] [Server thread/WARN]: Can't keep up! Is the server overloaded? Running 1234ms or 56 ticks behind",
    );
    assert_eq!(r, Some(ConsoleLine::Overloaded { ticks_behind: 56, ms_behind: 1234 }));
}

#[test]
fn garbage_line() {
    assert_eq!(parse("random garbage text"), None);
}

#[test]
fn starting_server_line() {
    let r = parse("[09:58:23] [Server thread/INFO]: Starting minecraft server version 1.17.1");
    assert_eq!(r, Some(ConsoleLine::StartingServer { version: "1.17.1".to_string() }));
}

#[test]
fn stopping_server_line() {
    let r = parse("[09:58:23] [Server thread/INFO]: Stopping server");
    assert_eq!(r, Some(ConsoleLine::StoppingServer));
}

#[test]
fn player_moved_wrongly_line() {
    let r = parse("[09:58:23] [Server thread/INFO]: Alex moved too quickly! 1.5,2.0,3.0");
    assert_eq!(r, Some(ConsoleLine::PlayerMovedWrongly { username: "Alex".to_string() }));
}

#[test]
fn player_moved_wrongly_in_vehicle() {
    let r = parse("[09:58:23] [Server thread/INFO]: Boat (vehicle of Alex) moved wrongly!");
    assert_eq!(r, Some(ConsoleLine::PlayerMovedWrongly { username: "Alex".to_string() }));
}

#[test]
fn player_left_line() {
    let r = parse("[09:58:23] [Server thread/INFO]: Alex left the game");
    assert_eq!(r, Some(ConsoleLine::PlayerLeft { username: "Alex".to_string() }));
}

#[test]
fn long_time_stamp_and_logger_tag() {
    let r = parse("[05Jul2021 09:58:23.123] [Server thread/INFO] [net.minecraft.server/]: Alex left the game");
    assert_eq!(r, Some(ConsoleLine::PlayerLeft { username: "Alex".to_string() }));
}

#[test]
fn wrong_level_is_no_event() {
    assert_eq!(parse("[09:58:23] [Server thread/WARN]: Alex joined the game"), None);
    assert_eq!(
        parse("[09:58:23] [Server thread/INFO]: Can't keep up! Is the server overloaded? Running 1234ms or 56 ticks behind"),
        None
    );
}

#[test]
fn username_length_bounds() {
    let p = patterns();
    let line = |name: &str| format!("[09:58:23] [Server thread/INFO]: {} joined the game", name);
    assert_eq!(match_player_joined(&p, &line("Al")), None);
    assert_eq!(match_player_joined(&p, &line("Abcdefghijklmnopq")), None);
    assert_eq!(match_player_joined(&p, &line("Abc")), Some("Abc".to_string()));
    assert_eq!(
        match_player_joined(&p, &line("Abcdefghijklmnop")),
        Some("Abcdefghijklmnop".to_string())
    );
    assert_eq!(ConsoleLine::parse_from(&line("Al"), &p), None);
    assert_eq!(ConsoleLine::parse_from(&line("Abcdefghijklmnopq"), &p), None);
}

#[test]
fn death_line_with_angle_brackets_is_a_death() {
    let r = parse("[09:58:23] [Server thread/INFO]: Alex was slain by <Bob> hi");
    assert_eq!(
        r,
        Some(ConsoleLine::PlayerDied { death_message: "Alex was slain by <Bob> hi".to_string() })
    );
}

#[test]
fn moved_wrongly_outranks_death() {
    let line = "[09:58:23] [Server thread/INFO]: Alex was slain by Zombie (vehicle of Steve) moved wrongly!";
    assert_eq!(parse(line), Some(ConsoleLine::PlayerMovedWrongly { username: "Steve".to_string() }));
}

#[test]
fn death_message_keeps_first_template() {
    let r = parse("[09:58:23] [Server thread/INFO]: Alex drowned whilst trying to escape Zombie");
    assert_eq!(r, Some(ConsoleLine::PlayerDied { death_message: "Alex drowned".to_string() }));
}

#[test]
fn overloaded_numbers_that_do_not_fit_give_no_event() {
    let line = "[09:58:23] [Server thread/WARN]: Can't keep up! Is the server overloaded? Running 99999999999ms or 56 ticks behind";
    assert_eq!(match_overloaded(&patterns(), line), None);
    assert_eq!(parse(line), None);
}

#[test]
fn classification_is_deterministic() {
    let p = patterns();
    let line = "[09:58:23] [Server thread/INFO]: Alex joined the game";
    assert_eq!(ConsoleLine::parse_from(line, &p), ConsoleLine::parse_from(line, &p));
    assert_eq!(ConsoleLine::parse_from("junk", &p), ConsoleLine::parse_from("junk", &p));
}

#[test]
fn colored_line_is_classified() {
    let r = parse("\x1b[32m[09:58:23] [Server thread/INFO]: Alex joined the game\x1b[0m");
    assert_eq!(r, Some(ConsoleLine::PlayerJoined { username: "Alex".to_string() }));
}

#[test]
fn sanitize_removes_escapes() {
    assert_eq!(sanitize("\x1b[31mred\x1b[0m text\n"), "red text\n");
    assert_eq!(sanitize("a\tb\rc\nd"), "abc\nd");
    assert_eq!(sanitize("\x1b]0;title\x07shown"), "shown");
}

#[test]
fn sanitize_keeps_clean_text() {
    let clean = "[09:58:23] plain text, é ü\nnext line";
    assert_eq!(sanitize(clean), clean);
    assert_eq!(sanitize(""), "");
}

#[test]
fn sanitize_is_idempotent() {
    for x in ["\x1b[1;31mbold red\x1b[0m\n", "a\x07b\x1b[2Jc", "plain", "\x1b[", "x\u{9b}31my"] {
        let once = sanitize(x);
        assert_eq!(sanitize(&once), once);
    }
}

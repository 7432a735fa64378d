//! The text of each classification pattern.
use vstd::prelude::*;
use crate::templates::{death_templates, death_template_list};

verus! {

/// A player name: three to sixteen word characters.
pub open spec fn username() -> Seq<char> {
    "[\\w\\d]{3,16}"@
}

/// The opening of every log line: the time bracket and the opening of the
/// thread bracket.
pub open spec fn log_opening() -> Seq<char> {
    "^\\[(?:[\\d\\w]{9} [\\d:.]{12}|[\\d:]{8})\\] \\["@
}

/// The close of the thread bracket, an optional logger bracket and the colon.
pub open spec fn log_closing() -> Seq<char> {
    "\\](?: \\[[\\w.]+/?\\])?:"@
}

/// The prefix of an INFO line of the main server thread.
pub open spec fn info_log() -> Seq<char> {
    log_opening() + "Server thread/INFO"@ + log_closing()
}

/// The prefix of an INFO line of the main server thread or of a chat thread.
pub open spec fn info_log_chat() -> Seq<char> {
    log_opening() + "(?:Server thread/INFO|Async Chat Thread - #\\d+/INFO)"@ + log_closing()
}

/// The prefix of a WARN line of the main server thread.
pub open spec fn warn_log() -> Seq<char> {
    log_opening() + "Server thread/WARN"@ + log_closing()
}

/// A template with its placeholders replaced: the victim by a player name,
/// the attacker and the item by any non-empty text.
pub open spec fn fill(t: Seq<char>) -> Seq<char>
    decreases t.len(),
{
    if t.len() == 0 {
        seq![]
    } else if t.len() >= 3 && t[0] == '{' && t[1] == '1' && t[2] == '}' {
        username() + fill(t.subrange(3, t.len() as int))
    } else if t.len() >= 3 && t[0] == '{' && t[1] == '2' && t[2] == '}' {
        ".+"@ + fill(t.subrange(3, t.len() as int))
    } else if t.len() >= 6 && t[0] == '{' && t[1] == 'i' && t[2] == 't' && t[3] == 'e' && t[4]
        == 'm' && t[5] == '}' {
        ".+"@ + fill(t.subrange(6, t.len() as int))
    } else {
        seq![t[0]] + fill(t.subrange(1, t.len() as int))
    }
}

/// The filled templates joined by `|`.
pub open spec fn joined(ts: Seq<Seq<char>>) -> Seq<char>
    decreases ts.len(),
{
    if ts.len() == 0 {
        seq![]
    } else if ts.len() == 1 {
        fill(ts[0])
    } else {
        joined(ts.drop_last()) + "|"@ + fill(ts.last())
    }
}

/// The alternation of all death-message templates, as one group.
pub open spec fn death_alternation() -> Seq<char> {
    "(?:"@ + joined(death_templates()) + ")"@
}

/// The server finished starting; the group is the start-up time in seconds.
pub open spec fn done_loading_pattern() -> Seq<char> {
    info_log() + " Done \\((\\d+\\.\\d+)s\\)! For help, type \"help\""@
}

/// The server is starting; the group is its version.
pub open spec fn starting_server_pattern() -> Seq<char> {
    info_log() + " Starting minecraft server version (.+)"@
}

/// The server is shutting down.
pub open spec fn stopping_server_pattern() -> Seq<char> {
    info_log() + " Stopping server"@
}

/// The server is overloaded; the groups are the milliseconds, then the
/// ticks, that it is behind.
pub open spec fn overloaded_pattern() -> Seq<char> {
    warn_log()
        + " Can't keep up! Is the server overloaded\\? Running (\\d+)ms or (\\d+) ticks behind"@
}

/// A player, or the vehicle a player rides, moved wrongly or too quickly;
/// the first group is the mover, the second the rider.
pub open spec fn player_moved_wrongly_pattern() -> Seq<char> {
    info_log() + " (?:("@ + username() + ")|.+ \\(vehicle of ("@ + username()
        + ")\\)) moved (?:too quickly|wrongly)!.*"@
}

/// A player died; the group is the whole death message.
pub open spec fn player_died_pattern() -> Seq<char> {
    info_log() + " ("@ + death_alternation() + ")"@
}

/// A chat message; the groups are the sender and the text.
pub open spec fn chat_message_pattern() -> Seq<char> {
    info_log_chat() + " <("@ + username() + ")> (.+)"@
}

/// A player joined; the group is the player.
pub open spec fn player_joined_pattern() -> Seq<char> {
    info_log() + " ("@ + username() + ") joined the game"@
}

/// A player left; the group is the player.
pub open spec fn player_left_pattern() -> Seq<char> {
    info_log() + " ("@ + username() + ") left the game"@
}

/// The text of `username`.
fn username_text() -> (r: &'static str)
    ensures
        r@ == username(),
{
    "[\\w\\d]{3,16}"
}

/// Builds the log prefix whose thread bracket holds `thread`.
fn log_prefix(thread: &str) -> (r: String)
    ensures
        r@ == log_opening() + thread@ + log_closing(),
{
    let s = String::from_str("^\\[(?:[\\d\\w]{9} [\\d:.]{12}|[\\d:]{8})\\] \\[");
    s.concat(thread).concat("\\](?: \\[[\\w.]+/?\\])?:")
}

/// Builds the text of `info_log`.
fn info_log_text() -> (r: String)
    ensures
        r@ == info_log(),
{
    log_prefix("Server thread/INFO")
}

/// Replaces the placeholders of one template.
fn fill_template(t: &str) -> (r: String)
    ensures
        r@ == fill(t@),
{
    let n = t.unicode_len();
    let mut out = String::new();
    let mut i: usize = 0;
    assert(out@ + fill(t@.subrange(0, n as int)) =~= fill(t@)) by {
        assert(t@.subrange(0, n as int) =~= t@);
    }
    while i < n
        invariant
            n == t@.len(),
            i <= n,
            out@ + fill(t@.subrange(i as int, n as int)) == fill(t@),
        decreases n - i,
    {
        let ghost rest = t@.subrange(i as int, n as int);
        let c = t.get_char(i);
        let mut step: usize = 1;
        if c == '{' && n - i >= 3 && t.get_char(i + 2) == '}' && (t.get_char(i + 1) == '1'
            || t.get_char(i + 1) == '2') {
            if t.get_char(i + 1) == '1' {
                out.append(username_text());
            } else {
                out.append(".+");
            }
            step = 3;
        } else if c == '{' && n - i >= 6 && t.get_char(i + 1) == 'i' && t.get_char(i + 2) == 't'
            && t.get_char(i + 3) == 'e' && t.get_char(i + 4) == 'm' && t.get_char(i + 5) == '}' {
            out.append(".+");
            step = 6;
        } else {
            out.append(t.substring_char(i, i + 1));
        }
        proof {
            assert(rest.subrange(step as int, rest.len() as int) =~= t@.subrange(
                i + step,
                n as int,
            ));
            if step == 1 {
                assert(t@.subrange(i as int, i + 1) =~= seq![rest[0]]);
            }
        }
        i = i + step;
    }
    proof {
        assert(t@.subrange(n as int, n as int) =~= Seq::<char>::empty());
        assert(out@ + Seq::<char>::empty() =~= out@);
    }
    out
}

/// Builds the alternation of all death-message templates.
fn death_alternation_text() -> (r: String)
    ensures
        r@ == death_alternation(),
{
    let ts = death_template_list();
    let ghost spec_ts = death_templates();
    let mut out = String::new();
    let mut k: usize = 0;
    while k < ts.len()
        invariant
            ts@.map_values(|t: &str| t@) == spec_ts,
            spec_ts == death_templates(),
            k <= ts.len(),
            out@ == joined(spec_ts.take(k as int)),
        decreases ts.len() - k,
    {
        if k > 0 {
            out.append("|");
        }
        let f = fill_template(ts[k]);
        out.append(f.as_str());
        proof {
            assert(spec_ts[k as int] == ts@[k as int]@);
            assert(spec_ts.take(k + 1).drop_last() =~= spec_ts.take(k as int));
            if k == 0 {
                assert(joined(spec_ts.take(0)) =~= Seq::<char>::empty());
            }
        }
        k = k + 1;
    }
    assert(spec_ts.take(k as int) =~= spec_ts);
    let open = String::from_str("(?:");
    open.concat(out.as_str()).concat(")")
}

/// Builds the text of `done_loading_pattern`.
pub(crate) fn done_loading_text() -> (r: String)
    ensures
        r@ == done_loading_pattern(),
{
    info_log_text().concat(" Done \\((\\d+\\.\\d+)s\\)! For help, type \"help\"")
}

/// Builds the text of `starting_server_pattern`.
pub(crate) fn starting_server_text() -> (r: String)
    ensures
        r@ == starting_server_pattern(),
{
    info_log_text().concat(" Starting minecraft server version (.+)")
}

/// Builds the text of `stopping_server_pattern`.
pub(crate) fn stopping_server_text() -> (r: String)
    ensures
        r@ == stopping_server_pattern(),
{
    info_log_text().concat(" Stopping server")
}

/// Builds the text of `overloaded_pattern`.
pub(crate) fn overloaded_text() -> (r: String)
    ensures
        r@ == overloaded_pattern(),
{
    log_prefix("Server thread/WARN").concat(
        " Can't keep up! Is the server overloaded\\? Running (\\d+)ms or (\\d+) ticks behind",
    )
}

/// Builds the text of `player_moved_wrongly_pattern`.
pub(crate) fn player_moved_wrongly_text() -> (r: String)
    ensures
        r@ == player_moved_wrongly_pattern(),
{
    let r = info_log_text().concat(" (?:(").concat(username_text()).concat(
        ")|.+ \\(vehicle of (",
    ).concat(username_text()).concat(")\\)) moved (?:too quickly|wrongly)!.*");
    assert(r@ =~= player_moved_wrongly_pattern());
    r
}

/// Builds the text of `player_died_pattern`.
pub(crate) fn player_died_text() -> (r: String)
    ensures
        r@ == player_died_pattern(),
{
    let alternation = death_alternation_text();
    let r = info_log_text().concat(" (").concat(alternation.as_str()).concat(")");
    assert(r@ =~= player_died_pattern());
    r
}

/// Builds the text of `chat_message_pattern`.
pub(crate) fn chat_message_text() -> (r: String)
    ensures
        r@ == chat_message_pattern(),
{
    let r = log_prefix("(?:Server thread/INFO|Async Chat Thread - #\\d+/INFO)").concat(
        " <(",
    ).concat(username_text()).concat(")> (.+)");
    assert(r@ =~= chat_message_pattern());
    r
}

/// Builds the text of `player_joined_pattern`.
pub(crate) fn player_joined_text() -> (r: String)
    ensures
        r@ == player_joined_pattern(),
{
    let r = info_log_text().concat(" (").concat(username_text()).concat(") joined the game");
    assert(r@ =~= player_joined_pattern());
    r
}

/// Builds the text of `player_left_pattern`.
pub(crate) fn player_left_text() -> (r: String)
    ensures
        r@ == player_left_pattern(),
{
    let r = info_log_text().concat(" (").concat(username_text()).concat(") left the game");
    assert(r@ =~= player_left_pattern());
    r
}

} // verus!

//! Classification of console lines into events.
use vstd::prelude::*;
use crate::number::{check_decimal, is_decimal, parse_u32, u32_of};
use crate::pattern::{captures, captures_of, compile, compiles, groups_view, opt_view, Pattern};
use crate::sanitize::{sanitize, stripped};
use crate::rules::{
    chat_message_pattern, chat_message_text, done_loading_pattern, done_loading_text,
    overloaded_pattern, overloaded_text, player_died_pattern, player_died_text,
    player_joined_pattern, player_joined_text, player_left_pattern, player_left_text,
    player_moved_wrongly_pattern, player_moved_wrongly_text, starting_server_pattern,
    starting_server_text, stopping_server_pattern, stopping_server_text,
};

verus! {

/// The compiled classification patterns, one per kind of console line.
pub struct Patterns {
    done_loading: Pattern,
    starting_server: Pattern,
    stopping_server: Pattern,
    overloaded: Pattern,
    player_moved_wrongly: Pattern,
    player_died: Pattern,
    chat_message: Pattern,
    player_joined: Pattern,
    player_left: Pattern,
}

/// Whether every pattern text is accepted by the regex engine.
pub open spec fn all_compile() -> bool {
    &&& compiles(done_loading_pattern())
    &&& compiles(starting_server_pattern())
    &&& compiles(stopping_server_pattern())
    &&& compiles(overloaded_pattern())
    &&& compiles(player_moved_wrongly_pattern())
    &&& compiles(player_died_pattern())
    &&& compiles(chat_message_pattern())
    &&& compiles(player_joined_pattern())
    &&& compiles(player_left_pattern())
}

impl Patterns {
    /// Each pattern was compiled from its own text.
    pub closed spec fn wf(&self) -> bool {
        &&& self.done_loading.source() == done_loading_pattern()
        &&& self.starting_server.source() == starting_server_pattern()
        &&& self.stopping_server.source() == stopping_server_pattern()
        &&& self.overloaded.source() == overloaded_pattern()
        &&& self.player_moved_wrongly.source() == player_moved_wrongly_pattern()
        &&& self.player_died.source() == player_died_pattern()
        &&& self.chat_message.source() == chat_message_pattern()
        &&& self.player_joined.source() == player_joined_pattern()
        &&& self.player_left.source() == player_left_pattern()
    }
}

/// Compiles the whole pattern table. Compiling is costly (the death-message
/// alternation above all), so a caller builds the table once and shares it.
pub fn load_all() -> (r: Result<Patterns, regex::Error>)
    ensures
        r is Ok <==> all_compile(),
        r is Ok ==> r->Ok_0.wf(),
{
    let done_loading = compile(done_loading_text())?;
    let starting_server = compile(starting_server_text())?;
    let stopping_server = compile(stopping_server_text())?;
    let overloaded = compile(overloaded_text())?;
    let player_moved_wrongly = compile(player_moved_wrongly_text())?;
    let player_died = compile(player_died_text())?;
    let chat_message = compile(chat_message_text())?;
    let player_joined = compile(player_joined_text())?;
    let player_left = compile(player_left_text())?;
    Ok(
        Patterns {
            done_loading,
            starting_server,
            stopping_server,
            overloaded,
            player_moved_wrongly,
            player_died,
            chat_message,
            player_joined,
            player_left,
        },
    )
}

/// A console line of interest, as an event of the server.
#[derive(Debug, Clone, PartialEq)]
#[non_exhaustive]
pub enum ConsoleLine {
    /// The server finished starting up; `time` is the start-up time in
    /// seconds, as the decimal the server printed.
    DoneLoading { time: String },
    /// The server is starting up.
    StartingServer { version: String },
    /// The server is shutting down.
    StoppingServer,
    /// The server reports that it is overloaded.
    Overloaded { ticks_behind: u32, ms_behind: u32 },
    /// A player moved wrongly or too quickly.
    PlayerMovedWrongly { username: String },
    /// A player died; the whole death message is kept.
    PlayerDied { death_message: String },
    /// A player sent a chat message.
    ChatMessage { username: String, message: String },
    /// A player joined the server.
    PlayerJoined { username: String },
    /// A player left the server.
    PlayerLeft { username: String },
}

/// The mathematical form of a `ConsoleLine`.
pub enum LineEvent {
    DoneLoading { time: Seq<char> },
    StartingServer { version: Seq<char> },
    StoppingServer,
    Overloaded { ticks_behind: u32, ms_behind: u32 },
    PlayerMovedWrongly { username: Seq<char> },
    PlayerDied { death_message: Seq<char> },
    ChatMessage { username: Seq<char>, message: Seq<char> },
    PlayerJoined { username: Seq<char> },
    PlayerLeft { username: Seq<char> },
}

impl View for ConsoleLine {
    type V = LineEvent;

    open spec fn view(&self) -> LineEvent {
        match self {
            ConsoleLine::DoneLoading { time } => LineEvent::DoneLoading { time: time@ },
            ConsoleLine::StartingServer { version } => LineEvent::StartingServer {
                version: version@,
            },
            ConsoleLine::StoppingServer => LineEvent::StoppingServer,
            ConsoleLine::Overloaded { ticks_behind, ms_behind } => LineEvent::Overloaded {
                ticks_behind: *ticks_behind,
                ms_behind: *ms_behind,
            },
            ConsoleLine::PlayerMovedWrongly { username } => LineEvent::PlayerMovedWrongly {
                username: username@,
            },
            ConsoleLine::PlayerDied { death_message } => LineEvent::PlayerDied {
                death_message: death_message@,
            },
            ConsoleLine::ChatMessage { username, message } => LineEvent::ChatMessage {
                username: username@,
                message: message@,
            },
            ConsoleLine::PlayerJoined { username } => LineEvent::PlayerJoined {
                username: username@,
            },
            ConsoleLine::PlayerLeft { username } => LineEvent::PlayerLeft { username: username@ },
        }
    }
}

/// The view of an optional console line.
pub open spec fn event_of(r: Option<ConsoleLine>) -> Option<LineEvent> {
    match r {
        Some(l) => Some(l@),
        None => None,
    }
}

/// Group `i` of a match, where the match exists and the group took part.
pub open spec fn group(c: Option<Seq<Option<Seq<char>>>>, i: int) -> Option<Seq<char>> {
    match c {
        Some(gs) => if 0 <= i < gs.len() {
            gs[i]
        } else {
            None
        },
        None => None,
    }
}

/// The start-up time of a "done" line, where it reads as a decimal.
pub open spec fn done_loading_of(s: Seq<char>) -> Option<Seq<char>> {
    match group(captures_of(done_loading_pattern(), s), 1) {
        Some(t) => if is_decimal(t) {
            Some(t)
        } else {
            None
        },
        None => None,
    }
}

/// The version of a "starting" line.
pub open spec fn starting_server_of(s: Seq<char>) -> Option<Seq<char>> {
    group(captures_of(starting_server_pattern(), s), 1)
}

/// Whether `s` is a "stopping" line.
pub open spec fn stopping_server_of(s: Seq<char>) -> bool {
    captures_of(stopping_server_pattern(), s) is Some
}

/// The ticks and the milliseconds behind of an overload warning, where
/// both read as 32-bit numbers. The message gives the milliseconds first.
pub open spec fn overloaded_of(s: Seq<char>) -> Option<(u32, u32)> {
    let c = captures_of(overloaded_pattern(), s);
    match (group(c, 2), group(c, 1)) {
        (Some(ticks), Some(ms)) => match (u32_of(ticks), u32_of(ms)) {
            (Some(t), Some(m)) => Some((t, m)),
            _ => None,
        },
        _ => None,
    }
}

/// The player of a "moved wrongly" line: the mover, or else the rider of
/// the vehicle that moved.
pub open spec fn player_moved_wrongly_of(s: Seq<char>) -> Option<Seq<char>> {
    let c = captures_of(player_moved_wrongly_pattern(), s);
    match group(c, 1) {
        Some(u) => Some(u),
        None => group(c, 2),
    }
}

/// The whole death message of a death line.
pub open spec fn player_died_of(s: Seq<char>) -> Option<Seq<char>> {
    group(captures_of(player_died_pattern(), s), 1)
}

/// The sender and the text of a chat line.
pub open spec fn chat_message_of(s: Seq<char>) -> Option<(Seq<char>, Seq<char>)> {
    let c = captures_of(chat_message_pattern(), s);
    match (group(c, 1), group(c, 2)) {
        (Some(u), Some(m)) => Some((u, m)),
        _ => None,
    }
}

/// The player of a "joined" line.
pub open spec fn player_joined_of(s: Seq<char>) -> Option<Seq<char>> {
    group(captures_of(player_joined_pattern(), s), 1)
}

/// The player of a "left" line.
pub open spec fn player_left_of(s: Seq<char>) -> Option<Seq<char>> {
    group(captures_of(player_left_pattern(), s), 1)
}

/// The event that rule `k` gives for the clean line `s`, the rules taken
/// in priority order.
pub open spec fn rule_event(k: int, s: Seq<char>) -> Option<LineEvent> {
    if k == 0 {
        match done_loading_of(s) {
            Some(t) => Some(LineEvent::DoneLoading { time: t }),
            None => None,
        }
    } else if k == 1 {
        match starting_server_of(s) {
            Some(v) => Some(LineEvent::StartingServer { version: v }),
            None => None,
        }
    } else if k == 2 {
        if stopping_server_of(s) {
            Some(LineEvent::StoppingServer)
        } else {
            None
        }
    } else if k == 3 {
        match overloaded_of(s) {
            Some((t, m)) => Some(LineEvent::Overloaded { ticks_behind: t, ms_behind: m }),
            None => None,
        }
    } else if k == 4 {
        match player_moved_wrongly_of(s) {
            Some(u) => Some(LineEvent::PlayerMovedWrongly { username: u }),
            None => None,
        }
    } else if k == 5 {
        match player_died_of(s) {
            Some(d) => Some(LineEvent::PlayerDied { death_message: d }),
            None => None,
        }
    } else if k == 6 {
        match chat_message_of(s) {
            Some((u, m)) => Some(LineEvent::ChatMessage { username: u, message: m }),
            None => None,
        }
    } else if k == 7 {
        match player_joined_of(s) {
            Some(u) => Some(LineEvent::PlayerJoined { username: u }),
            None => None,
        }
    } else if k == 8 {
        match player_left_of(s) {
            Some(u) => Some(LineEvent::PlayerLeft { username: u }),
            None => None,
        }
    } else {
        None
    }
}

/// The number of classification rules.
pub open spec fn rule_count() -> int {
    9
}

/// The event of the first rule, from rule `k` on, that matches `s`.
pub open spec fn first_event(k: int, s: Seq<char>) -> Option<LineEvent>
    decreases rule_count() - k,
{
    if k >= rule_count() || k < 0 {
        None
    } else if rule_event(k, s) is Some {
        rule_event(k, s)
    } else {
        first_event(k + 1, s)
    }
}

/// The event of a clean line: that of the first rule that matches it.
pub open spec fn classify(s: Seq<char>) -> Option<LineEvent> {
    first_event(0, s)
}

/// The event of a raw console line: its sanitized text, classified.
pub open spec fn console_line_of(line: Seq<char>) -> Option<LineEvent> {
    classify(stripped(line))
}

/// The position of an event's kind in the priority order.
pub open spec fn category(e: LineEvent) -> int {
    match e {
        LineEvent::DoneLoading { .. } => 0,
        LineEvent::StartingServer { .. } => 1,
        LineEvent::StoppingServer => 2,
        LineEvent::Overloaded { .. } => 3,
        LineEvent::PlayerMovedWrongly { .. } => 4,
        LineEvent::PlayerDied { .. } => 5,
        LineEvent::ChatMessage { .. } => 6,
        LineEvent::PlayerJoined { .. } => 7,
        LineEvent::PlayerLeft { .. } => 8,
    }
}

fn group_at(c: &Vec<Option<String>>, i: usize) -> (r: Option<String>)
    ensures
        opt_view(r) == group(Some(groups_view(c@)), i as int),
{
    if i < c.len() {
        match &c[i] {
            Some(g) => Some(g.clone()),
            None => None,
        }
    } else {
        None
    }
}

/// The start-up time of a "done" line; a time that does not read as a
/// decimal gives no match.
pub fn match_done_loading(p: &Patterns, line: &str) -> (r: Option<String>)
    requires
        p.wf(),
    ensures
        opt_view(r) == done_loading_of(line@),
{
    let c = captures(&p.done_loading, line)?;
    let t = group_at(&c, 1)?;
    if check_decimal(t.as_str()) {
        Some(t)
    } else {
        None
    }
}

/// The version of a "starting" line.
pub fn match_starting_server(p: &Patterns, line: &str) -> (r: Option<String>)
    requires
        p.wf(),
    ensures
        opt_view(r) == starting_server_of(line@),
{
    let c = captures(&p.starting_server, line)?;
    group_at(&c, 1)
}

/// Whether the line is a "stopping" line.
pub fn match_stopping_server(p: &Patterns, line: &str) -> (r: bool)
    requires
        p.wf(),
    ensures
        r == stopping_server_of(line@),
{
    captures(&p.stopping_server, line).is_some()
}

/// The ticks and the milliseconds behind of an overload warning; a number
/// that does not fit in 32 bits gives no match.
pub fn match_overloaded(p: &Patterns, line: &str) -> (r: Option<(u32, u32)>)
    requires
        p.wf(),
    ensures
        r == overloaded_of(line@),
{
    let c = captures(&p.overloaded, line);
    match c {
        None => None,
        Some(c) => {
            let ms = group_at(&c, 1);
            let ticks = group_at(&c, 2);
            match (ticks, ms) {
                (Some(t), Some(m)) => {
                    let tv = parse_u32(t.as_str());
                    let mv = parse_u32(m.as_str());
                    match (tv, mv) {
                        (Some(a), Some(b)) => Some((a, b)),
                        _ => None,
                    }
                },
                _ => None,
            }
        },
    }
}

/// The player of a "moved wrongly" line.
pub fn match_player_moved_wrongly(p: &Patterns, line: &str) -> (r: Option<String>)
    requires
        p.wf(),
    ensures
        opt_view(r) == player_moved_wrongly_of(line@),
{
    let c = captures(&p.player_moved_wrongly, line)?;
    match group_at(&c, 1) {
        Some(u) => Some(u),
        None => group_at(&c, 2),
    }
}

/// The whole death message of a death line.
pub fn match_player_died(p: &Patterns, line: &str) -> (r: Option<String>)
    requires
        p.wf(),
    ensures
        opt_view(r) == player_died_of(line@),
{
    let c = captures(&p.player_died, line)?;
    group_at(&c, 1)
}

/// The sender and the text of a chat line.
pub fn match_chat_message(p: &Patterns, line: &str) -> (r: Option<(String, String)>)
    requires
        p.wf(),
    ensures
        match r {
            Some((u, m)) => chat_message_of(line@) == Some((u@, m@)),
            None => chat_message_of(line@) is None,
        },
{
    let c = captures(&p.chat_message, line)?;
    let u = group_at(&c, 1)?;
    let m = group_at(&c, 2)?;
    Some((u, m))
}

/// The player of a "joined" line.
pub fn match_player_joined(p: &Patterns, line: &str) -> (r: Option<String>)
    requires
        p.wf(),
    ensures
        opt_view(r) == player_joined_of(line@),
{
    let c = captures(&p.player_joined, line)?;
    group_at(&c, 1)
}

/// The player of a "left" line.
pub fn match_player_left(p: &Patterns, line: &str) -> (r: Option<String>)
    requires
        p.wf(),
    ensures
        opt_view(r) == player_left_of(line@),
{
    let c = captures(&p.player_left, line)?;
    group_at(&c, 1)
}

impl ConsoleLine {
    /// Classifies an already sanitized line: the event of the first rule,
    /// in priority order, that matches it.
    pub fn classify_clean(line: &str, patterns: &Patterns) -> (r: Option<ConsoleLine>)
        requires
            patterns.wf(),
        ensures
            event_of(r) == classify(line@),
    {
        let ghost s = line@;
        reveal_with_fuel(first_event, 10);
        if let Some(time) = match_done_loading(patterns, line) {
            Some(ConsoleLine::DoneLoading { time })
        } else if let Some(version) = match_starting_server(patterns, line) {
            Some(ConsoleLine::StartingServer { version })
        } else if match_stopping_server(patterns, line) {
            Some(ConsoleLine::StoppingServer)
        } else if let Some((ticks_behind, ms_behind)) = match_overloaded(patterns, line) {
            Some(ConsoleLine::Overloaded { ticks_behind, ms_behind })
        } else if let Some(username) = match_player_moved_wrongly(patterns, line) {
            Some(ConsoleLine::PlayerMovedWrongly { username })
        } else if let Some(death_message) = match_player_died(patterns, line) {
            Some(ConsoleLine::PlayerDied { death_message })
        } else if let Some((username, message)) = match_chat_message(patterns, line) {
            Some(ConsoleLine::ChatMessage { username, message })
        } else if let Some(username) = match_player_joined(patterns, line) {
            Some(ConsoleLine::PlayerJoined { username })
        } else if let Some(username) = match_player_left(patterns, line) {
            Some(ConsoleLine::PlayerLeft { username })
        } else {
            None
        }
    }

    /// Sanitizes a raw console line and classifies it.
    pub fn parse_from(line: &str, patterns: &Patterns) -> (r: Option<ConsoleLine>)
        requires
            patterns.wf(),
        ensures
            event_of(r) == console_line_of(line@),
    {
        let clean = sanitize(line);
        ConsoleLine::classify_clean(clean.as_str(), patterns)
    }
}

/// Classifying is a function of the line's text: equal lines give equal
/// events.
pub proof fn lemma_classify_deterministic(a: Seq<char>, b: Seq<char>)
    requires
        a == b,
    ensures
        console_line_of(a) == console_line_of(b),
{
}

/// The first matching rule decides: where rule `j` matches a clean line, the
/// line is classified, by rule `j` or by an earlier rule, never by a later
/// one; and where no earlier rule matches, by rule `j`.
pub proof fn lemma_earlier_rule_wins(j: int, s: Seq<char>)
    requires
        0 <= j < rule_count(),
        rule_event(j, s) is Some,
    ensures
        classify(s) is Some,
        category(classify(s)->0) <= j,
        classify(s) == rule_event(category(classify(s)->0), s),
        (forall|i: int| 0 <= i < j ==> rule_event(i, s) is None) ==> classify(s) == rule_event(
            j,
            s,
        ),
{
    reveal_with_fuel(first_event, 10);
}

} // verus!

//! The conversation with one remote client, as a state machine.
//!
//! The client first sends a token; only after the right token are its
//! commands answered. Each step takes what was read from the client and
//! returns the next state and the outputs, in order: lines to send, events
//! to log and actions to carry out. The program around the library reads,
//! writes, logs and acts.
use vstd::prelude::*;
use crate::model::SystemSnapshot;
use crate::response::{answer_text, format_response, is_answer_action, normalized, Action};
use crate::text::{
    ascii_lower, chars_of, eq_ascii_case, eq_ascii_case_chars, remove_char, string_of, trim,
    trim_chars,
};

verus! {

// ---------------------------------------------------------------------------
// Trusted std call
// ---------------------------------------------------------------------------

/// Names the `Debug` rendering of a string (`format!("{:?}", s)`: the text
/// in double quotes, with `char::escape_debug` escapes).
pub uninterp spec fn debug_of(s: Seq<char>) -> Seq<char>;

/// `format!("{:?}", s)` on a string slice. The contract claims only that
/// the text is a function of the characters of `s`.
#[verifier::external_body]
fn debug_text(s: &str) -> (r: String)
    ensures
        r@ == debug_of(s@),
{
    format!("{:?}", s)
}

// ---------------------------------------------------------------------------
// States, events, outputs
// ---------------------------------------------------------------------------

/// Where a conversation stands.
#[derive(Debug, Clone, Copy, PartialEq, Eq, Structural)]
pub enum SessionState {
    /// Waiting for the token line.
    AwaitingToken,
    /// The token was right: commands are answered.
    Authenticated,
    /// The conversation is over.
    Closed,
}

/// What was read from the client.
#[derive(Debug, Clone)]
pub enum SessionEvent {
    /// A line: the token line as read, or a command line without its line
    /// break.
    Line(String),
    /// Reading failed.
    ReadFailed,
    /// The client closed its side.
    Ended,
}

/// One thing to do, in order.
#[derive(Debug, Clone)]
pub enum Output {
    /// Write this text to the client.
    Send(String),
    /// Record this event in the log.
    Log(String),
    /// Carry out this action.
    Act(Action),
}

/// The next state and what to do on the way.
#[derive(Debug, Clone)]
pub struct SessionStep {
    pub state: SessionState,
    pub outputs: Vec<Output>,
}

// ---------------------------------------------------------------------------
// Specification
// ---------------------------------------------------------------------------

/// The token that opens a session.
pub open spec fn auth_token() -> Seq<char> {
    "ENSPD2025"@
}

/// A token line, trimmed and without NUL characters.
pub open spec fn clean_token(line: Seq<char>) -> Seq<char> {
    trim(line).filter(|x: char| x != '\0')
}

/// Whether a token line opens the session: its clean form equals the
/// token up to ASCII case.
pub open spec fn token_accepted(line: Seq<char>) -> bool {
    eq_ascii_case(clean_token(line), auth_token())
}

/// Whether `o` sends `text`.
pub open spec fn is_send(o: Output, text: Seq<char>) -> bool {
    o matches Output::Send(s) && s@ == text
}

/// Whether `o` logs `text`.
pub open spec fn is_log(o: Output, text: Seq<char>) -> bool {
    o matches Output::Log(s) && s@ == text
}

/// The log entry for a new connection.
pub open spec fn connected_log(peer: Seq<char>) -> Seq<char> {
    "[+] Connexion de "@ + peer
}

/// The log entry for a received token.
pub open spec fn token_log(debug: Seq<char>) -> Seq<char> {
    "Token reçu: '"@ + debug + "'"@
}

/// The log entry for a refused token.
pub open spec fn refused_log(peer: Seq<char>) -> Seq<char> {
    "[!] Accès refusé depuis "@ + peer
}

/// The log entry for an accepted token.
pub open spec fn accepted_log(peer: Seq<char>) -> Seq<char> {
    "[✓] Authentifié: "@ + peer
}

/// The log entry for a command.
pub open spec fn command_log(peer: Seq<char>, cmd: Seq<char>) -> Seq<char> {
    "["@ + peer + "] commande: '"@ + cmd + "'"@
}

/// The log entry for the end of a conversation.
pub open spec fn closed_log(peer: Seq<char>) -> Seq<char> {
    "[-] Déconnexion de "@ + peer
}

/// The token line that an event carries in the token state: a line as read,
/// an empty line when the client closed its side, nothing on a failure.
pub open spec fn token_line_of(ev: SessionEvent) -> Option<Seq<char>> {
    match ev {
        SessionEvent::Line(l) => Some(l@),
        SessionEvent::Ended => Some(Seq::empty()),
        SessionEvent::ReadFailed => None,
    }
}

/// Whether `r` is the step from `st` on `ev`, for the client `peer`, with
/// `snap` the current snapshot.
pub open spec fn is_step(
    st: SessionState,
    ev: SessionEvent,
    peer: Seq<char>,
    snap: SystemSnapshot,
    r: SessionStep,
) -> bool {
    let o = r.outputs@;
    match st {
        SessionState::Closed => r.state == SessionState::Closed && o.len() == 0,
        SessionState::AwaitingToken => match token_line_of(ev) {
            None => {
                &&& r.state == SessionState::Closed
                &&& o.len() == 2
                &&& is_send(o[0], "UNAUTHORIZED\n"@)
                &&& is_log(o[1], refused_log(peer))
            },
            Some(line) => {
                &&& o.len() == 3
                &&& is_log(o[0], token_log(debug_of(clean_token(line))))
                &&& if token_accepted(line) {
                    &&& r.state == SessionState::Authenticated
                    &&& is_send(o[1], "OK\n"@)
                    &&& is_log(o[2], accepted_log(peer))
                } else {
                    &&& r.state == SessionState::Closed
                    &&& is_send(o[1], "UNAUTHORIZED\n"@)
                    &&& is_log(o[2], refused_log(peer))
                }
            },
        },
        SessionState::Authenticated => match ev {
            SessionEvent::Line(l) => {
                let c = trim(l@);
                &&& is_log(o[0], command_log(peer, c))
                &&& if eq_ascii_case(c, "quit"@) {
                    &&& r.state == SessionState::Closed
                    &&& o.len() == 3
                    &&& is_send(o[1], "BYE\n"@)
                    &&& is_log(o[2], closed_log(peer))
                } else {
                    &&& r.state == SessionState::Authenticated
                    &&& o.len() == 4
                    &&& o[1] matches Output::Act(a) && is_answer_action(a, c, normalized(c))
                    &&& is_send(o[2], answer_text(snap, c, normalized(c)))
                    &&& is_send(o[3], "\nEND\n"@)
                }
            },
            _ => {
                &&& r.state == SessionState::Closed
                &&& o.len() == 1
                &&& is_log(o[0], closed_log(peer))
            },
        },
    }
}

// ---------------------------------------------------------------------------
// Executable
// ---------------------------------------------------------------------------

/// A log entry made of a prefix, a text and a suffix.
fn framed(prefix: &str, text: &str, suffix: &str) -> (r: String)
    ensures
        r@ == prefix@ + text@ + suffix@,
{
    let mut s = String::new();
    s.append(prefix);
    s.append(text);
    s.append(suffix);
    s
}

/// The log entry for a received token, given its `Debug` rendering.
pub fn token_received_message(debug: &str) -> (r: String)
    ensures
        r@ == token_log(debug@),
{
    framed("Token reçu: '", debug, "'")
}

/// Opens a conversation with `peer`: log it and ask for the token.
pub fn session_start(peer: &str) -> (r: SessionStep)
    ensures
        r.state == SessionState::AwaitingToken,
        r.outputs@.len() == 2,
        is_log(r.outputs@[0], connected_log(peer@)),
        is_send(r.outputs@[1], "TOKEN:\n"@),
{
    let mut outputs: Vec<Output> = Vec::new();
    outputs.push(Output::Log(framed("[+] Connexion de ", peer, "")));
    outputs.push(Output::Send(String::from_str("TOKEN:\n")));
    proof {
        reveal_strlit("");
    }
    assert(outputs@[0] matches Output::Log(s) && s@ =~= connected_log(peer@));
    SessionStep { state: SessionState::AwaitingToken, outputs }
}

/// The step for a token line (`None` when reading it failed).
fn token_step(line: Option<&str>, peer: &str) -> (r: SessionStep)
    ensures
        line is None ==> {
            &&& r.state == SessionState::Closed
            &&& r.outputs@.len() == 2
            &&& is_send(r.outputs@[0], "UNAUTHORIZED\n"@)
            &&& is_log(r.outputs@[1], refused_log(peer@))
        },
        line matches Some(l) ==> {
            &&& r.outputs@.len() == 3
            &&& is_log(r.outputs@[0], token_log(debug_of(clean_token(l@))))
            &&& if token_accepted(l@) {
                &&& r.state == SessionState::Authenticated
                &&& is_send(r.outputs@[1], "OK\n"@)
                &&& is_log(r.outputs@[2], accepted_log(peer@))
            } else {
                &&& r.state == SessionState::Closed
                &&& is_send(r.outputs@[1], "UNAUTHORIZED\n"@)
                &&& is_log(r.outputs@[2], refused_log(peer@))
            }
        },
{
    proof {
        reveal_strlit("");
    }
    let mut outputs: Vec<Output> = Vec::new();
    match line {
        None => {
            outputs.push(Output::Send(String::from_str("UNAUTHORIZED\n")));
            outputs.push(Output::Log(framed("[!] Accès refusé depuis ", peer, "")));
            assert(outputs@[1] matches Output::Log(s) && s@ =~= refused_log(peer@));
            SessionStep { state: SessionState::Closed, outputs }
        },
        Some(l) => {
            let raw = chars_of(l);
            let clean = remove_char(&trim_chars(&raw), '\0');
            let clean_s = string_of(&clean);
            let dbg = debug_text(clean_s.as_str());
            outputs.push(Output::Log(token_received_message(dbg.as_str())));
            let token = chars_of("ENSPD2025");
            if eq_ascii_case_chars(&clean, &token) {
                outputs.push(Output::Send(String::from_str("OK\n")));
                outputs.push(Output::Log(framed("[✓] Authentifié: ", peer, "")));
                assert(outputs@[2] matches Output::Log(s) && s@ =~= accepted_log(peer@));
                SessionStep { state: SessionState::Authenticated, outputs }
            } else {
                outputs.push(Output::Send(String::from_str("UNAUTHORIZED\n")));
                outputs.push(Output::Log(framed("[!] Accès refusé depuis ", peer, "")));
                assert(outputs@[2] matches Output::Log(s) && s@ =~= refused_log(peer@));
                SessionStep { state: SessionState::Closed, outputs }
            }
        },
    }
}

/// The step for a command line of an authenticated client.
fn command_step(line: &str, peer: &str, snapshot: &SystemSnapshot) -> (r: SessionStep)
    ensures
        ({
            let c = trim(line@);
            let o = r.outputs@;
            &&& is_log(o[0], command_log(peer@, c))
            &&& if eq_ascii_case(c, "quit"@) {
                &&& r.state == SessionState::Closed
                &&& o.len() == 3
                &&& is_send(o[1], "BYE\n"@)
                &&& is_log(o[2], closed_log(peer@))
            } else {
                &&& r.state == SessionState::Authenticated
                &&& o.len() == 4
                &&& o[1] matches Output::Act(a) && is_answer_action(a, c, normalized(c))
                &&& is_send(o[2], answer_text(*snapshot, c, normalized(c)))
                &&& is_send(o[3], "\nEND\n"@)
            }
        }),
{
    proof {
        reveal_strlit("");
    }
    let raw = chars_of(line);
    let c = trim_chars(&raw);
    let cmd = string_of(&c);
    let mut outputs: Vec<Output> = Vec::new();
    let mut entry = framed("[", peer, "] commande: '");
    entry.append(cmd.as_str());
    entry.append("'");
    outputs.push(Output::Log(entry));
    let quit = chars_of("quit");
    if eq_ascii_case_chars(&c, &quit) {
        outputs.push(Output::Send(String::from_str("BYE\n")));
        outputs.push(Output::Log(framed("[-] Déconnexion de ", peer, "")));
        assert(outputs@[2] matches Output::Log(s) && s@ =~= closed_log(peer@));
        SessionStep { state: SessionState::Closed, outputs }
    } else {
        let reply = format_response(snapshot, cmd.as_str());
        outputs.push(Output::Act(reply.action));
        outputs.push(Output::Send(reply.text));
        outputs.push(Output::Send(String::from_str("\nEND\n")));
        SessionStep { state: SessionState::Authenticated, outputs }
    }
}

/// The step from `state` on `event`, for the client `peer`, answering with
/// `snapshot`.
pub fn session_step(
    state: SessionState,
    event: &SessionEvent,
    peer: &str,
    snapshot: &SystemSnapshot,
) -> (r: SessionStep)
    ensures
        is_step(state, *event, peer@, *snapshot, r),
{
    proof {
        reveal_strlit("");
    }
    match state {
        SessionState::Closed => SessionStep { state: SessionState::Closed, outputs: Vec::new() },
        SessionState::AwaitingToken => match event {
            SessionEvent::Line(l) => token_step(Some(l.as_str()), peer),
            SessionEvent::Ended => {
                let r = token_step(Some(""), peer);
                assert(""@ =~= Seq::<char>::empty());
                r
            },
            SessionEvent::ReadFailed => token_step(None, peer),
        },
        SessionState::Authenticated => match event {
            SessionEvent::Line(l) => command_step(l.as_str(), peer, snapshot),
            _ => {
                let mut outputs: Vec<Output> = Vec::new();
                outputs.push(Output::Log(framed("[-] Déconnexion de ", peer, "")));
                assert(outputs@[0] matches Output::Log(s) && s@ =~= closed_log(peer@));
                SessionStep { state: SessionState::Closed, outputs }
            },
        },
    }
}

// ---------------------------------------------------------------------------
// Laws
// ---------------------------------------------------------------------------

/// A closed conversation stays closed and does nothing more.
pub proof fn lemma_closed_is_final(
    ev: SessionEvent,
    peer: Seq<char>,
    snap: SystemSnapshot,
    r: SessionStep,
)
    requires
        is_step(SessionState::Closed, ev, peer, snap, r),
    ensures
        r.state == SessionState::Closed,
        r.outputs@.len() == 0,
{
}

/// Before the token is accepted, nothing is answered and nothing is
/// carried out: the only texts sent are `OK` and `UNAUTHORIZED`, and the
/// session opens exactly when the token line is accepted.
pub proof fn lemma_no_service_before_token(
    ev: SessionEvent,
    peer: Seq<char>,
    snap: SystemSnapshot,
    r: SessionStep,
)
    requires
        is_step(SessionState::AwaitingToken, ev, peer, snap, r),
    ensures
        forall|i: int|
            0 <= i < r.outputs@.len() ==> !(#[trigger] r.outputs@[i] is Act),
        forall|i: int|
            0 <= i < r.outputs@.len() && #[trigger] r.outputs@[i] is Send ==> is_send(
                r.outputs@[i],
                "OK\n"@,
            ) || is_send(r.outputs@[i], "UNAUTHORIZED\n"@),
        r.state == SessionState::Authenticated <==> (token_line_of(ev) matches Some(l)
            && token_accepted(l)),
        r.state != SessionState::Authenticated ==> r.state == SessionState::Closed,
{
}

/// The token is checked up to ASCII case, white space around it and NUL
/// characters anywhere in it.
pub proof fn lemma_token_tolerance(a: Seq<char>, b: Seq<char>)
    requires
        eq_ascii_case(clean_token(a), clean_token(b)),
    ensures
        token_accepted(a) <==> token_accepted(b),
{
    let ca = clean_token(a);
    let cb = clean_token(b);
    let t = auth_token();
    if token_accepted(a) {
        assert forall|i: int| 0 <= i < cb.len() implies ascii_lower(#[trigger] cb[i])
            == ascii_lower(t[i]) by {
            assert(ascii_lower(ca[i]) == ascii_lower(cb[i]));
            assert(ascii_lower(ca[i]) == ascii_lower(t[i]));
        }
    }
    if token_accepted(b) {
        assert forall|i: int| 0 <= i < ca.len() implies ascii_lower(#[trigger] ca[i])
            == ascii_lower(t[i]) by {
            assert(ascii_lower(ca[i]) == ascii_lower(cb[i]));
            assert(ascii_lower(cb[i]) == ascii_lower(t[i]));
        }
    }
}

/// Once authenticated, every command other than `quit` is answered by its
/// answer followed by the end marker, and the session stays open; `quit`
/// in any ASCII case closes it with `BYE`.
pub proof fn lemma_commands_answered(
    line: String,
    peer: Seq<char>,
    snap: SystemSnapshot,
    r: SessionStep,
)
    requires
        is_step(SessionState::Authenticated, SessionEvent::Line(line), peer, snap, r),
    ensures
        eq_ascii_case(trim(line@), "quit"@) ==> r.state == SessionState::Closed && is_send(
            r.outputs@[1],
            "BYE\n"@,
        ),
        !eq_ascii_case(trim(line@), "quit"@) ==> r.state == SessionState::Authenticated
            && is_send(r.outputs@[r.outputs@.len() - 1], "\nEND\n"@) && is_send(
            r.outputs@[r.outputs@.len() - 2],
            answer_text(snap, trim(line@), normalized(trim(line@))),
        ),
{
}

} // verus!

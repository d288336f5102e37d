//! Answers to the commands of a remote client.
//!
//! A command is trimmed and lower-cased, then matched against the known
//! commands. Each answer is a text, and sometimes an action that the
//! program around the library carries out (power control, showing a
//! message, installing a package).
use vstd::prelude::*;
use crate::model::{NetworkInfo, ProcessInfo, SystemSnapshot};
use crate::text::{
    byte_room, chars_of, concat, dec, eq_chars_str, join, push_char, push_chars, push_decimal,
    push_spaces, skip_chars, spaces, starts_with_str, string_of, trim, trim_chars, utf8_len,
    all_ascii, ascii_lower, ascii_lowered, is_white, trim_end, trim_start,
};

verus! {

// ---------------------------------------------------------------------------
// Trusted std call
// ---------------------------------------------------------------------------

/// Names the result of `str::to_lowercase` (Unicode lower-casing, whose
/// tables are not restated here).
pub uninterp spec fn lowercase_of(s: Seq<char>) -> Seq<char>;

/// `str::to_lowercase`. The contract claims that the result is the
/// lower-casing of the argument, a function of its characters, and that
/// on an all-ASCII argument it maps each ASCII upper-case letter to its
/// lower-case letter and keeps every other character. That is what the
/// documentation of `char::to_lowercase` gives for ASCII characters (the
/// one-to-one mapping of the Unicode Character Database, `A`–`Z` to
/// `a`–`z`, and no mapping for the other ASCII characters), applied
/// character by character as `str::to_lowercase` does outside its rule for
/// a final `Σ`, which is not ASCII. What it gives for other characters is
/// left unsaid.
#[verifier::external_body]
fn to_lowercase(s: &str) -> (r: String)
    ensures
        r@ == lowercase_of(s@),
        all_ascii(s@) ==> r@ == ascii_lowered(s@),
{
    s.to_lowercase()
}

// ---------------------------------------------------------------------------
// Actions
// ---------------------------------------------------------------------------

/// What the program must do besides sending the answer.
#[derive(Debug, Clone)]
pub enum Action {
    /// Nothing more.
    Nothing,
    /// Power off the machine in 5 seconds (`shutdown /s /t 5`).
    Shutdown,
    /// Restart the machine in 5 seconds (`shutdown /r /t 5`).
    Reboot,
    /// Cancel a pending power-off or restart (`shutdown /a`).
    CancelShutdown,
    /// Print this text on the local terminal.
    ShowMessage(String),
    /// Install this package in the background (`winget install --silent`).
    Install(String),
}

/// An answer and the action that goes with it.
#[derive(Debug, Clone)]
pub struct Reply {
    pub text: String,
    pub action: Action,
}

// ---------------------------------------------------------------------------
// Specifications of the answers
// ---------------------------------------------------------------------------

/// A bar of `width` cells whose first `full` cells are filled.
pub open spec fn bar(width: nat, full: nat) -> Seq<char> {
    Seq::new(width, |i: int| if i < full { '█' } else { '░' })
}

/// `[CPU]`: the CPU line, a bar of ten cells with one filled per whole ten
/// percent of load, and the load.
pub open spec fn cpu_answer(s: SystemSnapshot) -> Seq<char> {
    "[CPU]\n"@ + s.cpu.rendered() + "\n\nHistorique:\n"@ + bar(10, s.cpu.usage.tens as nat)
        + " "@ + s.cpu.usage.text@ + "%"@ + "\n"@
}

/// `[MÉMOIRE]`: the memory line, a bar of twenty cells with one filled per
/// whole 5 % of use, and the share in use.
pub open spec fn memory_answer(s: SystemSnapshot) -> Seq<char> {
    "[MÉMOIRE]\n"@ + s.memory.rendered() + "\n["@ + bar(20, s.memory.used_share.fifths as nat)
        + "] "@ + s.memory.used_share.text@ + "%\n"@
}

/// The numbered process lines.
pub open spec fn numbered_processes(ps: Seq<ProcessInfo>) -> Seq<Seq<char>> {
    Seq::new(ps.len(), |i: int| dec((i + 1) as nat) + ". "@ + ps[i].rendered())
}

/// `[PROCESSUS — Top n]`: the processes, numbered from 1.
pub open spec fn processes_answer(s: SystemSnapshot) -> Seq<char> {
    "[PROCESSUS — Top "@ + dec(s.top_processes@.len()) + "]\n"@ + join(
        numbered_processes(s.top_processes@),
        "\n"@,
    ) + "\n"@
}

/// The interface lines.
pub open spec fn interface_lines(ns: Seq<NetworkInfo>) -> Seq<Seq<char>> {
    Seq::new(ns.len(), |i: int| ns[i].rendered())
}

/// `[RÉSEAU]`: the interfaces, or a note that there is none.
pub open spec fn network_answer(s: SystemSnapshot) -> Seq<char> {
    let lines = join(interface_lines(s.network@), "\n"@);
    if lines.len() == 0 {
        "[RÉSEAU]\nAucune interface détectée.\n"@
    } else {
        "[RÉSEAU]\n"@ + lines + "\n"@
    }
}

/// The alert messages, each indented and on its own line.
pub open spec fn alert_details(s: SystemSnapshot) -> Seq<char> {
    concat(Seq::new(s.alerts.alerts@.len(), |i: int| "  "@ + s.alerts.alerts@[i]@ + "\n"@))
}

/// `[ALERTES]`: the summary, then the details or a reassuring note.
pub open spec fn alerts_answer(s: SystemSnapshot) -> Seq<char> {
    let details = alert_details(s);
    "[ALERTES]\n"@ + s.alerts.rendered() + "\n"@ + (if details.len() == 0 {
        "Aucune alerte — Tout va bien ! 👍"@
    } else {
        "\nDétails:\n"@ + details
    }) + "\n"@
}

/// The list of commands.
pub open spec fn help_answer() -> Seq<char> {
    "Commandes disponibles:\n"@
        + "  cpu   — Usage CPU + barre\n"@
        + "  mem   — Mémoire RAM\n"@
        + "  ps    — Top processus\n"@
        + "  net   — Interfaces réseau 🌐\n"@
        + "  alert — État des alertes ⚠️\n"@
        + "  all   — Vue complète\n"@
        + "  help  — Cette aide\n"@
        + "  quit  — Fermer la connexion\n"@
}

/// The text printed on the local terminal for `msg <text>`: a framed box
/// whose last line pads the text with spaces up to 38 bytes.
pub open spec fn message_box(text: Seq<char>) -> Seq<char> {
    let room: nat = if utf8_len(text) < 38 {
        (38 - utf8_len(text)) as nat
    } else {
        0
    };
    "\n╔══════════════════════════════════════╗\n"@ + "║  MESSAGE DU PROFESSEUR               ║\n"@ + "║  "@ + text + spaces(room)
        + "║\n"@ + "╚══════════════════════════════════════╝\n\n"@
}

/// The answer to a command: `command` as received, `cmd` the same trimmed
/// and lower-cased.
pub open spec fn answer_text(s: SystemSnapshot, command: Seq<char>, cmd: Seq<char>) -> Seq<char> {
    if cmd == "cpu"@ {
        cpu_answer(s)
    } else if cmd == "mem"@ {
        memory_answer(s)
    } else if cmd == "ps"@ || cmd == "procs"@ {
        processes_answer(s)
    } else if cmd == "shutdown"@ {
        "SHUTDOWN programmé dans 5 secondes.\n"@
    } else if cmd == "reboot"@ {
        "REBOOT programmé dans 5 secondes.\n"@
    } else if cmd == "abort"@ {
        "Extinction annulée.\n"@
    } else if "msg "@.is_prefix_of(cmd) {
        "Message affiché sur la machine cible.\n"@
    } else if "install "@.is_prefix_of(cmd) {
        "Installation de '"@ + cmd.skip(8) + "' lancée en arrière-plan.\n"@
    } else if cmd == "net"@ {
        network_answer(s)
    } else if cmd == "alert"@ || cmd == "alerts"@ {
        alerts_answer(s)
    } else if cmd == "all"@ || cmd == ""@ {
        s.rendered() + "\n"@
    } else if cmd == "help"@ {
        help_answer()
    } else if cmd == "quit"@ || cmd == "exit"@ {
        "BYE\n"@
    } else {
        "Commande inconnue: '"@ + trim(command) + "'. Tape 'help'.\n"@
    }
}

/// The text that `msg <text>` shows: the command as received, trimmed,
/// without its first four characters (`msg `), so in the case it was typed.
pub open spec fn message_of(command: Seq<char>) -> Seq<char> {
    if trim(command).len() >= 4 {
        trim(command).skip(4)
    } else {
        Seq::empty()
    }
}

/// Whether `a` is the action for the command `command`, whose trimmed,
/// lower-cased form is `cmd`.
pub open spec fn is_answer_action(a: Action, command: Seq<char>, cmd: Seq<char>) -> bool {
    if cmd == "cpu"@ || cmd == "mem"@ || cmd == "ps"@ || cmd == "procs"@ {
        a is Nothing
    } else if cmd == "shutdown"@ {
        a is Shutdown
    } else if cmd == "reboot"@ {
        a is Reboot
    } else if cmd == "abort"@ {
        a is CancelShutdown
    } else if "msg "@.is_prefix_of(cmd) {
        a matches Action::ShowMessage(b) && b@ == message_box(message_of(command))
    } else if "install "@.is_prefix_of(cmd) {
        a matches Action::Install(p) && p@ == trim(cmd.skip(8))
    } else {
        a is Nothing
    }
}

/// The lower-cased, trimmed form of a command.
pub open spec fn normalized(command: Seq<char>) -> Seq<char> {
    lowercase_of(trim(command))
}

// ---------------------------------------------------------------------------
// Answers
// ---------------------------------------------------------------------------

/// Appends a bar of `width` cells whose first `full` are filled.
fn push_bar(s: &mut String, width: usize, full: usize)
    ensures
        final(s)@ == old(s)@ + bar(width as nat, full as nat),
{
    let ghost start = s@;
    for i in 0..width
        invariant
            s@ == start + bar(i as nat, full as nat),
    {
        if i < full {
            push_char(s, '█');
        } else {
            push_char(s, '░');
        }
        assert(bar((i + 1) as nat, full as nat) =~= bar(i as nat, full as nat).push(
            if i < full { '█' } else { '░' },
        ));
    }
}

/// The answer to `cpu`.
pub fn cpu_text(snapshot: &SystemSnapshot) -> (r: String)
    ensures
        r@ == cpu_answer(*snapshot),
{
    let mut s = String::new();
    s.append("[CPU]\n");
    let line = snapshot.cpu.render();
    s.append(line.as_str());
    s.append("\n\nHistorique:\n");
    push_bar(&mut s, 10, snapshot.cpu.usage.tens);
    s.append(" ");
    s.append(snapshot.cpu.usage.text.as_str());
    s.append("%");
    s.append("\n");
    s
}

/// The answer to `mem`.
pub fn memory_text(snapshot: &SystemSnapshot) -> (r: String)
    ensures
        r@ == memory_answer(*snapshot),
{
    let mut s = String::new();
    s.append("[MÉMOIRE]\n");
    let line = snapshot.memory.render();
    s.append(line.as_str());
    s.append("\n[");
    push_bar(&mut s, 20, snapshot.memory.used_share.fifths);
    s.append("] ");
    s.append(snapshot.memory.used_share.text.as_str());
    s.append("%\n");
    s
}

/// The answer to `ps` and `procs`.
pub fn processes_text(snapshot: &SystemSnapshot) -> (r: String)
    ensures
        r@ == processes_answer(*snapshot),
{
    let ps = &snapshot.top_processes;
    let ghost parts = numbered_processes(ps@);
    let mut lines = String::new();
    for i in 0..ps.len()
        invariant
            parts == numbered_processes(ps@),
            lines@ == join(parts.take(i as int), "\n"@),
    {
        if i > 0 {
            lines.append("\n");
        }
        push_decimal(&mut lines, (i + 1) as u128);
        lines.append(". ");
        let l = ps[i].render();
        lines.append(l.as_str());
        assert(parts.take(i + 1).drop_last() =~= parts.take(i as int));
        assert(i == 0 ==> lines@ =~= join(parts.take(i + 1), "\n"@));
    }
    assert(parts.take(ps@.len() as int) =~= parts);
    let mut s = String::new();
    s.append("[PROCESSUS — Top ");
    push_decimal(&mut s, ps.len() as u128);
    s.append("]\n");
    s.append(lines.as_str());
    s.append("\n");
    s
}

/// The answer to `net`.
pub fn network_text(snapshot: &SystemSnapshot) -> (r: String)
    ensures
        r@ == network_answer(*snapshot),
{
    let ns = &snapshot.network;
    let ghost parts = interface_lines(ns@);
    let mut lines = String::new();
    for i in 0..ns.len()
        invariant
            parts == interface_lines(ns@),
            lines@ == join(parts.take(i as int), "\n"@),
    {
        if i > 0 {
            lines.append("\n");
        }
        let l = ns[i].render();
        lines.append(l.as_str());
        assert(parts.take(i + 1).drop_last() =~= parts.take(i as int));
        assert(i == 0 ==> lines@ =~= join(parts.take(i + 1), "\n"@));
    }
    assert(parts.take(ns@.len() as int) =~= parts);
    let lv = chars_of(lines.as_str());
    if lv.len() == 0 {
        String::from_str("[RÉSEAU]\nAucune interface détectée.\n")
    } else {
        let mut s = String::new();
        s.append("[RÉSEAU]\n");
        s.append(lines.as_str());
        s.append("\n");
        s
    }
}

/// The answer to `alert` and `alerts`.
pub fn alerts_text(snapshot: &SystemSnapshot) -> (r: String)
    ensures
        r@ == alerts_answer(*snapshot),
{
    let al = &snapshot.alerts.alerts;
    let ghost parts = Seq::new(al@.len(), |i: int| "  "@ + al@[i]@ + "\n"@);
    let mut details = String::new();
    for i in 0..al.len()
        invariant
            parts == Seq::new(al@.len(), |i: int| "  "@ + al@[i]@ + "\n"@),
            details@ == concat(parts.take(i as int)),
    {
        details.append("  ");
        details.append(al[i].as_str());
        details.append("\n");
        assert(parts.take(i + 1).drop_last() =~= parts.take(i as int));
    }
    assert(parts.take(al@.len() as int) =~= parts);
    let mut s = String::new();
    s.append("[ALERTES]\n");
    let summary = snapshot.alerts.render();
    s.append(summary.as_str());
    s.append("\n");
    let dv = chars_of(details.as_str());
    if dv.len() == 0 {
        s.append("Aucune alerte — Tout va bien ! 👍");
    } else {
        s.append("\nDétails:\n");
        s.append(details.as_str());
    }
    s.append("\n");
    s
}

/// The list of commands.
pub fn help_text() -> (r: String)
    ensures
        r@ == help_answer(),
{
    let mut s = String::new();
    s.append("Commandes disponibles:\n");
    s.append("  cpu   — Usage CPU + barre\n");
    s.append("  mem   — Mémoire RAM\n");
    s.append("  ps    — Top processus\n");
    s.append("  net   — Interfaces réseau 🌐\n");
    s.append("  alert — État des alertes ⚠️\n");
    s.append("  all   — Vue complète\n");
    s.append("  help  — Cette aide\n");
    s.append("  quit  — Fermer la connexion\n");
    s
}

/// The framed message shown for `msg <text>`.
pub fn message_box_text(text: &Vec<char>) -> (r: String)
    ensures
        r@ == message_box(text@),
{
    let room = byte_room(text, 38);
    let mut s = String::new();
    s.append("\n╔══════════════════════════════════════╗\n");
    s.append("║  MESSAGE DU PROFESSEUR               ║\n");
    s.append("║  ");
    push_chars(&mut s, text);
    push_spaces(&mut s, room);
    s.append("║\n");
    s.append("╚══════════════════════════════════════╝\n\n");
    s
}

/// The answer to a command, given as received (`command`) and trimmed and
/// lower-cased (`cmd`).
pub fn answer(snapshot: &SystemSnapshot, command: &str, cmd: &str) -> (r: Reply)
    ensures
        r.text@ == answer_text(*snapshot, command@, cmd@),
        is_answer_action(r.action, command@, cmd@),
{
    let c = chars_of(cmd);
    proof {
        reveal_strlit("msg ");
        reveal_strlit("install ");
    }
    if eq_chars_str(&c, "cpu") {
        Reply { text: cpu_text(snapshot), action: Action::Nothing }
    } else if eq_chars_str(&c, "mem") {
        Reply { text: memory_text(snapshot), action: Action::Nothing }
    } else if eq_chars_str(&c, "ps") || eq_chars_str(&c, "procs") {
        Reply { text: processes_text(snapshot), action: Action::Nothing }
    } else if eq_chars_str(&c, "shutdown") {
        Reply {
            text: String::from_str("SHUTDOWN programmé dans 5 secondes.\n"),
            action: Action::Shutdown,
        }
    } else if eq_chars_str(&c, "reboot") {
        Reply {
            text: String::from_str("REBOOT programmé dans 5 secondes.\n"),
            action: Action::Reboot,
        }
    } else if eq_chars_str(&c, "abort") {
        Reply { text: String::from_str("Extinction annulée.\n"), action: Action::CancelShutdown }
    } else if starts_with_str(&c, "msg ") {
        let raw = chars_of(command);
        let typed = trim_chars(&raw);
        let text = if typed.len() >= 4 {
            skip_chars(&typed, 4)
        } else {
            Vec::new()
        };
        let shown = message_box_text(&text);
        Reply {
            text: String::from_str("Message affiché sur la machine cible.\n"),
            action: Action::ShowMessage(shown),
        }
    } else if starts_with_str(&c, "install ") {
        let rest = skip_chars(&c, 8);
        let package = trim_chars(&rest);
        let mut s = String::new();
        s.append("Installation de '");
        push_chars(&mut s, &rest);
        s.append("' lancée en arrière-plan.\n");
        Reply { text: s, action: Action::Install(string_of(&package)) }
    } else if eq_chars_str(&c, "net") {
        Reply { text: network_text(snapshot), action: Action::Nothing }
    } else if eq_chars_str(&c, "alert") || eq_chars_str(&c, "alerts") {
        Reply { text: alerts_text(snapshot), action: Action::Nothing }
    } else if eq_chars_str(&c, "all") || eq_chars_str(&c, "") {
        let mut s = snapshot.render();
        s.append("\n");
        Reply { text: s, action: Action::Nothing }
    } else if eq_chars_str(&c, "help") {
        Reply { text: help_text(), action: Action::Nothing }
    } else if eq_chars_str(&c, "quit") || eq_chars_str(&c, "exit") {
        Reply { text: String::from_str("BYE\n"), action: Action::Nothing }
    } else {
        let raw = chars_of(command);
        let trimmed = trim_chars(&raw);
        let mut s = String::new();
        s.append("Commande inconnue: '");
        push_chars(&mut s, &trimmed);
        s.append("'. Tape 'help'.\n");
        Reply { text: s, action: Action::Nothing }
    }
}

/// Whether `r` is the reply to `command` with the snapshot `s`: the answer
/// and the action for its trimmed, lower-cased form; where that form was
/// lower-cased from ASCII alone, it is the ASCII lower-casing.
pub open spec fn is_response(s: SystemSnapshot, command: Seq<char>, r: Reply) -> bool {
    &&& r.text@ == answer_text(s, command, normalized(command))
    &&& is_answer_action(r.action, command, normalized(command))
    &&& all_ascii(trim(command)) ==> normalized(command) == ascii_lowered(trim(command))
}

/// The answer to a command received from a client: the command is trimmed
/// and lower-cased (`str::to_lowercase`), then answered by `answer`.
pub fn format_response(snapshot: &SystemSnapshot, command: &str) -> (r: Reply)
    ensures
        is_response(*snapshot, command@, r),
{
    let raw = chars_of(command);
    let trimmed = string_of(&trim_chars(&raw));
    let cmd = to_lowercase(trimmed.as_str());
    answer(snapshot, command, cmd.as_str())
}

// ---------------------------------------------------------------------------
// Laws
// ---------------------------------------------------------------------------

/// White space around a command changes neither the answer nor the action:
/// a command and its trimmed form are answered alike.
pub proof fn lemma_answer_ignores_surrounding_space(s: SystemSnapshot, command: Seq<char>)
    ensures
        normalized(trim(command)) == normalized(command),
        answer_text(s, trim(command), normalized(trim(command))) == answer_text(
            s,
            command,
            normalized(command),
        ),
        forall|x: Action|
            is_answer_action(x, trim(command), normalized(trim(command))) <==> is_answer_action(
                x,
                command,
                normalized(command),
            ),
{
    crate::text::lemma_trim_idempotent(command);
}

/// Whether `cmd` (trimmed and lower-cased) is one of the known commands.
pub open spec fn is_known_command(cmd: Seq<char>) -> bool {
    cmd == "cpu"@ || cmd == "mem"@ || cmd == "ps"@ || cmd == "procs"@ || cmd == "shutdown"@
        || cmd == "reboot"@ || cmd == "abort"@ || "msg "@.is_prefix_of(cmd) || "install "@.is_prefix_of(
        cmd,
    ) || cmd == "net"@ || cmd == "alert"@ || cmd == "alerts"@ || cmd == "all"@ || cmd == ""@
        || cmd == "help"@ || cmd == "quit"@ || cmd == "exit"@
}

/// Two commands with the same trimmed, lower-cased form are answered
/// alike when that form is a known command; an unknown command is answered
/// by echoing it, trimmed. Their actions are the same, but for `msg`, which
/// shows the text as typed.
pub proof fn lemma_answer_depends_on_normalized_form(s: SystemSnapshot, a: Seq<char>, b: Seq<char>)
    requires
        normalized(a) == normalized(b),
    ensures
        is_known_command(normalized(a)) ==> answer_text(s, a, normalized(a)) == answer_text(
            s,
            b,
            normalized(b),
        ),
        !is_known_command(normalized(a)) ==> answer_text(s, a, normalized(a))
            == "Commande inconnue: '"@ + trim(a) + "'. Tape 'help'.\n"@,
        !"msg "@.is_prefix_of(normalized(a)) ==> forall|x: Action|
            is_answer_action(x, a, normalized(a)) <==> is_answer_action(x, b, normalized(b)),
{
}

/// Every answer ends with a line break.
pub proof fn lemma_answer_ends_with_newline(s: SystemSnapshot, command: Seq<char>, cmd: Seq<char>)
    ensures
        answer_text(s, command, cmd).len() > 0,
        answer_text(s, command, cmd).last() == '\n',
{
    reveal_strlit("\n");
    reveal_strlit("SHUTDOWN programmé dans 5 secondes.\n");
    reveal_strlit("REBOOT programmé dans 5 secondes.\n");
    reveal_strlit("Extinction annulée.\n");
    reveal_strlit("Message affiché sur la machine cible.\n");
    reveal_strlit("' lancée en arrière-plan.\n");
    reveal_strlit("[RÉSEAU]\nAucune interface détectée.\n");
    reveal_strlit("%\n");
    reveal_strlit("'. Tape 'help'.\n");
    reveal_strlit("BYE\n");
    reveal_strlit("  quit  — Fermer la connexion\n");
    let a = answer_text(s, command, cmd);
    assert(a.len() > 0 && a.last() == '\n');
}

/// The commands answered with a fixed text about the snapshot and with no
/// action.
pub open spec fn is_fixed_command(k: Seq<char>) -> bool {
    ||| k == "cpu"@
    ||| k == "mem"@
    ||| k == "ps"@
    ||| k == "procs"@
    ||| k == "net"@
    ||| k == "alert"@
    ||| k == "alerts"@
    ||| k == "all"@
    ||| k == ""@
    ||| k == "help"@
    ||| k == "quit"@
    ||| k == "exit"@
}

/// A fixed command is its own trimmed, lower-case form, made of ASCII.
proof fn lemma_fixed_command_is_normal(k: Seq<char>)
    requires
        is_fixed_command(k),
    ensures
        trim(k) == k,
        all_ascii(k),
        ascii_lowered(k) == k,
        !"msg "@.is_prefix_of(k),
        !"install "@.is_prefix_of(k),
        k != "shutdown"@,
        k != "reboot"@,
        k != "abort"@,
{
    reveal_strlit("cpu");
    reveal_strlit("mem");
    reveal_strlit("ps");
    reveal_strlit("procs");
    reveal_strlit("net");
    reveal_strlit("alert");
    reveal_strlit("alerts");
    reveal_strlit("all");
    reveal_strlit("");
    reveal_strlit("help");
    reveal_strlit("quit");
    reveal_strlit("exit");
    reveal_strlit("msg ");
    reveal_strlit("install ");
    reveal_strlit("shutdown");
    reveal_strlit("reboot");
    reveal_strlit("abort");
    assert(k.len() <= 6);
    assert("shutdown"@.len() == 8);
    assert("install "@.len() == 8);
    assert("reboot"@.len() == 6 && "reboot"@[0] == 'r');
    assert("abort"@.len() == 5 && "abort"@[1] == 'b');
    assert("msg "@.len() == 4 && "msg "@[0] == 'm' && "msg "@[1] == 's');
    if k.len() > 0 {
        assert(!is_white(k[0]));
        assert(!is_white(k.last()));
        assert(k[0] != 'm' || k[1] != 's');
        assert(k.len() == 5 ==> k[1] != 'b');
        assert(k.len() == 6 ==> k[0] != 'r');
    }
    assert(trim_start(k) == k);
    assert(trim_end(k) == k);
    assert forall|i: int| 0 <= i < k.len() implies (#[trigger] k[i] as u32) < 0x80
        && ascii_lower(k[i]) == k[i] by {}
    assert(ascii_lowered(k) =~= k);
    if "msg "@.is_prefix_of(k) {
        assert(k[0] == "msg "@[0] && k[1] == "msg "@[1]);
    }
}

/// Case and surrounding white space do not matter for the commands with a
/// fixed answer: a command is answered as its trimmed, lower-cased form is,
/// with no action; `quit` and `exit` are answered `BYE`.
pub proof fn lemma_case_and_space_do_not_matter(
    s: SystemSnapshot,
    command: Seq<char>,
    r1: Reply,
    r2: Reply,
)
    requires
        is_fixed_command(normalized(command)),
        is_response(s, command, r1),
        is_response(s, normalized(command), r2),
    ensures
        r1.text@ == r2.text@,
        r1.action is Nothing,
        r2.action is Nothing,
        normalized(command) == "quit"@ || normalized(command) == "exit"@ ==> r1.text@ == "BYE\n"@,
{
    let k = normalized(command);
    lemma_fixed_command_is_normal(k);
    assert(normalized(k) == k);
    if k == "quit"@ || k == "exit"@ {
        reveal_strlit("quit");
        reveal_strlit("exit");
        reveal_strlit("cpu");
        reveal_strlit("mem");
        reveal_strlit("ps");
        reveal_strlit("procs");
        reveal_strlit("net");
        reveal_strlit("alert");
        reveal_strlit("alerts");
        reveal_strlit("all");
        reveal_strlit("");
        reveal_strlit("help");
        assert(k.len() == 4 && k[0] != 'h');
        assert("help"@[0] == 'h');
        assert("cpu"@.len() == 3 && "mem"@.len() == 3 && "ps"@.len() == 2 && "procs"@.len() == 5);
        assert("net"@.len() == 3 && "alert"@.len() == 5 && "alerts"@.len() == 6);
        assert("all"@.len() == 3 && ""@.len() == 0);
    }
}

/// The start of the `cpu` answer, up to the bar.
pub open spec fn cpu_head(s: SystemSnapshot) -> Seq<char> {
    "[CPU]\n"@ + s.cpu.rendered() + "\n\nHistorique:\n"@
}

/// The `cpu` answer shows, under `Historique:`, a bar of ten cells whose
/// first cells, one per whole ten percent of load and at most ten, are
/// filled and the others empty; then the load and a percent sign.
pub proof fn lemma_cpu_bar(s: SystemSnapshot)
    ensures
        cpu_head(s).is_prefix_of(cpu_answer(s)),
        cpu_answer(s).len() == cpu_head(s).len() + 10 + (" "@ + s.cpu.usage.text@ + "%\n"@).len(),
        forall|i: int|
            0 <= i < 10 ==> #[trigger] cpu_answer(s)[cpu_head(s).len() + i] == if i
                < s.cpu.usage.tens {
                '█'
            } else {
                '░'
            },
        (" "@ + s.cpu.usage.text@ + "%\n"@).is_suffix_of(cpu_answer(s)),
{
    let h = cpu_head(s);
    let b = bar(10, s.cpu.usage.tens as nat);
    let t = " "@ + s.cpu.usage.text@ + "%\n"@;
    reveal_strlit("%\n");
    reveal_strlit("%");
    reveal_strlit("\n");
    assert("%\n"@ =~= "%"@ + "\n"@);
    assert(cpu_answer(s) =~= h + b + t);
    assert(cpu_answer(s).subrange(0, h.len() as int) =~= h);
    assert(cpu_answer(s).subrange((cpu_answer(s).len() - t.len()) as int, cpu_answer(s).len() as int)
        =~= t);
}

/// The start of the `mem` answer, up to the bar.
pub open spec fn memory_head(s: SystemSnapshot) -> Seq<char> {
    "[MÉMOIRE]\n"@ + s.memory.rendered() + "\n["@
}

/// The `mem` answer shows, after the memory line, a bar of twenty cells in
/// brackets whose first cells, one per whole 5 % of use and at most twenty,
/// are filled and the others empty; then the share in use and a percent
/// sign.
pub proof fn lemma_memory_bar(s: SystemSnapshot)
    ensures
        memory_head(s).is_prefix_of(memory_answer(s)),
        memory_answer(s).len() == memory_head(s).len() + 20 + ("] "@
            + s.memory.used_share.text@ + "%\n"@).len(),
        forall|i: int|
            0 <= i < 20 ==> #[trigger] memory_answer(s)[memory_head(s).len() + i] == if i
                < s.memory.used_share.fifths {
                '█'
            } else {
                '░'
            },
        ("] "@ + s.memory.used_share.text@ + "%\n"@).is_suffix_of(memory_answer(s)),
{
    let h = memory_head(s);
    let b = bar(20, s.memory.used_share.fifths as nat);
    let t = "] "@ + s.memory.used_share.text@ + "%\n"@;
    assert(memory_answer(s) =~= h + b + t);
    assert(memory_answer(s).subrange(0, h.len() as int) =~= h);
    assert(memory_answer(s).subrange(
        (memory_answer(s).len() - t.len()) as int,
        memory_answer(s).len() as int,
    ) =~= t);
}

/// The start of the `alert` answer: the heading and the summary line.
pub open spec fn alerts_head(s: SystemSnapshot) -> Seq<char> {
    "[ALERTES]\n"@ + s.alerts.rendered() + "\n"@
}

/// The indented lines of the alert messages, one per alert, in order.
pub open spec fn indented_alerts(s: SystemSnapshot) -> Seq<Seq<char>> {
    Seq::new(s.alerts.alerts@.len(), |i: int| "  "@ + s.alerts.alerts@[i]@ + "\n"@)
}

/// A concatenation is at least as long as its last part.
proof fn lemma_concat_len(parts: Seq<Seq<char>>)
    requires
        parts.len() > 0,
    ensures
        concat(parts).len() >= parts.last().len(),
{
}

/// The `alert` answer: after the summary, with no alert, the reassuring
/// note; with alerts, `Détails:` and every message, indented, one per line
/// in order, and never the note.
pub proof fn lemma_alerts_answer(s: SystemSnapshot)
    ensures
        alerts_head(s).is_prefix_of(alerts_answer(s)),
        s.alerts.alerts@.len() == 0 ==> alerts_answer(s) == alerts_head(s)
            + "Aucune alerte — Tout va bien ! 👍"@ + "\n"@,
        s.alerts.alerts@.len() > 0 ==> alerts_answer(s) == alerts_head(s) + "\nDétails:\n"@
            + concat(indented_alerts(s)) + "\n"@,
{
    let h = alerts_head(s);
    let n = s.alerts.alerts@.len();
    assert(alert_details(s) == concat(indented_alerts(s)));
    if n == 0 {
        assert(indented_alerts(s) =~= Seq::<Seq<char>>::empty());
        assert(alerts_answer(s) =~= h + "Aucune alerte — Tout va bien ! 👍"@ + "\n"@);
    } else {
        reveal_strlit("  ");
        reveal_strlit("\n");
        lemma_concat_len(indented_alerts(s));
        assert(indented_alerts(s).last().len() >= 3);
        assert(alerts_answer(s) =~= h + "\nDétails:\n"@ + concat(indented_alerts(s)) + "\n"@);
    }
    assert(alerts_answer(s).subrange(0, h.len() as int) =~= h);
}

/// The `net` answer reads "no interface" exactly when the snapshot lists no
/// interface; otherwise it lists the interfaces, one per line, and ends
/// with the last of them.
pub proof fn lemma_network_answer(s: SystemSnapshot)
    ensures
        s.network@.len() == 0 <==> network_answer(s) == "[RÉSEAU]\nAucune interface détectée.\n"@,
        s.network@.len() > 0 ==> ("[RÉSEAU]\n"@).is_prefix_of(network_answer(s)) && (
        s.network@.last().rendered() + "\n"@).is_suffix_of(network_answer(s)),
{
    reveal_strlit("[RÉSEAU]\nAucune interface détectée.\n");
    reveal_strlit("[RÉSEAU]\n");
    reveal_strlit("\n");
    let parts = interface_lines(s.network@);
    let a = network_answer(s);
    if s.network@.len() > 0 {
        let last = s.network@.last();
        assert(parts.last() == last.rendered());
        let lines = join(parts, "\n"@);
        assert(a =~= "[RÉSEAU]\n"@ + lines + "\n"@);
        assert(parts.len() == 1 ==> lines == parts[0]);
        assert(parts.len() > 1 ==> lines == join(parts.drop_last(), "\n"@) + "\n"@ + parts.last());
        assert((last.rendered() + "\n"@).is_suffix_of(a)) by {
            assert(a.subrange((a.len() - (last.rendered() + "\n"@).len()) as int, a.len() as int)
                =~= last.rendered() + "\n"@);
        }
        assert(a.subrange(0, "[RÉSEAU]\n"@.len() as int) =~= "[RÉSEAU]\n"@);
        reveal_strlit("MB");
        assert(last.rendered().last() == 'B');
        assert(a[a.len() - 2] == 'B');
        let note = "[RÉSEAU]\nAucune interface détectée.\n"@;
        assert(note[note.len() - 2] == '.');
    } else {
        assert(parts =~= Seq::<Seq<char>>::empty());
    }
}

/// The `ps` answer announces as many processes as the snapshot keeps, and
/// numbers them from 1: with processes, its last line is the last of them
/// under the number of processes.
pub proof fn lemma_processes_answer(s: SystemSnapshot)
    ensures
        ("[PROCESSUS — Top "@ + dec(s.top_processes@.len()) + "]\n"@).is_prefix_of(
            processes_answer(s),
        ),
        s.top_processes@.len() > 0 ==> (dec(s.top_processes@.len()) + ". "@
            + s.top_processes@.last().rendered() + "\n"@).is_suffix_of(processes_answer(s)),
{
    let n = s.top_processes@.len();
    let h = "[PROCESSUS — Top "@ + dec(n) + "]\n"@;
    let parts = numbered_processes(s.top_processes@);
    let a = processes_answer(s);
    assert(a =~= h + join(parts, "\n"@) + "\n"@);
    assert(a.subrange(0, h.len() as int) =~= h);
    if n > 0 {
        let e = dec(n) + ". "@ + s.top_processes@.last().rendered() + "\n"@;
        assert(parts.last() == dec(n) + ". "@ + s.top_processes@.last().rendered());
        assert(a.subrange((a.len() - e.len()) as int, a.len() as int) =~= e);
    }
}

} // verus!

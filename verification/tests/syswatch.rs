use syswatch::alerts::check_alerts;
use syswatch::logging::log_line;
use syswatch::model::{
    bytes_to_mib, AlertStatus, CpuInfo, Load, MemInfo, MemoryShare, NetworkInfo, ProcessInfo,
    SysWatchError, SystemSnapshot,
};
use syswatch::response::{answer, format_response, Action};
use syswatch::session::{session_start, session_step, Output, SessionEvent, SessionState};
use syswatch::snapshot::{
    can_order_loads, collect_network_info, collect_snapshot, refresh, refresh_message,
    top_processes, ProcessReading, SystemReadings,
};

/// A load as the program hands it to the library.
fn load(x: f32) -> Load {
    Load { bits: x.to_bits(), text: format!("{:.1}", x), tens: (x / 10.0) as usize }
}

/// A share of memory as the program hands it to the library.
fn share(used_mb: u64, total_mb: u64) -> MemoryShare {
    let p = used_mb as f64 / total_mb as f64 * 100.0;
    MemoryShare { bits: p.to_bits(), text: format!("{:.1}", p), fifths: (p / 5.0) as usize }
}

fn mem(total_mb: u64, used_mb: u64, free_mb: u64) -> MemInfo {
    MemInfo { total_mb, used_mb, free_mb, used_share: share(used_mb, total_mb) }
}

fn proc_reading(pid: u32, name: &str, cpu: f32, mem_bytes: u64) -> ProcessReading {
    ProcessReading { pid, name: name.to_string(), cpu: load(cpu), memory_bytes: mem_bytes }
}

fn readings(cores: usize) -> SystemReadings {
    SystemReadings {
        cpu_usage: load(45.6),
        core_count: cores,
        total_memory_bytes: 8192 * 1024 * 1024,
        used_memory_bytes: 2048 * 1024 * 1024 + 5,
        free_memory_bytes: 6144 * 1024 * 1024,
        memory_share: share(2048, 8192),
        processes: vec![
            proc_reading(1, "init", 0.0, 10 * 1024 * 1024),
            proc_reading(2, "a", 30.0, 1024 * 1024 - 1),
            proc_reading(3, "b", 50.0, 3 * 1024 * 1024),
            proc_reading(4, "c", 30.0, 0),
            proc_reading(5, "d", 90.0, 0),
            proc_reading(6, "e", 1.0, 0),
            proc_reading(7, "f", 30.0, 0),
        ],
    }
}

fn sample_snapshot() -> SystemSnapshot {
    collect_snapshot(readings(8), "2024-05-01 12:00:00".to_string()).unwrap()
}

fn outputs_text(outs: &[Output]) -> Vec<String> {
    outs.iter()
        .map(|o| match o {
            Output::Send(s) => format!("send:{}", s),
            Output::Log(s) => format!("log:{}", s),
            Output::Act(a) => format!("act:{:?}", a),
        })
        .collect()
}

// ---------------------------------------------------------------- network

#[test]
fn network_info_is_the_two_interfaces() {
    let n = collect_network_info();
    assert_eq!(n.len(), 2);
    assert_eq!(n[0].interface_name, "Ethernet");
    assert_eq!(n[0].bytes_received, 100 * 1024 * 1024);
    assert_eq!(n[0].bytes_transmitted, 50 * 1024 * 1024);
    assert_eq!(n[1].interface_name, "WiFi");
    assert_eq!(n[1].bytes_received, 250 * 1024 * 1024);
    assert_eq!(n[1].bytes_transmitted, 150 * 1024 * 1024);
    assert_eq!(n[0].render(), "  Ethernet — RX: 100MB | TX: 50MB");
    assert_eq!(n[1].render(), "  WiFi — RX: 250MB | TX: 150MB");
}

// ---------------------------------------------------------------- alerts

#[test]
fn cpu_thresholds() {
    let a = check_alerts(&load(90.0), &share(0, 100));
    assert!(a.cpu_critical && !a.cpu_warning);
    assert_eq!(a.alerts, vec!["CPU CRITIQUE: 90.0%".to_string()]);
    let a = check_alerts(&load(85.01), &share(0, 100));
    assert!(a.cpu_critical);
    assert_eq!(a.alerts, vec!["CPU CRITIQUE: 85.0%".to_string()]);
    let a = check_alerts(&load(85.0), &share(0, 100));
    assert!(!a.cpu_critical && a.cpu_warning);
    assert_eq!(a.alerts, vec!["CPU ÉLEVÉ: 85.0%".to_string()]);
    let a = check_alerts(&load(70.01), &share(0, 100));
    assert!(a.cpu_warning);
    assert_eq!(a.alerts, vec!["CPU ÉLEVÉ: 70.0%".to_string()]);
    let a = check_alerts(&load(70.0), &share(0, 100));
    assert!(!a.cpu_critical && !a.cpu_warning);
    assert!(a.alerts.is_empty());
}

#[test]
fn cpu_thresholds_on_special_values() {
    let a = check_alerts(&load(f32::INFINITY), &share(0, 100));
    assert!(a.cpu_critical);
    assert_eq!(a.alerts, vec!["CPU CRITIQUE: inf%".to_string()]);
    for x in [f32::NAN, -90.0, -0.0, f32::NEG_INFINITY] {
        let a = check_alerts(&load(x), &share(0, 100));
        assert!(!a.cpu_critical && !a.cpu_warning, "{}", x);
    }
}

#[test]
fn memory_thresholds() {
    let a = check_alerts(&load(0.0), &share(95, 100));
    assert!(a.memory_critical && !a.memory_warning);
    assert_eq!(a.alerts, vec!["RAM CRITIQUE: 95.0%".to_string()]);
    let a = check_alerts(&load(0.0), &share(90, 100));
    assert!(!a.memory_critical && a.memory_warning);
    assert_eq!(a.alerts, vec!["RAM ÉLEVÉE: 90.0%".to_string()]);
    let a = check_alerts(&load(0.0), &share(76, 100));
    assert!(a.memory_warning);
    let a = check_alerts(&load(0.0), &share(75, 100));
    assert!(!a.memory_critical && !a.memory_warning);
    assert!(a.alerts.is_empty());
}

#[test]
fn memory_percent_as_the_f64_quotient_prints() {
    let a = check_alerts(&load(0.0), &share(1503, 2000));
    assert_eq!(a.alerts, vec!["RAM ÉLEVÉE: 75.1%".to_string()]);
    let a = check_alerts(&load(0.0), &share(7, 9));
    assert_eq!(a.alerts, vec!["RAM ÉLEVÉE: 77.8%".to_string()]);
    let a = check_alerts(&load(0.0), &share(11, 12));
    assert_eq!(a.alerts, vec!["RAM CRITIQUE: 91.7%".to_string()]);
}

#[test]
fn memory_with_zero_total() {
    let a = check_alerts(&load(0.0), &share(5, 0));
    assert!(a.memory_critical && !a.memory_warning);
    assert_eq!(a.alerts, vec!["RAM CRITIQUE: inf%".to_string()]);
    let a = check_alerts(&load(0.0), &share(0, 0));
    assert!(!a.memory_critical && !a.memory_warning);
    assert!(a.alerts.is_empty());
}

#[test]
fn both_alerts_cpu_first() {
    let a = check_alerts(&load(99.0), &share(99, 100));
    assert_eq!(
        a.alerts,
        vec!["CPU CRITIQUE: 99.0%".to_string(), "RAM CRITIQUE: 99.0%".to_string()]
    );
    assert_eq!(a.render(), " CRITIQUE — 2 alerte(s) active(s)");
    let w = check_alerts(&load(75.0), &share(80, 100));
    assert_eq!(w.render(), " ATTENTION — 2 alerte(s) active(s)");
    let none = check_alerts(&load(1.0), &share(10, 100));
    assert_eq!(none.render(), "✓ Système nominal — Aucune alerte");
}

// ---------------------------------------------------------------- rendering

#[test]
fn cpu_and_memory_lines() {
    assert_eq!(CpuInfo { usage: load(12.3), core_count: 8 }.render(), "CPU: 12.3% (8 cœurs)");
    assert_eq!(CpuInfo { usage: load(0.0), core_count: 1 }.render(), "CPU: 0.0% (1 cœurs)");
    assert_eq!(
        mem(8192, 2048, 6144).render(),
        "MEM: 2048MB utilisés / 8192MB total (6144 MB libres)"
    );
}

#[test]
fn process_line_is_aligned() {
    let p = ProcessInfo { pid: 42, name: "firefox".to_string(), cpu: load(12.5), memory_mb: 300 };
    assert_eq!(p.render(), "  [    42] firefox                   CPU: 12.5%  MEM:  300MB");
    let long = ProcessInfo {
        pid: 1234567,
        name: "a-very-long-process-name-indeed".to_string(),
        cpu: load(123.4),
        memory_mb: 123456,
    };
    assert_eq!(long.render(), "  [1234567] a-very-long-process-name-indeed CPU:123.4%  MEM:123456MB");
}

#[test]
fn error_text() {
    let e = SysWatchError::CollectionFailed("boom".to_string());
    assert_eq!(e.render(), "Erreur collecte: boom");
}

// ---------------------------------------------------------------- snapshot

#[test]
fn no_cpu_is_an_error() {
    let r = collect_snapshot(readings(0), "2024-05-01 12:00:00".to_string());
    match r {
        Err(SysWatchError::CollectionFailed(m)) => assert_eq!(m, "Aucun CPU détecté"),
        Ok(_) => panic!("expected an error"),
    }
}

#[test]
fn snapshot_converts_units_and_keeps_top_five() {
    let s = sample_snapshot();
    assert_eq!(s.cpu.usage.text, "45.6");
    assert_eq!(s.cpu.core_count, 8);
    assert_eq!(s.memory.total_mb, 8192);
    assert_eq!(s.memory.used_mb, 2048);
    assert_eq!(s.memory.free_mb, 6144);
    let pids: Vec<u32> = s.top_processes.iter().map(|p| p.pid).collect();
    // busiest first; equal loads (300) keep their reported order
    assert_eq!(pids, vec![5, 3, 2, 4, 7]);
    assert_eq!(s.top_processes[2].memory_mb, 0);
    assert_eq!(s.top_processes[1].memory_mb, 3);
    assert_eq!(s.network.len(), 2);
    assert!(s.alerts.alerts.is_empty());
    assert_eq!(s.timestamp, "2024-05-01 12:00:00");
}

#[test]
fn few_processes_are_all_kept() {
    let top = top_processes(vec![proc_reading(9, "x", 0.1, 0), proc_reading(8, "y", 0.2, 0)]);
    let pids: Vec<u32> = top.iter().map(|p| p.pid).collect();
    assert_eq!(pids, vec![8, 9]);
    assert!(top_processes(vec![]).is_empty());
}

#[test]
fn full_report() {
    let s = sample_snapshot();
    let expected = [
        "=== SysWatch — 2024-05-01 12:00:00 ===",
        "CPU: 45.6% (8 cœurs)",
        "MEM: 2048MB utilisés / 8192MB total (6144 MB libres)",
        "--- Alertes ---",
        "✓ Système nominal — Aucune alerte",
        "--- Top Processus ---",
        "  [     5] d                         CPU: 90.0%  MEM:    0MB",
        "  [     3] b                         CPU: 50.0%  MEM:    3MB",
        "  [     2] a                         CPU: 30.0%  MEM:    0MB",
        "  [     4] c                         CPU: 30.0%  MEM:    0MB",
        "  [     7] f                         CPU: 30.0%  MEM:    0MB",
        "--- Réseau ---",
        "  Ethernet — RX: 100MB | TX: 50MB",
        "  WiFi — RX: 250MB | TX: 150MB",
        "=====================",
    ]
    .join("\n");
    assert_eq!(s.render(), expected);
}

#[test]
fn refresh_messages() {
    let ok: Result<SystemSnapshot, SysWatchError> = Ok(sample_snapshot());
    assert_eq!(refresh_message(&ok), "[refresh] Métriques mises à jour");
    let err: Result<SystemSnapshot, SysWatchError> =
        Err(SysWatchError::CollectionFailed("Aucun CPU détecté".to_string()));
    assert_eq!(refresh_message(&err), "[refresh] Erreur: Erreur collecte: Aucun CPU détecté");
}

// ---------------------------------------------------------------- responses

#[test]
fn cpu_answer() {
    let s = sample_snapshot();
    let r = format_response(&s, "cpu");
    assert_eq!(r.text, "[CPU]\nCPU: 45.6% (8 cœurs)\n\nHistorique:\n████░░░░░░ 45.6%\n");
    assert!(matches!(r.action, Action::Nothing));
}

#[test]
fn commands_ignore_case_and_surrounding_space() {
    let s = sample_snapshot();
    let a = format_response(&s, "  CPU \t");
    let b = format_response(&s, "cpu");
    assert_eq!(a.text, b.text);
    assert_eq!(format_response(&s, "Mem").text, format_response(&s, "mem").text);
}

#[test]
fn memory_answer() {
    let s = sample_snapshot();
    let r = format_response(&s, "mem");
    assert_eq!(
        r.text,
        "[MÉMOIRE]\nMEM: 2048MB utilisés / 8192MB total (6144 MB libres)\n[█████░░░░░░░░░░░░░░░] 25.0%\n"
    );
}

#[test]
fn memory_answer_with_zero_total() {
    let mut s = sample_snapshot();
    s.memory = mem(0, 0, 0);
    let r = format_response(&s, "mem");
    assert_eq!(
        r.text,
        "[MÉMOIRE]\nMEM: 0MB utilisés / 0MB total (0 MB libres)\n[░░░░░░░░░░░░░░░░░░░░] NaN%\n"
    );
    s.memory = mem(0, 3, 0);
    let r = format_response(&s, "mem");
    assert_eq!(
        r.text,
        "[MÉMOIRE]\nMEM: 3MB utilisés / 0MB total (0 MB libres)\n[████████████████████] inf%\n"
    );
}

#[test]
fn processes_answer() {
    let s = sample_snapshot();
    let r = format_response(&s, "ps");
    let expected = "[PROCESSUS — Top 5]\n\
1.   [     5] d                         CPU: 90.0%  MEM:    0MB\n\
2.   [     3] b                         CPU: 50.0%  MEM:    3MB\n\
3.   [     2] a                         CPU: 30.0%  MEM:    0MB\n\
4.   [     4] c                         CPU: 30.0%  MEM:    0MB\n\
5.   [     7] f                         CPU: 30.0%  MEM:    0MB\n";
    assert_eq!(r.text, expected);
    assert_eq!(format_response(&s, "procs").text, expected);
}

#[test]
fn network_answer() {
    let mut s = sample_snapshot();
    assert_eq!(
        format_response(&s, "net").text,
        "[RÉSEAU]\n  Ethernet — RX: 100MB | TX: 50MB\n  WiFi — RX: 250MB | TX: 150MB\n"
    );
    s.network = vec![];
    assert_eq!(format_response(&s, "net").text, "[RÉSEAU]\nAucune interface détectée.\n");
    s.network = vec![NetworkInfo {
        interface_name: "lo".to_string(),
        bytes_received: 3 * 1024 * 1024 - 1,
        bytes_transmitted: 0,
    }];
    assert_eq!(format_response(&s, "net").text, "[RÉSEAU]\n  lo — RX: 2MB | TX: 0MB\n");
}

#[test]
fn alerts_answer() {
    let mut s = sample_snapshot();
    assert_eq!(
        format_response(&s, "alert").text,
        "[ALERTES]\n✓ Système nominal — Aucune alerte\nAucune alerte — Tout va bien ! 👍\n"
    );
    s.alerts = check_alerts(&load(90.0), &share(80, 100));
    assert_eq!(
        format_response(&s, "alerts").text,
        "[ALERTES]\n CRITIQUE — 2 alerte(s) active(s)\n\nDétails:\n  CPU CRITIQUE: 90.0%\n  RAM ÉLEVÉE: 80.0%\n\n"
    );
}

#[test]
fn all_and_empty_give_the_report() {
    let s = sample_snapshot();
    let report = format!("{}\n", s.render());
    assert_eq!(format_response(&s, "all").text, report);
    assert_eq!(format_response(&s, "").text, report);
    assert_eq!(format_response(&s, "   ").text, report);
}

#[test]
fn help_answer() {
    let s = sample_snapshot();
    assert_eq!(
        format_response(&s, "help").text,
        "Commandes disponibles:\n  cpu   — Usage CPU + barre\n  mem   — Mémoire RAM\n  ps    — Top processus\n  net   — Interfaces réseau 🌐\n  alert — État des alertes ⚠️\n  all   — Vue complète\n  help  — Cette aide\n  quit  — Fermer la connexion\n"
    );
}

#[test]
fn quit_and_exit_answer_bye() {
    let s = sample_snapshot();
    assert_eq!(format_response(&s, "quit").text, "BYE\n");
    assert_eq!(format_response(&s, "EXIT").text, "BYE\n");
}

#[test]
fn unknown_command_is_echoed_trimmed() {
    let s = sample_snapshot();
    let r = format_response(&s, "  Foo Bar \n");
    assert_eq!(r.text, "Commande inconnue: 'Foo Bar'. Tape 'help'.\n");
    assert!(matches!(r.action, Action::Nothing));
}

#[test]
fn power_commands_carry_actions() {
    let s = sample_snapshot();
    let r = format_response(&s, "shutdown");
    assert_eq!(r.text, "SHUTDOWN programmé dans 5 secondes.\n");
    assert!(matches!(r.action, Action::Shutdown));
    let r = format_response(&s, "Reboot");
    assert_eq!(r.text, "REBOOT programmé dans 5 secondes.\n");
    assert!(matches!(r.action, Action::Reboot));
    let r = format_response(&s, "abort");
    assert_eq!(r.text, "Extinction annulée.\n");
    assert!(matches!(r.action, Action::CancelShutdown));
}

#[test]
fn message_command_shows_a_box() {
    let s = sample_snapshot();
    let r = format_response(&s, "msg Bonjour");
    assert_eq!(r.text, "Message affiché sur la machine cible.\n");
    match r.action {
        Action::ShowMessage(b) => {
            let expected = format!(
                "\n╔══════════════════════════════════════╗\n║  MESSAGE DU PROFESSEUR               ║\n║  Bonjour{}║\n╚══════════════════════════════════════╝\n\n",
                " ".repeat(31)
            );
            assert_eq!(b, expected);
        }
        other => panic!("unexpected action {:?}", other),
    }
}

#[test]
fn message_box_pads_by_bytes() {
    let s = sample_snapshot();
    // "été" is 3 characters but 5 bytes
    let r = answer(&s, "msg été", "msg été");
    match r.action {
        Action::ShowMessage(b) => assert!(b.contains(&format!("║  été{}║", " ".repeat(33)))),
        other => panic!("unexpected action {:?}", other),
    }
    let long = "x".repeat(50);
    let cmd = format!("msg {}", long);
    let r = answer(&s, &cmd, &cmd);
    match r.action {
        Action::ShowMessage(b) => assert!(b.contains(&format!("║  {}║", long))),
        other => panic!("unexpected action {:?}", other),
    }
}

#[test]
fn install_command() {
    let s = sample_snapshot();
    let r = format_response(&s, "install Git.Git ");
    assert_eq!(r.text, "Installation de 'git.git' lancée en arrière-plan.\n");
    match r.action {
        Action::Install(p) => assert_eq!(p, "git.git"),
        other => panic!("unexpected action {:?}", other),
    }
    let r = answer(&s, "install  x ", "install  x ");
    assert_eq!(r.text, "Installation de ' x ' lancée en arrière-plan.\n");
    match r.action {
        Action::Install(p) => assert_eq!(p, "x"),
        other => panic!("unexpected action {:?}", other),
    }
}

#[test]
fn every_answer_ends_with_a_line_break() {
    let s = sample_snapshot();
    for c in ["cpu", "mem", "ps", "net", "alert", "all", "help", "quit", "shutdown", "msg a", "install b", "zzz", ""] {
        assert!(format_response(&s, c).text.ends_with('\n'), "{}", c);
    }
}

// ---------------------------------------------------------------- session

#[test]
fn session_asks_for_the_token() {
    let st = session_start("10.0.0.1:5000");
    assert_eq!(st.state, SessionState::AwaitingToken);
    assert_eq!(
        outputs_text(&st.outputs),
        vec!["log:[+] Connexion de 10.0.0.1:5000".to_string(), "send:TOKEN:\n".to_string()]
    );
}

#[test]
fn right_token_opens_the_session() {
    let s = sample_snapshot();
    let ev = SessionEvent::Line(" enspd\u{0}2025\r\n".to_string());
    let r = session_step(SessionState::AwaitingToken, &ev, "p", &s);
    assert_eq!(r.state, SessionState::Authenticated);
    assert_eq!(
        outputs_text(&r.outputs),
        vec![
            "log:Token reçu: '\"enspd2025\"'".to_string(),
            "send:OK\n".to_string(),
            "log:[✓] Authentifié: p".to_string()
        ]
    );
}

#[test]
fn wrong_token_closes_the_session() {
    let s = sample_snapshot();
    let ev = SessionEvent::Line("ENSPD2024\n".to_string());
    let r = session_step(SessionState::AwaitingToken, &ev, "p", &s);
    assert_eq!(r.state, SessionState::Closed);
    assert_eq!(
        outputs_text(&r.outputs),
        vec![
            "log:Token reçu: '\"ENSPD2024\"'".to_string(),
            "send:UNAUTHORIZED\n".to_string(),
            "log:[!] Accès refusé depuis p".to_string()
        ]
    );
    let ev = SessionEvent::Line("a\"b\n".to_string());
    let r = session_step(SessionState::AwaitingToken, &ev, "p", &s);
    assert_eq!(outputs_text(&r.outputs)[0], "log:Token reçu: '\"a\\\"b\"'");
}

#[test]
fn token_read_failure_and_end() {
    let s = sample_snapshot();
    let r = session_step(SessionState::AwaitingToken, &SessionEvent::ReadFailed, "p", &s);
    assert_eq!(r.state, SessionState::Closed);
    assert_eq!(
        outputs_text(&r.outputs),
        vec!["send:UNAUTHORIZED\n".to_string(), "log:[!] Accès refusé depuis p".to_string()]
    );
    let r = session_step(SessionState::AwaitingToken, &SessionEvent::Ended, "p", &s);
    assert_eq!(r.state, SessionState::Closed);
    assert_eq!(
        outputs_text(&r.outputs),
        vec![
            "log:Token reçu: '\"\"'".to_string(),
            "send:UNAUTHORIZED\n".to_string(),
            "log:[!] Accès refusé depuis p".to_string()
        ]
    );
}

#[test]
fn authenticated_commands_are_answered() {
    let s = sample_snapshot();
    let ev = SessionEvent::Line("  shutdown ".to_string());
    let r = session_step(SessionState::Authenticated, &ev, "p", &s);
    assert_eq!(r.state, SessionState::Authenticated);
    assert_eq!(
        outputs_text(&r.outputs),
        vec![
            "log:[p] commande: 'shutdown'".to_string(),
            "act:Shutdown".to_string(),
            "send:SHUTDOWN programmé dans 5 secondes.\n".to_string(),
            "send:\nEND\n".to_string()
        ]
    );
}

#[test]
fn quit_closes_the_session() {
    let s = sample_snapshot();
    let ev = SessionEvent::Line("QuIt".to_string());
    let r = session_step(SessionState::Authenticated, &ev, "p", &s);
    assert_eq!(r.state, SessionState::Closed);
    assert_eq!(
        outputs_text(&r.outputs),
        vec![
            "log:[p] commande: 'QuIt'".to_string(),
            "send:BYE\n".to_string(),
            "log:[-] Déconnexion de p".to_string()
        ]
    );
}

#[test]
fn end_of_input_disconnects() {
    let s = sample_snapshot();
    let r = session_step(SessionState::Authenticated, &SessionEvent::Ended, "p", &s);
    assert_eq!(r.state, SessionState::Closed);
    assert_eq!(outputs_text(&r.outputs), vec!["log:[-] Déconnexion de p".to_string()]);
    let r = session_step(SessionState::Authenticated, &SessionEvent::ReadFailed, "p", &s);
    assert_eq!(outputs_text(&r.outputs), vec!["log:[-] Déconnexion de p".to_string()]);
}

#[test]
fn closed_session_does_nothing() {
    let s = sample_snapshot();
    let r = session_step(SessionState::Closed, &SessionEvent::Line("cpu".to_string()), "p", &s);
    assert_eq!(r.state, SessionState::Closed);
    assert!(r.outputs.is_empty());
}

// ---------------------------------------------------------------- log

#[test]
fn log_lines() {
    assert_eq!(log_line("2024-01-02 03:04:05", "hello"), "[2024-01-02 03:04:05] hello\n");
    assert_eq!(log_line("", ""), "[] \n");
}

#[test]
fn refresh_replaces_on_success() {
    let mut current = sample_snapshot();
    let mut newer = sample_snapshot();
    newer.timestamp = "2024-05-01 12:00:05".to_string();
    let report = refresh(&mut current, Ok(newer));
    assert_eq!(report, Ok("[refresh] Métriques mises à jour".to_string()));
    assert_eq!(current.timestamp, "2024-05-01 12:00:05");
}

#[test]
fn refresh_keeps_on_failure() {
    let mut current = sample_snapshot();
    let report =
        refresh(&mut current, Err(SysWatchError::CollectionFailed("Aucun CPU détecté".to_string())));
    assert_eq!(report, Err("[refresh] Erreur: Erreur collecte: Aucun CPU détecté".to_string()));
    assert_eq!(current.timestamp, "2024-05-01 12:00:00");
}

#[test]
fn fixed_commands_ignore_case_and_space() {
    let s = sample_snapshot();
    for (raw, k) in [(" CPU\t", "cpu"), ("Mem", "mem"), ("PS ", "ps"), ("Procs", "procs"), ("NET", "net"),
                     ("Alert", "alert"), ("ALERTS", "alerts"), ("All", "all"), ("   ", ""), ("HELP", "help"),
                     ("QUIT", "quit"), (" Exit ", "exit")] {
        let a = format_response(&s, raw);
        let b = format_response(&s, k);
        assert_eq!(a.text, b.text, "{}", raw);
        assert!(matches!(a.action, Action::Nothing));
    }
    assert_eq!(format_response(&s, "QuIt").text, "BYE\n");
}

#[test]
fn alert_status_fields() {
    let a = AlertStatus {
        cpu_critical: false,
        cpu_warning: true,
        memory_critical: false,
        memory_warning: false,
        alerts: vec!["CPU ÉLEVÉ: 71.0%".to_string()],
    };
    assert_eq!(a.render(), " ATTENTION — 1 alerte(s) active(s)");
}

#[test]
fn memory_answer_prints_the_f64_quotient() {
    let mut s = sample_snapshot();
    s.memory = mem(80, 49, 31);
    assert_eq!(
        format_response(&s, "mem").text,
        "[MÉMOIRE]\nMEM: 49MB utilisés / 80MB total (31 MB libres)\n[████████████░░░░░░░░] 61.3%\n"
    );
    s.memory = mem(1024, 512, 512);
    assert!(format_response(&s, "mem").text.ends_with("[██████████░░░░░░░░░░] 50.0%\n"));
}

#[test]
fn message_is_shown_as_typed() {
    let s = sample_snapshot();
    let r = format_response(&s, "msg Bonjour tout le monde !");
    assert_eq!(r.text, "Message affiché sur la machine cible.\n");
    match r.action {
        Action::ShowMessage(b) => {
            assert!(b.contains(&format!("║  Bonjour tout le monde !{}║\n", " ".repeat(15))))
        }
        other => panic!("unexpected action {:?}", other),
    }
    let r = format_response(&s, "  MSG Salut ");
    match r.action {
        Action::ShowMessage(b) => assert!(b.contains(&format!("║  Salut{}║\n", " ".repeat(33)))),
        other => panic!("unexpected action {:?}", other),
    }
}

#[test]
fn loads_with_nan_cannot_be_ordered() {
    assert!(can_order_loads(&vec![proc_reading(1, "a", f32::NAN, 0)]));
    assert!(!can_order_loads(&vec![proc_reading(1, "a", 1.0, 0), proc_reading(2, "b", f32::NAN, 0)]));
    assert!(can_order_loads(&vec![proc_reading(1, "a", 1.0, 0), proc_reading(2, "b", 2.0, 0)]));
}

#[test]
fn zero_loads_of_either_sign_keep_their_order() {
    let top = top_processes(vec![
        proc_reading(1, "a", -0.0, 0),
        proc_reading(2, "b", 0.0, 0),
        proc_reading(3, "c", -0.0, 0),
        proc_reading(4, "d", 0.5, 0),
    ]);
    let pids: Vec<u32> = top.iter().map(|p| p.pid).collect();
    assert_eq!(pids, vec![4, 1, 2, 3]);
}

#[test]
fn tiny_loads_order_exactly() {
    // loads that would round to the same tenth keep their true order
    let top = top_processes(vec![
        proc_reading(1, "a", 39.96, 0),
        proc_reading(2, "b", 39.97, 0),
        proc_reading(3, "c", 39.95, 0),
    ]);
    let pids: Vec<u32> = top.iter().map(|p| p.pid).collect();
    assert_eq!(pids, vec![2, 1, 3]);
}

#[test]
fn mib_conversion() {
    assert_eq!(bytes_to_mib(3 * 1024 * 1024 - 1), 2);
    assert_eq!(bytes_to_mib(0), 0);
}

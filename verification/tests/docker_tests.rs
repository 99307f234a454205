use ginger_db::boot::{shutdown_icon, status_display};
use ginger_db::boot::{
    boot_icon, boot_services, classify_boot_status, declared_services, is_stopped,
    shutdown_summary, spinner_frame, startup_bar_color, startup_phase_text, startup_summary,
    BootService, BootStatus, StartupPhase,
};
use ginger_db::docker::{
    merge_logs, parse_docker_services, project_name_from_config, OutputError,
};
use ginger_db::ui::Color;
use ginger_db::boot::{boot_status_of_lower, stopped_lower};

#[test]
fn project_name_is_read_from_config() {
    let cfg = b"services:\n  db:\n    image: x\nname: my-app \nname: later\n".to_vec();
    assert_eq!(project_name_from_config(cfg), Ok(Some("my-app".to_string())));
    assert_eq!(project_name_from_config(b"services: {}\n".to_vec()), Ok(None));
    assert_eq!(project_name_from_config(b"name:\n".to_vec()), Ok(Some(String::new())));
    assert_eq!(project_name_from_config(vec![0xff, 0xfe]), Err(OutputError::InvalidUtf8));
}

#[test]
fn docker_ps_lines_become_services() {
    let out = b"abc|shop-db|Up 2 hours|postgres:16\n\nxyz|kv-redis|Exited (0)|redis\nonly-id\n".to_vec();
    let svcs = parse_docker_services(out).unwrap();
    assert_eq!(svcs.len(), 3);
    assert_eq!(svcs[0].container_id, "abc");
    assert_eq!(svcs[0].name, "shop-db");
    assert_eq!(svcs[0].status, "running");
    assert_eq!(svcs[0].image, "postgres:16");
    assert_eq!(svcs[1].status, "exited");
    assert_eq!(svcs[2].container_id, "only-id");
    assert_eq!(svcs[2].name, "unknown");
    assert_eq!(svcs[2].status, "unknown");
    assert_eq!(svcs[2].image, "unknown");
    assert_eq!(parse_docker_services(vec![0xc3]).err(), Some(OutputError::InvalidUtf8));
}

#[test]
fn logs_keep_the_last_five_hundred_lines() {
    let mut out = String::new();
    for i in 0..450 {
        out.push_str(&format!("out {}\n", i));
    }
    let mut err = String::new();
    for i in 0..100 {
        err.push_str(&format!("err {}\n", i));
    }
    let lines = merge_logs(out.as_bytes(), err.as_bytes());
    assert_eq!(lines.len(), 500);
    assert_eq!(lines[0], "out 50");
    assert_eq!(lines[399], "out 449");
    assert_eq!(lines[499], "err 99");
    let short = merge_logs(b"a\r\nb", b"c\xff");
    assert_eq!(short, vec!["a".to_string(), "b".to_string(), "c\u{fffd}".to_string()]);
}

#[test]
fn boot_states_follow_docker_ps() {
    let expected = vec!["db".to_string(), "web".to_string(), "cache".to_string(), "gone".to_string()];
    let listing = b"db|Up 5 seconds\nweb|Exited (1) 3 seconds ago\ncache|Created\nweb|Up 1 second\nbroken line\n";
    let states = boot_services(&expected, listing);
    assert_eq!(states.len(), 4);
    assert_eq!(states[0].status, BootStatus::Running);
    assert_eq!(states[1].status, BootStatus::Running); // the later line wins
    assert_eq!(states[1].raw_status, "Up 1 second");
    assert_eq!(states[2].status, BootStatus::Starting);
    assert_eq!(states[3].status, BootStatus::Waiting);
    assert_eq!(states[3].raw_status, "");
    assert_eq!(classify_boot_status("Dead"), BootStatus::Failed);
    assert_eq!(classify_boot_status("Exited (137)"), BootStatus::Failed);
}

#[test]
fn declared_services_skip_empty_lines() {
    assert_eq!(declared_services(b"db\n\nweb\n"), vec!["db".to_string(), "web".to_string()]);
    assert!(declared_services(b"").is_empty());
}

#[test]
fn stopped_services() {
    assert!(is_stopped(""));
    assert!(is_stopped("Exited (0) 1 second ago"));
    assert!(is_stopped("Removal In Progress"));
    assert!(is_stopped("dead"));
    assert!(!is_stopped("Up 3 minutes"));
}

#[test]
fn spinner_cycles() {
    assert_eq!(spinner_frame(0), "⠋");
    assert_eq!(spinner_frame(9), "⠏");
    assert_eq!(spinner_frame(10), "⠋");
    assert_eq!(spinner_frame(23), spinner_frame(3));
}

fn boot(name: &str, status: BootStatus, raw: &str) -> BootService {
    BootService { name: name.to_string(), status, raw_status: raw.to_string() }
}

#[test]
fn startup_progress() {
    let none = startup_summary(&[]);
    assert_eq!(none.phase, StartupPhase::Preparing);
    assert!(!none.all_up);
    let all = startup_summary(&[boot("a", BootStatus::Running, "Up"), boot("b", BootStatus::Running, "Up")]);
    assert!(all.all_up);
    assert_eq!(all.phase, StartupPhase::AllRunning);
    assert_eq!(startup_bar_color(&all), Color::Green);
    let mixed = startup_summary(&[
        boot("a", BootStatus::Running, "Up"),
        boot("b", BootStatus::Failed, "Exited"),
        boot("c", BootStatus::Starting, "Created"),
    ]);
    assert_eq!((mixed.total, mixed.running, mixed.failed), (3, 1, 1));
    assert_eq!(mixed.phase, StartupPhase::SomeFailed);
    assert_eq!(startup_bar_color(&mixed), Color::Red);
    assert_eq!(startup_phase_text(StartupPhase::Starting), ("Starting services…", Color::Cyan));
    assert_eq!(boot_icon(BootStatus::Starting, 1), ("⠙", Color::Cyan));
    assert_eq!(boot_icon(BootStatus::Waiting, 1), ("○", Color::DarkGray));
}

#[test]
fn shutdown_progress() {
    let st = [boot("a", BootStatus::Failed, "Exited (0)"), boot("b", BootStatus::Running, "Up 1 minute")];
    let s = shutdown_summary(&st, 10);
    assert_eq!((s.total, s.stopped), (2, 1));
    assert!(!s.finished);
    let late = shutdown_summary(&st, 120);
    assert!(late.timed_out && late.finished);
    let empty = shutdown_summary(&[], 0);
    assert!(empty.all_done && empty.finished);
}

#[test]
fn status_texts_and_shutdown_icons() {
    assert_eq!(status_display("", "removed"), "removed");
    assert_eq!(status_display("Up 1s", "removed"), "Up 1s");
    assert_eq!(shutdown_icon("Exited (0)", 4), ("✓", Color::Green));
    assert_eq!(shutdown_icon("Up 2s", 4), ("⠼", Color::Yellow));
}

#[test]
fn boot_state_of_lowered_status() {
    assert_eq!(boot_status_of_lower("up 2 seconds"), BootStatus::Running);
    assert_eq!(boot_status_of_lower("exited (1)"), BootStatus::Failed);
    assert_eq!(boot_status_of_lower("dead"), BootStatus::Failed);
    assert_eq!(boot_status_of_lower(""), BootStatus::Waiting);
    assert_eq!(boot_status_of_lower("created"), BootStatus::Starting);
    assert_eq!(boot_status_of_lower("Up"), BootStatus::Starting);
}

#[test]
fn stopped_of_lowered_status() {
    assert!(stopped_lower("exited (0)"));
    assert!(stopped_lower("dead"));
    assert!(stopped_lower("removal in progress"));
    assert!(!stopped_lower("up 1 minute"));
    assert!(!stopped_lower("Exited"));
}

#[test]
fn waiting_or_failed_services_are_stopped() {
    let listing = b"db|Exited (1) 3 seconds ago\nweb|Up 2 seconds\ncache|DEAD\n";
    let expected = vec!["db".to_string(), "web".to_string(), "cache".to_string(), "queue".to_string()];
    for b in boot_services(&expected, listing) {
        if b.status == BootStatus::Waiting || b.status == BootStatus::Failed {
            assert!(is_stopped(&b.raw_status));
        }
    }
    assert!(is_stopped(""));
    assert_eq!(classify_boot_status(""), BootStatus::Waiting);
}

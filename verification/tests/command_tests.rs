use quivive::commands::owner::{restart, stop, OwnerAction, OwnerStep};
use quivive::helpers::botinfo::{executable_name, latency_label, memory_probe_command};
use quivive::helpers::credentials_helper::{public_credentials, Credentials};

#[test]
fn restart_with_manager() {
    let plan = restart(true);
    assert!(plan.marker_file.is_none());
    assert_eq!(plan.reply, "Bye! (for now)");
    assert!(plan.shutdown);
}

#[test]
fn restart_without_manager() {
    let plan = restart(false);
    assert!(plan.marker_file.is_none());
    assert_eq!(plan.reply, "Failed to get the shard manager :sad:");
    assert!(!plan.shutdown);
}

#[test]
fn stop_with_manager() {
    let plan = stop(true);
    let file = plan.marker_file.expect("stop leaves a marker file");
    assert_eq!(file.path, "norestart");
    assert_eq!(file.contents, "This file prevents the bot from restarting.");
    assert_eq!(plan.reply, "Bye!");
    assert!(plan.shutdown);
}

#[test]
fn stop_without_manager() {
    let plan = stop(false);
    assert!(plan.marker_file.is_none());
    assert_eq!(plan.reply, "Failed to get the shard manager :sad:");
    assert!(!plan.shutdown);
}

#[test]
fn latency_labels() {
    assert_eq!(latency_label(Some(87)), "87ms");
    assert_eq!(latency_label(Some(0)), "0ms");
    assert_eq!(latency_label(None), "?ms");
}

#[test]
fn executable_names() {
    for path in ["/usr/local/bin/quivive", "quivive", "", "/", "dir/", "a/b/c", "/héllo/wörld"] {
        assert_eq!(executable_name(path), path.rsplit('/').next().unwrap(), "path {:?}", path);
    }
    assert_eq!(executable_name("/opt/bot/quivive"), "quivive");
}

#[test]
fn memory_probe() {
    assert_eq!(
        memory_probe_command(1234, "quivive"),
        "pmap 1234 | grep quivive | awk 'NR>1 {sum+=substr($2, 1, length($2)-1)} END {print sum}'"
    );
}

#[test]
fn only_the_prefix_is_public() {
    let creds = Credentials {
        bot_token: "SECRET-REDACTED".to_string(),
        default_prefix: "q!".to_string(),
        db_connection: "postgres://localhost/qv".to_string(),
    };
    let entries = public_credentials(&creds);
    assert_eq!(entries, vec![("default prefix".to_string(), "q!".to_string())]);
}

#[test]
fn stop_steps_end_at_first_failure() {
    let plan = stop(true);
    assert_eq!(plan.steps(), vec![OwnerStep::WriteMarker, OwnerStep::Reply, OwnerStep::Shutdown]);
    assert_eq!(plan.next_action(0, false), OwnerAction::Run(OwnerStep::WriteMarker));
    assert_eq!(plan.next_action(1, true), OwnerAction::Fail(OwnerStep::WriteMarker));
    assert_eq!(plan.next_action(1, false), OwnerAction::Run(OwnerStep::Reply));
    assert_eq!(plan.next_action(2, true), OwnerAction::Fail(OwnerStep::Reply));
    assert_eq!(plan.next_action(2, false), OwnerAction::Run(OwnerStep::Shutdown));
    assert_eq!(plan.next_action(3, false), OwnerAction::Finish);
}

#[test]
fn restart_reply_failure_prevents_shutdown() {
    let plan = restart(true);
    assert_eq!(plan.steps(), vec![OwnerStep::Reply, OwnerStep::Shutdown]);
    assert_eq!(plan.next_action(0, false), OwnerAction::Run(OwnerStep::Reply));
    assert_eq!(plan.next_action(1, true), OwnerAction::Fail(OwnerStep::Reply));
    assert_eq!(restart(false).steps(), vec![OwnerStep::Reply]);
    assert_eq!(restart(false).next_action(1, false), OwnerAction::Finish);
}

use johma_windows_enhanced::sid::is_valid_sid;
use johma_windows_enhanced::win_api::get_all_user_sids;
use johma_windows_enhanced::win_api::get_app_folder;
use johma_windows_enhanced::win_api::get_appdata;
use johma_windows_enhanced::win_api::get_local_appdata;
use johma_windows_enhanced::win_api::get_local_appdata_with_token;
use johma_windows_enhanced::win_api::get_local_low;
use johma_windows_enhanced::win_api::get_roaming;
use johma_windows_enhanced::win_api::resolve;
use johma_windows_enhanced::win_api::BridgeAudit;
use johma_windows_enhanced::win_api::BridgeReply;
use johma_windows_enhanced::win_api::FolderReply;
use johma_windows_enhanced::win_api::RawAccount;
use johma_windows_enhanced::win_api::SpecialFolder;
use johma_windows_enhanced::wide::decode_wide;

fn units(text: &str) -> Vec<u16> {
    text.encode_utf16().collect()
}

fn terminated(text: &str) -> Vec<u16> {
    let mut v = units(text);
    v.push(0);
    v
}

#[test]
fn identity_enumeration_assembles_wellformed() {
    let records = vec![
        RawAccount {
            name_units: terminated("Alice"),
            sid_units: Some(terminated("S-1-5-21-3623811015-3361044348-30300820-1013")),
        },
        RawAccount {
            name_units: terminated("Bob"),
            sid_units: None,
        },
        RawAccount {
            name_units: terminated(""),
            sid_units: Some(terminated("S-1-5-18")),
        },
        RawAccount {
            name_units: terminated("Mallory"),
            sid_units: Some(terminated("not-a-sid")),
        },
        RawAccount {
            name_units: terminated("Carol"),
            sid_units: Some(terminated("S-1-5-19")),
        },
    ];
    let ids = get_all_user_sids(Some(records)).expect("enumeration succeeded");
    assert_eq!(ids.len(), 2);
    assert_eq!(ids[0].account_name, "Alice");
    assert_eq!(
        ids[0].security_id,
        "S-1-5-21-3623811015-3361044348-30300820-1013"
    );
    assert_eq!(ids[1].account_name, "Carol");
    assert_eq!(ids[1].security_id, "S-1-5-19");
    for id in &ids {
        assert!(!id.account_name.is_empty());
        assert!(is_valid_sid(&id.security_id));
    }
}

#[test]
fn identity_enumeration_platform_rejection_is_fatal() {
    assert!(get_all_user_sids(None).is_err());
}

#[test]
fn identity_enumeration_of_nothing_is_empty() {
    let ids = get_all_user_sids(Some(Vec::new())).expect("enumeration succeeded");
    assert!(ids.is_empty());
}

#[test]
fn sid_grammar_accepts_canonical_forms() {
    assert!(is_valid_sid("S-1-5-21-3623811015-3361044348-30300820-1013"));
    assert!(is_valid_sid("S-1-5-18"));
    assert!(is_valid_sid("S-1-0-0"));
    assert!(is_valid_sid("S-1-5"));
}

#[test]
fn sid_grammar_rejects_malformed_forms() {
    assert!(!is_valid_sid(""));
    assert!(!is_valid_sid("S-1"));
    assert!(!is_valid_sid("S-15"));
    assert!(!is_valid_sid("X-1-5"));
    assert!(!is_valid_sid("S--1-5"));
    assert!(!is_valid_sid("S-1-5-"));
    assert!(!is_valid_sid("S-1-5-21-abc"));
    assert!(!is_valid_sid("s-1-5-18"));
}

#[test]
fn decode_wide_stops_at_first_terminator() {
    let mut buf = units("C:\\Users\\jo");
    buf.push(0);
    buf.extend(units("stale tail"));
    assert_eq!(decode_wide(&buf), "C:\\Users\\jo");
}

#[test]
fn decode_wide_without_terminator_takes_whole_buffer() {
    let buf = units("D:\\data");
    assert_eq!(decode_wide(&buf), "D:\\data");
}

#[test]
fn decode_wide_of_empty_buffer_is_empty() {
    assert_eq!(decode_wide(&Vec::new()), "");
    assert_eq!(decode_wide(&vec![0u16, 65, 66]), "");
}

#[test]
fn fixed_folder_success_decodes_buffer() {
    let mut buf = terminated("C:\\Users\\jo\\AppData\\Local");
    buf.resize(260, 0);
    assert_eq!(
        get_local_appdata(0, buf.clone()).as_deref(),
        Some("C:\\Users\\jo\\AppData\\Local")
    );
    assert_eq!(
        get_roaming(1, buf.clone()).as_deref(),
        Some("C:\\Users\\jo\\AppData\\Local")
    );
    assert_eq!(
        get_appdata(0, buf.clone()).as_deref(),
        Some("C:\\Users\\jo\\AppData\\Local")
    );
    assert_eq!(
        get_local_appdata_with_token(0, buf).as_deref(),
        Some("C:\\Users\\jo\\AppData\\Local")
    );
}

#[test]
fn fixed_folder_failure_is_absence() {
    let buf = terminated("C:\\Users\\jo\\AppData\\Local");
    assert_eq!(get_local_appdata(-1, buf.clone()), None);
    assert_eq!(get_roaming(-2147024809, buf.clone()), None);
    assert_eq!(get_appdata(-1, buf.clone()), None);
    assert_eq!(get_local_appdata_with_token(-1, buf), None);
}

#[test]
fn fixed_folder_at_capacity_arrives_truncated() {
    // A path that filled the whole fixed-capacity buffer has no terminator:
    // the entire buffer is taken, silently truncated to the capacity.
    let long: String = "x".repeat(400);
    let buf: Vec<u16> = long.encode_utf16().take(260).collect();
    assert_eq!(buf.len(), 260);
    let resolved = get_local_appdata(0, buf).expect("success status resolves");
    assert_eq!(resolved, "x".repeat(260));
}

#[test]
fn local_low_decodes_allocated_buffer() {
    let reply = Some(terminated("C:\\Users\\jo\\AppData\\LocalLow"));
    assert_eq!(
        get_local_low(reply).as_deref(),
        Some("C:\\Users\\jo\\AppData\\LocalLow")
    );
    assert_eq!(get_local_low(None), None);
}

#[test]
fn resolve_answers_each_category() {
    let mut buf = terminated("C:\\Users\\jo\\AppData\\Roaming");
    buf.resize(260, 0);
    assert_eq!(
        resolve(SpecialFolder::RoamingAppData, FolderReply::Fixed(0, buf)).as_deref(),
        Some("C:\\Users\\jo\\AppData\\Roaming")
    );
    assert_eq!(
        resolve(
            SpecialFolder::LocalLow,
            FolderReply::Allocated(Some(terminated("C:\\LL")))
        )
        .as_deref(),
        Some("C:\\LL")
    );
    assert_eq!(
        resolve(
            SpecialFolder::ApplicationRoot,
            FolderReply::LocalRoot(Some("C:\\Users\\jo\\AppData\\Local".to_string()))
        )
        .as_deref(),
        Some("C:\\Users\\jo\\AppData\\Local\\johma_windows_enhanced")
    );
}

#[test]
fn resolve_of_mismatched_reply_is_absence() {
    assert_eq!(
        resolve(SpecialFolder::LocalLow, FolderReply::Fixed(0, terminated("C:\\x"))),
        None
    );
    assert_eq!(
        resolve(SpecialFolder::LocalAppData, FolderReply::Allocated(None)),
        None
    );
}

#[test]
fn resolve_is_idempotent_within_a_session() {
    let buf = {
        let mut b = terminated("C:\\Users\\jo\\AppData\\Local");
        b.resize(260, 0);
        b
    };
    let first = resolve(
        SpecialFolder::LocalAppData,
        FolderReply::Fixed(0, buf.clone()),
    );
    let second = resolve(SpecialFolder::LocalAppData, FolderReply::Fixed(0, buf));
    assert_eq!(first, second);
    let root = "C:\\Users\\jo\\AppData\\Local".to_string();
    let a = resolve(
        SpecialFolder::ApplicationRoot,
        FolderReply::LocalRoot(Some(root.clone())),
    );
    let b = resolve(
        SpecialFolder::ApplicationRoot,
        FolderReply::LocalRoot(Some(root)),
    );
    assert_eq!(a, b);
}

#[test]
fn application_root_is_root_joined_with_fixed_name() {
    // The application-root category needs no native reply at all: the only
    // input is the local data root, and the result is exact.
    assert_eq!(
        johma_windows_enhanced::win_api::app_folder_under("C:\\Users\\jo\\AppData\\Local"),
        "C:\\Users\\jo\\AppData\\Local\\johma_windows_enhanced"
    );
}

#[test]
fn application_root_from_host_ends_with_fixed_name() {
    if let Some(p) = get_app_folder() {
        assert!(p.ends_with("\\johma_windows_enhanced"));
    }
}

#[test]
fn list_pids_null_reply_gives_empty_collection() {
    let mut audit = BridgeAudit::new();
    let pids = johma_windows_enhanced::win_api::list_pids(BridgeReply::Null, &mut audit);
    assert!(pids.is_empty());
    assert_eq!(audit.allocations, 0);
    assert_eq!(audit.releases, 0);
}

#[test]
fn list_pids_zero_entries_still_released() {
    let mut audit = BridgeAudit::new();
    let pids =
        johma_windows_enhanced::win_api::list_pids(BridgeReply::Pids(Vec::new()), &mut audit);
    assert!(pids.is_empty());
    assert_eq!(audit.allocations, 1);
    assert_eq!(audit.releases, 1);
}

#[test]
fn list_pids_copies_the_array_entries() {
    let mut audit = BridgeAudit::new();
    let pids = johma_windows_enhanced::win_api::list_pids(
        BridgeReply::Pids(vec![4, 1024, 7788]),
        &mut audit,
    );
    assert_eq!(pids, vec![4, 1024, 7788]);
}

#[test]
fn bridge_audit_balances_across_any_sequence() {
    let mut audit = BridgeAudit::new();
    let replies = vec![
        BridgeReply::Pids(vec![1, 2]),
        BridgeReply::Null,
        BridgeReply::Pids(Vec::new()),
        BridgeReply::Pids(vec![9]),
        BridgeReply::Null,
    ];
    for reply in replies {
        let _ = johma_windows_enhanced::win_api::list_pids(reply, &mut audit);
        assert_eq!(audit.allocations, audit.releases);
    }
    assert_eq!(audit.allocations, 3);
    assert_eq!(audit.releases, 3);
}

#[test]
fn kill_succeeds_exactly_when_utility_spawned() {
    // Stubbed process creation: the outcome of the spawn is the only input.
    assert!(johma_windows_enhanced::win_api::kill_outcome(None).is_ok());
    let failed =
        johma_windows_enhanced::win_api::kill_outcome(Some("access denied".to_string()));
    match failed {
        Ok(()) => panic!("spawn failure must be reported"),
        Err(f) => assert_eq!(f.message, "access denied"),
    }
}

#[test]
fn kill_command_renders_pid_in_decimal() {
    let cmd = johma_windows_enhanced::win_api::kill_command(4321);
    assert_eq!(cmd.program, "taskkill");
    assert_eq!(cmd.args, vec!["/F", "/PID", "4321"]);
    assert_eq!(
        johma_windows_enhanced::win_api::kill_command(0).args[2],
        "0"
    );
    assert_eq!(
        johma_windows_enhanced::win_api::kill_command(10).args[2],
        "10"
    );
    assert_eq!(
        johma_windows_enhanced::win_api::kill_command(u32::MAX).args[2],
        "4294967295"
    );
}

#[test]
fn environment_dialog_only_on_supporting_host() {
    let cmd = johma_windows_enhanced::win_api::environment_dialog_plan(true)
        .expect("supported host gets a command");
    assert_eq!(cmd.program, "SystemPropertiesAdvanced.exe");
    assert_eq!(cmd.args, vec!["/c"]);
    assert!(johma_windows_enhanced::win_api::environment_dialog_plan(false).is_none());
}

#[test]
fn task_manager_launch_is_bare() {
    let cmd = johma_windows_enhanced::win_api::task_manager_command();
    assert_eq!(cmd.program, "taskmgr");
    assert!(cmd.args.is_empty());
}

#[test]
fn shell_restart_is_reported_infallible() {
    assert!(johma_windows_enhanced::win_api::restart_shell_report().is_ok());
}

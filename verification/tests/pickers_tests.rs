use xgameruntime::hresult::{E_CANCELLED, E_FAIL, E_ILLEGAL_METHOD_CALL};
use xgameruntime::pickers::{activation_status, file_from_path, file_type, HRESULT_FILE_NOT_FOUND};
use xgameruntime::hresult::{CLASS_E_CLASSNOTAVAILABLE, E_POINTER, S_OK};
use xgameruntime::pickers::{
    activation_route, content_type, content_type_of_lowercase, created_ticks, filter_pattern,
    open_dialog_plan, save_dialog_plan, show_outcome, trim_leading_dots, ActivationRoute,
    OpenRequest, PickState, PickStatus, SaveRequest, ShowOutcome, TICKS_TO_UNIX_EPOCH,
};

fn strings(items: &[&str]) -> Vec<String> {
    items.iter().map(|s| s.to_string()).collect()
}

#[test]
fn the_pickers_and_the_file_statics_are_served_and_nothing_else() {
    assert_eq!(
        activation_route("Microsoft.Windows.Storage.Pickers.FileOpenPicker"),
        ActivationRoute::OpenPicker
    );
    assert_eq!(
        activation_route("Windows.Storage.Pickers.FileSavePicker"),
        ActivationRoute::SavePicker
    );
    assert_eq!(
        activation_route("Windows.Storage.StorageFile"),
        ActivationRoute::StorageFile
    );
    assert_eq!(
        activation_route("Windows.Storage.Pickers.FileOpenPicker"),
        ActivationRoute::NotAvailable
    );
}

#[test]
fn extensions_become_a_star_pattern() {
    assert_eq!(filter_pattern(&strings(&[])), "");
    assert_eq!(filter_pattern(&strings(&[".mcworld"])), "*.mcworld");
    assert_eq!(
        filter_pattern(&strings(&[".png", ".jpg", ".jpeg"])),
        "*.png;*.jpg;*.jpeg"
    );
}

#[test]
fn leading_dots_are_trimmed_from_the_default_extension() {
    assert_eq!(trim_leading_dots("..txt"), "txt");
    assert_eq!(trim_leading_dots("txt"), "txt");
    assert_eq!(trim_leading_dots("..."), "");
}

#[test]
fn a_save_dialog_gets_a_filter_per_type_and_only_the_given_settings() {
    let request = SaveRequest {
        suggested_name: "world".to_string(),
        default_extension: ".mcworld".to_string(),
        commit_button_text: String::new(),
        file_types: vec![
            ("Minecraft World".to_string(), strings(&[".mcworld"])),
            ("Images".to_string(), strings(&[".png", ".jpg"])),
        ],
        owner: 0,
    };
    let plan = save_dialog_plan(&request);
    assert_eq!(
        plan.filters,
        vec![
            ("Minecraft World".to_string(), "*.mcworld".to_string()),
            ("Images".to_string(), "*.png;*.jpg".to_string()),
        ]
    );
    assert_eq!(plan.file_name, Some("world".to_string()));
    assert_eq!(plan.default_extension, Some("mcworld".to_string()));
    assert_eq!(plan.ok_label, None);
    assert_eq!(plan.owner, None);
}

#[test]
fn an_open_dialog_groups_the_extensions_and_keeps_a_way_out() {
    let empty = OpenRequest { commit_button_text: String::new(), file_types: vec![], owner: 9 };
    let plan = open_dialog_plan(&empty);
    assert_eq!(plan.filters, vec![("All files".to_string(), "*.*".to_string())]);
    assert_eq!(plan.owner, Some(9));
    let some = OpenRequest {
        commit_button_text: "Import".to_string(),
        file_types: strings(&[".mcpack", ".mcaddon"]),
        owner: 0,
    };
    let plan = open_dialog_plan(&some);
    assert_eq!(
        plan.filters,
        vec![
            ("Supported files".to_string(), "*.mcpack;*.mcaddon".to_string()),
            ("All files".to_string(), "*.*".to_string()),
        ]
    );
    assert_eq!(plan.ok_label, Some("Import".to_string()));
}

#[test]
fn a_dismissed_dialog_is_a_cancel_not_a_failure() {
    assert_eq!(show_outcome(E_CANCELLED), ShowOutcome::Cancelled);
    assert_eq!(show_outcome(E_FAIL), ShowOutcome::Failed(E_FAIL));
    assert_eq!(show_outcome(0), ShowOutcome::Chosen);
    assert_eq!(show_outcome(1), ShowOutcome::Chosen);
}

#[test]
fn a_pick_reports_what_it_finished_with() {
    let mut pick = PickState::new();
    assert_eq!(pick.results(), Err(E_ILLEGAL_METHOD_CALL));
    assert!(!pick.set_completed(true));
    assert!(pick.finish(Ok(Some("C:/a.txt".to_string()))));
    assert_eq!(pick.status, PickStatus::Completed);
    assert_eq!(pick.results(), Ok(Some("C:/a.txt".to_string())));
    assert!(pick.set_completed(true));

    let mut cancelled = PickState::new();
    assert!(!cancelled.finish(Ok(None)));
    assert_eq!(cancelled.results(), Ok(None));

    let mut unqueued = PickState::new();
    unqueued.queue_failed();
    assert_eq!(unqueued.status, PickStatus::Error);
    assert_eq!(unqueued.results(), Err(E_FAIL));
}

#[test]
fn content_types_follow_the_extension() {
    assert_eq!(content_type("TXT"), "text/plain");
    assert_eq!(content_type("log"), "text/plain");
    assert_eq!(content_type("json"), "application/json");
    assert_eq!(content_type("Png"), "image/png");
    assert_eq!(content_type("jpeg"), "image/jpeg");
    assert_eq!(content_type("mcworld"), "application/zip");
    assert_eq!(content_type(""), "application/octet-stream");
    assert_eq!(content_type_of_lowercase(&"MCPACK".to_string()), "application/octet-stream");
}

#[test]
fn creation_times_convert_to_windows_ticks() {
    assert_eq!(created_ticks(None), 0);
    assert_eq!(created_ticks(Some(0)), TICKS_TO_UNIX_EPOCH);
    assert_eq!(created_ticks(Some(1_000_000_000)), TICKS_TO_UNIX_EPOCH + 10_000_000);
    assert_eq!(created_ticks(Some(199)), TICKS_TO_UNIX_EPOCH + 1);
    let wrapped = u64::MAX as u128;
    assert_eq!(created_ticks(Some(wrapped)), TICKS_TO_UNIX_EPOCH);
    assert_eq!(
        created_ticks(Some(1u128 << 63)),
        (i64::MIN / 100) + TICKS_TO_UNIX_EPOCH
    );
}

#[test]
fn a_missing_file_is_not_found_and_a_file_type_keeps_its_dot() {
    assert_eq!(file_from_path("C:/a.txt".to_string(), true), Ok(Some("C:/a.txt".to_string())));
    assert_eq!(file_from_path("C:/missing".to_string(), false), Err(HRESULT_FILE_NOT_FOUND));
    assert_eq!(HRESULT_FILE_NOT_FOUND, 0x80070002u32 as i32);
    assert_eq!(file_type(Some("mcworld")), ".mcworld");
    assert_eq!(file_type(None), "");
}

#[test]
fn activation_needs_an_out_pointer_and_a_served_class() {
    assert_eq!(activation_status(false, ActivationRoute::SavePicker), E_POINTER);
    assert_eq!(
        activation_status(true, ActivationRoute::NotAvailable),
        CLASS_E_CLASSNOTAVAILABLE
    );
    assert_eq!(activation_status(true, ActivationRoute::OpenPicker), S_OK);
}

use xgameruntime::gamesave::{
    blob_read_failure, container_last_modified, initialize_provider, BlobRead, is_listed_blob, is_listed_container,
    read_blob_data_check, read_blob_names_check, remaining_quota, PathPayload, ProviderScope,
    UpdateBatch, XGameSaveObject, PLACEHOLDER_QUOTA_BYTES,
};
use xgameruntime::hresult::{E_FAIL, E_INVALIDARG, E_NOT_SUFFICIENT_BUFFER, E_POINTER, S_OK};

#[test]
fn initialize_provider_rejects_missing_user_or_configuration() {
    assert_eq!(
        initialize_provider(None, Some("cfg".to_string())),
        Err(E_INVALIDARG)
    );
    assert_eq!(initialize_provider(Some(1), None), Err(E_INVALIDARG));
}

#[test]
fn a_zero_provider_handle_is_rejected_not_silently_accepted() {
    let saves = XGameSaveObject::new();
    assert_eq!(saves.get_remaining_quota(0, 0), Err(E_INVALIDARG));
}

#[test]
fn a_scope_carries_the_user_and_configuration() {
    assert_eq!(
        initialize_provider(Some(7), Some("cfg".to_string())),
        Ok(ProviderScope { user_id: 7, configuration_id: "cfg".to_string() })
    );
}

#[test]
fn the_last_buffered_operation_on_a_blob_wins() {
    let mut batch = UpdateBatch::new("root".to_string(), "Save".to_string());
    batch.write("a.bin".to_string(), vec![1, 2]);
    batch.delete("a.bin".to_string());
    batch.write("b.bin".to_string(), vec![3]);
    batch.write("a.bin".to_string(), vec![4]);
    batch.write("b.bin".to_string(), vec![5]);
    let writes: Vec<(String, Vec<u8>)> = batch.writes.clone();
    assert_eq!(
        writes,
        vec![("a.bin".to_string(), vec![4]), ("b.bin".to_string(), vec![5])]
    );
    assert!(batch.deletes.is_empty());
    batch.delete("b.bin".to_string());
    assert_eq!(batch.writes, vec![("a.bin".to_string(), vec![4])]);
    assert_eq!(batch.deletes, vec!["b.bin".to_string()]);
    batch.clear();
    assert!(batch.writes.is_empty() && batch.deletes.is_empty());
    assert_eq!(batch.container_root, "root");
}

#[test]
fn the_quota_is_the_budget_less_what_is_used_and_never_negative() {
    assert_eq!(remaining_quota(0), PLACEHOLDER_QUOTA_BYTES);
    assert_eq!(remaining_quota(4096), PLACEHOLDER_QUOTA_BYTES - 4096);
    assert_eq!(remaining_quota(2 * 1024 * 1024 * 1024), 0);
    // A size past `i64::MAX` reads as negative, so the subtraction saturates upward.
    assert_eq!(remaining_quota(u64::MAX), PLACEHOLDER_QUOTA_BYTES + 1);
    assert_eq!(remaining_quota(1u64 << 63), i64::MAX);
}

#[test]
fn the_last_modification_is_the_latest_blob() {
    assert_eq!(container_last_modified(&vec![]), 0);
    assert_eq!(container_last_modified(&vec![5, 90, 30]), 90);
}

#[test]
fn the_display_name_file_is_never_a_blob_and_prefixes_filter() {
    assert!(!is_listed_blob(".xgamesave_display_name", None));
    assert!(is_listed_blob("alpha.bin", None));
    assert!(is_listed_blob("alpha2.bin", Some("alpha")));
    assert!(!is_listed_blob("beta.bin", Some("alpha")));
    assert!(is_listed_container("save1", Some("")));
    assert!(!is_listed_container("sa", Some("save")));
}

#[test]
fn a_path_payload_holds_a_path_short_of_its_capacity() {
    let payload = PathPayload::new("C:/saves/1").unwrap();
    assert_eq!(payload.len, 10);
    assert_eq!(payload.folder_result(10), Err(E_NOT_SUFFICIENT_BUFFER));
    assert_eq!(payload.folder_result(11), Ok(b"C:/saves/1\0".to_vec()));
    let long = "x".repeat(260);
    assert!(matches!(PathPayload::new(&long), Err(e) if e == E_NOT_SUFFICIENT_BUFFER));
    assert!(PathPayload::new(&"x".repeat(259)).is_ok());
}

#[test]
fn reads_are_checked_in_order() {
    assert_eq!(read_blob_data_check(false, false, false, 0, 0, false), Err(E_POINTER));
    assert_eq!(read_blob_data_check(true, false, true, 1, 1, true), Err(E_INVALIDARG));
    assert_eq!(read_blob_data_check(true, true, true, 0, 1, true), Err(E_INVALIDARG));
    assert_eq!(read_blob_data_check(true, true, true, 2, 1, true), Err(E_NOT_SUFFICIENT_BUFFER));
    assert_eq!(read_blob_data_check(true, true, true, 2, 2, true), Ok(2));
    let names = vec![Some("a".to_string()), None];
    assert_eq!(read_blob_names_check(true, &names, 2, true), Err(E_INVALIDARG));
    assert_eq!(read_blob_names_check(true, &names, 1, true), Err(E_NOT_SUFFICIENT_BUFFER));
    let good = vec![Some("a".to_string())];
    assert_eq!(read_blob_names_check(true, &good, 1, true), Ok(1));
    assert_eq!(read_blob_names_check(false, &good, 1, true), Err(E_INVALIDARG));
}

#[test]
fn updates_buffer_against_live_containers_only() {
    let mut saves = XGameSaveObject::new();
    let container = saves.containers.create("containers/c1".to_string());
    assert_eq!(saves.create_update(container, None, false), Err(E_POINTER));
    assert_eq!(saves.create_update(999, None, true), Err(E_INVALIDARG));
    let update = saves
        .create_update(container, Some("Display".to_string()), true)
        .unwrap();
    assert_eq!(saves.submit_blob_write(update, None, Some(vec![])), E_INVALIDARG);
    assert_eq!(saves.submit_blob_write(update, Some("a".to_string()), None), E_POINTER);
    assert_eq!(saves.submit_blob_write(update, Some("a".to_string()), Some(vec![1])), S_OK);
    assert_eq!(saves.submit_blob_delete(update, Some("a".to_string())), S_OK);
    assert_eq!(saves.submit_blob_delete(update + 1, Some("a".to_string())), E_INVALIDARG);
    assert_eq!(saves.container_root(container), Ok("containers/c1".to_string()));
    assert_eq!(saves.provider_root(0), Err(E_INVALIDARG));
}

#[test]
fn a_blob_read_stops_at_the_first_failure() {
    assert_eq!(blob_read_failure(BlobRead::Read), None);
    assert_eq!(blob_read_failure(BlobRead::NoName), Some(E_INVALIDARG));
    assert_eq!(blob_read_failure(BlobRead::Unreadable), Some(E_FAIL));
    let reads = [BlobRead::Read, BlobRead::Unreadable, BlobRead::NoName];
    let first = reads.iter().find_map(|read| blob_read_failure(*read));
    assert_eq!(first, Some(E_FAIL));
}

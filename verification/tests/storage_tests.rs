use xgameruntime::hresult::{E_INVALIDARG, E_NOT_SUFFICIENT_BUFFER, E_POINTER};
use xgameruntime::storage::{
    copy_path, user_locale, user_locale_copy, MountTarget, XPackageObject,
    XPersistentLocalStorage, XPersistentLocalStorageSpaceInfo,
};

#[test]
fn a_path_is_copied_as_far_as_it_fits_and_always_terminated() {
    let copy = copy_path(b"C:/tmp", 4);
    assert_eq!(copy.written, b"C:/\0".to_vec());
    assert_eq!(copy.used, 4);
    let whole = copy_path(b"C:/tmp", 100);
    assert_eq!(whole.written, b"C:/tmp\0".to_vec());
    assert_eq!(whole.used, 7);
    let none = copy_path(b"C:/tmp", 0);
    assert!(none.written.is_empty());
    assert_eq!(none.used, 1);
}

#[test]
fn the_storage_reports_its_path_and_space() {
    let storage = XPersistentLocalStorage { tmp_path: "/tmp".to_string() };
    assert_eq!(storage.path_size(), 5);
    assert_eq!(storage.path(5).written, b"/tmp\0".to_vec());
    assert_eq!(
        storage.space_info(None),
        XPersistentLocalStorageSpaceInfo {
            available_free_bytes: 2147483648 - 536870912,
            total_free_bytes: 2147483648,
            used_bytes: 536870912,
            total_bytes: 1073741824,
        }
    );
    assert_eq!(storage.space_info(Some((100, 10))).available_free_bytes, 0);
}

#[test]
fn packages_mount_only_the_title_or_its_related_products() {
    let storage = XPersistentLocalStorage { tmp_path: "/tmp".to_string() };
    assert_eq!(storage.mount_target(false, true, true, true, None, false), Err(E_POINTER));
    assert_eq!(storage.mount_target(true, true, false, true, None, false), Err(E_INVALIDARG));
    assert_eq!(storage.mount_target(true, true, true, true, None, false), Ok(MountTarget::Own));
    assert_eq!(storage.mount_target(true, true, true, false, None, true), Err(E_INVALIDARG));
    assert_eq!(
        storage.mount_target(true, true, true, false, Some("9NB".to_string()), false),
        Err(E_INVALIDARG)
    );
    assert_eq!(
        storage.mount_target(true, true, true, false, Some("9NB".to_string()), true),
        Ok(MountTarget::Related("9NB".to_string()))
    );
}

#[test]
fn a_mount_resolves_until_it_is_closed() {
    let mut package = XPackageObject::new();
    assert!(package.can_mount());
    let mount = package.mount("/tmp/related/9NB".to_string());
    assert_eq!(package.mount_path_size(mount, true), Ok(17));
    assert_eq!(package.mount_path_size(mount, false), Err(E_POINTER));
    assert_eq!(package.mount_path(mount, 5, true), Ok(b"/tmp\0".to_vec()));
    package.close_mount(mount);
    assert_eq!(package.mount_path_size(mount, true), Err(E_INVALIDARG));
    assert_eq!(package.mount_path(0, 5, true), Err(E_INVALIDARG));
}

#[test]
fn the_locale_comes_from_the_first_set_variable() {
    assert_eq!(user_locale(Some("de_DE.UTF-8"), Some("fr_FR"), None), "de-DE");
    assert_eq!(user_locale(None, None, Some("pt_BR@euro")), "pt-BR");
    assert_eq!(user_locale(None, None, None), "en-US");
    assert_eq!(user_locale(Some("C"), Some("fr_FR"), None), "en-US");
    assert_eq!(user_locale(None, Some("POSIX.UTF-8"), None), "en-US");
    assert_eq!(user_locale(Some(""), Some("fr_FR"), None), "en-US");
}

#[test]
fn the_locale_copy_needs_a_buffer_with_room() {
    let tag = "en-US".to_string();
    assert_eq!(user_locale_copy(&tag, 6, false), Err(E_POINTER));
    assert_eq!(user_locale_copy(&tag, 5, true), Err(E_NOT_SUFFICIENT_BUFFER));
    assert_eq!(user_locale_copy(&tag, 6, true), Ok(b"en-US\0".to_vec()));
}

use xgameruntime::hresult::{
    E_ILLEGAL_METHOD_CALL, E_INVALIDARG, E_NOT_SUFFICIENT_BUFFER, E_POINTER, S_OK,
};
use xgameruntime::store::{
    build_full_game_license, c_string_of, catalog_product, entitled_product, enumerate_status,
    format_price_field, license_from_service, price_text, product_kind_flag, register_status,
    LicenseChangeTokens, OpaqueResults, ProductEnumeration, build_entitled_query,
    build_product_query, CatalogEntry, ProductQuery, XStoreGameLicense, XStoreObject,
    XSTORE_PRODUCT_KIND_CONSUMABLE, XSTORE_PRODUCT_KIND_DURABLE, XSTORE_PRODUCT_KIND_GAME,
    XSTORE_PRODUCT_KIND_NONE, XSTORE_PRODUCT_KIND_PASS, XSTORE_PRODUCT_KIND_UNMANAGED_CONSUMABLE,
};

/// The store's rendering of a float amount: two decimals, then the field.
fn format_price(amount: f32, currency_code: &str) -> [u8; 16] {
    format_price_field(&format!("{amount:.2}"), currency_code)
}

fn rendered(price: [u8; 16]) -> String {
    let end = price.iter().position(|b| *b == 0).unwrap_or(16);
    String::from_utf8_lossy(&price[..end]).into_owned()
}

#[test]
fn every_catalog_product_kind_maps_onto_its_flag() {
    assert_eq!(product_kind_flag("Durable"), XSTORE_PRODUCT_KIND_DURABLE);
    assert_eq!(product_kind_flag("game"), XSTORE_PRODUCT_KIND_GAME);
    assert_eq!(product_kind_flag("Pass"), XSTORE_PRODUCT_KIND_PASS);
    assert_eq!(
        product_kind_flag("Consumable"),
        XSTORE_PRODUCT_KIND_CONSUMABLE
    );
    assert_eq!(
        product_kind_flag("UnmanagedConsumable"),
        XSTORE_PRODUCT_KIND_UNMANAGED_CONSUMABLE
    );
    assert_eq!(product_kind_flag("Application"), XSTORE_PRODUCT_KIND_NONE);
    assert_eq!(product_kind_flag(""), XSTORE_PRODUCT_KIND_NONE);
}

#[test]
fn usd_gets_its_symbol_and_everything_else_gets_its_code() {
    assert_eq!(rendered(format_price(7.99, "USD")), "$7.99");
    assert_eq!(rendered(format_price(7.99, "EUR")), "7.99 EUR");
    assert_eq!(rendered(format_price(46.0, "JPY")), "46.00 JPY");
}

#[test]
fn no_currency_renders_nothing_rather_than_zero() {
    assert_eq!(rendered(format_price(0.0, "")), "");
}

#[test]
fn an_overlong_amount_is_truncated_and_still_terminated() {
    let price = format_price(100_000_000.0, "EUR");
    assert_eq!(price[15], 0);
    assert_eq!(rendered(price), "100000000.00 EU");
}

#[test]
fn kinds_match_ignoring_ascii_case_only() {
    assert_eq!(product_kind_flag("DURABLE"), XSTORE_PRODUCT_KIND_DURABLE);
    assert_eq!(product_kind_flag("pAsS"), XSTORE_PRODUCT_KIND_PASS);
    assert_eq!(product_kind_flag("Durable "), XSTORE_PRODUCT_KIND_NONE);
}

#[test]
fn price_text_places_symbol_or_code() {
    assert_eq!(price_text("1.00", "USD"), "$1.00");
    assert_eq!(price_text("1.00", "usd"), "1.00 usd");
    assert_eq!(price_text("1.00", ""), "");
}

#[test]
fn a_default_license_is_inactive_and_the_fallback_is_active() {
    let default = XStoreGameLicense::default();
    assert!(!default.is_active);
    assert_eq!(default.expiration_date, 0);
    assert!(default.sku_store_id.iter().all(|b| *b == 0));
    let full = build_full_game_license();
    assert!(full.is_active);
    assert!(!full.is_trial);
    assert_eq!(full.trial_time_remaining_in_seconds, 0);
}

#[test]
fn the_service_answer_decides_the_license() {
    let answered = license_from_service(Some((false, 1_788_220_800)));
    assert!(!answered.is_active);
    assert_eq!(answered.expiration_date, 1_788_220_800);
    let fallback = license_from_service(None);
    assert!(fallback.is_active);
    assert_eq!(fallback.expiration_date, 0);
}

#[test]
fn a_text_with_a_nul_becomes_an_empty_c_string() {
    assert_eq!(c_string_of("9NBLGGH4R32N"), b"9NBLGGH4R32N".to_vec());
    assert!(c_string_of("bad\0id").is_empty());
}

#[test]
fn entitled_products_are_owned_and_catalog_products_are_not() {
    let owned = entitled_product("9P1", "Title", "Game");
    assert!(owned.is_in_user_collection);
    assert!(owned.has_digital_download);
    assert!(owned.currency_code.is_empty());
    assert_eq!(owned.product_kind, XSTORE_PRODUCT_KIND_GAME);
    let catalog = catalog_product("9P2", "Realms Plus", "Durable", "USD");
    assert!(!catalog.is_in_user_collection);
    assert_eq!(catalog.currency_code, b"USD".to_vec());
    assert_eq!(catalog.title, b"Realms Plus".to_vec());
    assert_eq!(catalog.product_kind, XSTORE_PRODUCT_KIND_DURABLE);
}

#[test]
fn issued_tokens_unregister_and_others_do_not() {
    let mut tokens = LicenseChangeTokens::new();
    let first = tokens.register();
    let second = tokens.register();
    assert_eq!(first, 1);
    assert_eq!(second, 2);
    assert!(tokens.unregister(first));
    assert!(tokens.unregister(second));
    assert!(!tokens.unregister(0));
    assert!(!tokens.unregister(3));
}

#[test]
fn registration_needs_a_context_callback_and_token() {
    assert_eq!(register_status(0, true, true), E_POINTER);
    assert_eq!(register_status(1, false, true), E_POINTER);
    assert_eq!(register_status(1, true, false), E_POINTER);
    assert_eq!(register_status(1, true, true), S_OK);
}

#[test]
fn a_filed_text_reads_back_with_its_terminator() {
    let mut results = OpaqueResults::new();
    assert_eq!(results.result_size(7, true), (E_ILLEGAL_METHOD_CALL, None));
    assert_eq!(results.store(7, Ok("key".to_string())), Ok(()));
    assert_eq!(results.result_size(7, true), (S_OK, Some(4)));
    assert_eq!(results.result_size(7, false), (E_POINTER, None));
    assert_eq!(results.result_copy(7, 3, true), (E_NOT_SUFFICIENT_BUFFER, None));
    assert_eq!(results.result_copy(7, 4, false), (E_POINTER, None));
    assert_eq!(results.result_copy(7, 4, true), (S_OK, Some(b"key\0".to_vec())));
}

#[test]
fn a_filed_error_is_what_both_reads_report() {
    let mut results = OpaqueResults::new();
    let failure = -2147024809;
    assert_eq!(results.store(9, Err(failure)), Err(failure));
    assert_eq!(results.result_size(9, true), (failure, None));
    assert_eq!(results.result_copy(9, 100, true), (failure, None));
}

#[test]
fn enumeration_checks_callback_then_handle() {
    assert_eq!(enumerate_status(false, false), E_POINTER);
    assert_eq!(enumerate_status(true, false), E_INVALIDARG);
    assert_eq!(enumerate_status(true, true), S_OK);
}

#[test]
fn the_store_object_has_one_context_and_one_page() {
    let store = XStoreObject;
    assert_eq!(store.create_context(), 1);
    assert_eq!(store.check_context(0), E_POINTER);
    assert_eq!(store.check_context(1), S_OK);
    assert!(!store.products_query_has_more_pages());
}

#[test]
fn enumeration_offers_entries_in_order_and_stops_at_the_first_false() {
    let mut walk = ProductEnumeration::new(4);
    let mut offered = Vec::new();
    let answers = [true, false, true, true];
    while let Some(index) = walk.next_entry() {
        offered.push(index);
        walk.answer(answers[index]);
    }
    assert_eq!(offered, vec![0, 1]);
    let mut all = ProductEnumeration::new(3);
    let mut count = 0;
    while let Some(index) = all.next_entry() {
        assert_eq!(index, count);
        count += 1;
        all.answer(true);
    }
    assert_eq!(count, 3);
    assert_eq!(ProductEnumeration::new(0).next_entry(), None);
}

#[test]
fn a_product_kind_flag_ignores_ascii_case() {
    for kind in ["Consumable", "Durable", "Game", "Pass", "UnmanagedConsumable", "Bundle", ""] {
        let flag = product_kind_flag(kind);
        assert_eq!(flag, product_kind_flag(&kind.to_ascii_uppercase()));
        assert_eq!(flag, product_kind_flag(&kind.to_ascii_lowercase()));
    }
    assert_eq!(product_kind_flag("uNmAnAgEdCoNsUmAbLe"), 0x10);
}

fn entry(store_id: &str, title: &str, kind: &str, currency: &str) -> CatalogEntry {
    CatalogEntry {
        store_id: store_id.to_string(),
        title: title.to_string(),
        product_kind: kind.to_string(),
        currency_code: currency.to_string(),
    }
}

#[test]
fn a_catalog_answer_becomes_a_query_of_its_products_in_order() {
    let mut queries: xgameruntime::handle_table::HandleTable<ProductQuery> =
        xgameruntime::handle_table::HandleTable::new();
    let products = vec![
        entry("9NBLGGH4R315", "Realms Plus", "durable", "USD"),
        entry("9P2CF7ZFJ2RF", "Minecoins", "UnmanagedConsumable", "EUR"),
    ];
    let handle = build_product_query(&products, &mut queries);
    assert_eq!(handle, 1);
    let query = queries.get(handle).unwrap();
    assert_eq!(query.entries.len(), 2);
    assert_eq!(query.entries[0].store_id, b"9NBLGGH4R315".to_vec());
    assert_eq!(query.entries[0].title, b"Realms Plus".to_vec());
    assert_eq!(query.entries[0].currency_code, b"USD".to_vec());
    assert_eq!(query.entries[0].product_kind, XSTORE_PRODUCT_KIND_DURABLE);
    assert!(query.entries[0].has_digital_download);
    assert!(!query.entries[0].is_in_user_collection);
    assert_eq!(query.entries[1].product_kind, 0x10);
    let second = build_product_query(&Vec::new(), &mut queries);
    assert_eq!(second, 2);
    assert!(queries.get(second).unwrap().entries.is_empty());
}

#[test]
fn an_entitled_answer_becomes_a_query_of_owned_products() {
    let mut queries: xgameruntime::handle_table::HandleTable<ProductQuery> =
        xgameruntime::handle_table::HandleTable::new();
    let handle = build_entitled_query(&vec![entry("9NBLGGH2JHXJ", "Minecraft", "Game", "USD")], &mut queries);
    let query = queries.get(handle).unwrap();
    assert_eq!(query.entries.len(), 1);
    assert!(query.entries[0].currency_code.is_empty());
    assert!(query.entries[0].is_in_user_collection);
    assert_eq!(query.entries[0].product_kind, XSTORE_PRODUCT_KIND_GAME);
}

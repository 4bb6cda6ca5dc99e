//! `XStore`: the game license a title is told it holds, the product records a products query
//! enumerates, the store's rendering of a price, the license-change registration tokens, and
//! the opaque strings (collections id, purchase id, license token) a title reads back in two
//! calls, size first.
use vstd::prelude::*;
use std::collections::HashMap;
use crate::handle_table::HandleTable;
use crate::hresult::{E_ILLEGAL_METHOD_CALL, E_INVALIDARG, E_NOT_SUFFICIENT_BUFFER, E_POINTER, S_OK};
use crate::text::{ascii_lower, chars_eq_ignore_ascii_case, chars_of, eq_ignore_ascii_case, write_fixed_cstr};

verus! {

broadcast use vstd::std_specs::hash::group_hash_axioms;

pub const XSTORE_PRODUCT_KIND_NONE: u32 = 0x00;
pub const XSTORE_PRODUCT_KIND_CONSUMABLE: u32 = 0x01;
pub const XSTORE_PRODUCT_KIND_DURABLE: u32 = 0x02;
pub const XSTORE_PRODUCT_KIND_GAME: u32 = 0x04;
pub const XSTORE_PRODUCT_KIND_PASS: u32 = 0x08;
pub const XSTORE_PRODUCT_KIND_UNMANAGED_CONSUMABLE: u32 = 0x10;

/// The `XStoreProductKind` flag a catalog's product kind names, matched ignoring ASCII case;
/// an unrecognized kind is none.
pub open spec fn kind_flag(kind: Seq<char>) -> u32 {
    if eq_ignore_ascii_case(kind, "Consumable"@) {
        XSTORE_PRODUCT_KIND_CONSUMABLE
    } else if eq_ignore_ascii_case(kind, "Durable"@) {
        XSTORE_PRODUCT_KIND_DURABLE
    } else if eq_ignore_ascii_case(kind, "Game"@) {
        XSTORE_PRODUCT_KIND_GAME
    } else if eq_ignore_ascii_case(kind, "Pass"@) {
        XSTORE_PRODUCT_KIND_PASS
    } else if eq_ignore_ascii_case(kind, "UnmanagedConsumable"@) {
        XSTORE_PRODUCT_KIND_UNMANAGED_CONSUMABLE
    } else {
        XSTORE_PRODUCT_KIND_NONE
    }
}

/// Two texts equal ignoring ASCII case match the same names ignoring ASCII case.
proof fn lemma_same_ascii_case_class(a: Seq<char>, b: Seq<char>, name: Seq<char>)
    requires
        eq_ignore_ascii_case(a, b),
    ensures
        eq_ignore_ascii_case(a, name) == eq_ignore_ascii_case(b, name),
{
    if eq_ignore_ascii_case(a, name) {
        assert forall|i: int| 0 <= i < b.len() implies ascii_lower(#[trigger] b[i]) == ascii_lower(
            name[i],
        ) by {
            assert(ascii_lower(a[i]) == ascii_lower(b[i]));
        }
    }
    if eq_ignore_ascii_case(b, name) {
        assert forall|i: int| 0 <= i < a.len() implies ascii_lower(#[trigger] a[i]) == ascii_lower(
            name[i],
        ) by {
            assert(ascii_lower(a[i]) == ascii_lower(b[i]));
        }
    }
}

/// A product kind's flag ignores ASCII case: two kinds equal ignoring ASCII case (such as a
/// kind and its upper- or lowercased form) get the same flag, and every flag is `0` or one
/// of the five `XStoreProductKind` bits.
pub proof fn lemma_kind_flag_ignores_ascii_case(a: Seq<char>, b: Seq<char>)
    requires
        eq_ignore_ascii_case(a, b),
    ensures
        kind_flag(a) == kind_flag(b),
        kind_flag(a) == XSTORE_PRODUCT_KIND_NONE || kind_flag(a) == XSTORE_PRODUCT_KIND_CONSUMABLE
            || kind_flag(a) == XSTORE_PRODUCT_KIND_DURABLE || kind_flag(a) == XSTORE_PRODUCT_KIND_GAME
            || kind_flag(a) == XSTORE_PRODUCT_KIND_PASS || kind_flag(a)
            == XSTORE_PRODUCT_KIND_UNMANAGED_CONSUMABLE,
{
    lemma_same_ascii_case_class(a, b, "Consumable"@);
    lemma_same_ascii_case_class(a, b, "Durable"@);
    lemma_same_ascii_case_class(a, b, "Game"@);
    lemma_same_ascii_case_class(a, b, "Pass"@);
    lemma_same_ascii_case_class(a, b, "UnmanagedConsumable"@);
}

fn kind_is(kind: &Vec<char>, name: &str) -> (same: bool)
    ensures
        same == eq_ignore_ascii_case(kind@, name@),
{
    let name = chars_of(name);
    chars_eq_ignore_ascii_case(kind, name.as_slice())
}

/// Maps a catalog product kind onto its `XStoreProductKind` flag.
pub fn product_kind_flag(kind: &str) -> (flag: u32)
    ensures
        flag == kind_flag(kind@),
{
    let kind = chars_of(kind);
    if kind_is(&kind, "Consumable") {
        XSTORE_PRODUCT_KIND_CONSUMABLE
    } else if kind_is(&kind, "Durable") {
        XSTORE_PRODUCT_KIND_DURABLE
    } else if kind_is(&kind, "Game") {
        XSTORE_PRODUCT_KIND_GAME
    } else if kind_is(&kind, "Pass") {
        XSTORE_PRODUCT_KIND_PASS
    } else if kind_is(&kind, "UnmanagedConsumable") {
        XSTORE_PRODUCT_KIND_UNMANAGED_CONSUMABLE
    } else {
        XSTORE_PRODUCT_KIND_NONE
    }
}

/// `XStoreGameLicense`, with its two id fields as byte buffers.
pub struct XStoreGameLicense {
    pub sku_store_id: [u8; 18],
    pub is_active: bool,
    pub is_trial_owned_by_this_user: bool,
    pub is_disc_license: bool,
    pub is_trial: bool,
    pub trial_time_remaining_in_seconds: u32,
    pub trial_unique_id: [u8; 64],
    pub expiration_date: i64,
}

/// Whether every byte of `bytes` is zero.
pub open spec fn all_zero(bytes: Seq<u8>) -> bool {
    forall|i: int| 0 <= i < bytes.len() ==> #[trigger] bytes[i] == 0u8
}

/// A license with no id, no trial, and the given activity and expiration.
pub open spec fn plain_license(license: XStoreGameLicense, is_active: bool, expiration_date: i64) -> bool {
    &&& all_zero(license.sku_store_id@)
    &&& license.is_active == is_active
    &&& !license.is_trial_owned_by_this_user
    &&& !license.is_disc_license
    &&& !license.is_trial
    &&& license.trial_time_remaining_in_seconds == 0
    &&& all_zero(license.trial_unique_id@)
    &&& license.expiration_date == expiration_date
}

impl Default for XStoreGameLicense {
    /// An all-zero license: inactive, no ids, no trial.
    fn default() -> (license: Self)
        ensures
            plain_license(license, false, 0),
    {
        let license = XStoreGameLicense {
            sku_store_id: [0u8; 18],
            is_active: false,
            is_trial_owned_by_this_user: false,
            is_disc_license: false,
            is_trial: false,
            trial_time_remaining_in_seconds: 0,
            trial_unique_id: [0u8; 64],
            expiration_date: 0,
        };
        license
    }
}

/// A permanent, non-trial, active license: what a title is told when there is no answer to
/// give, since a zeroed license would read as "not entitled".
pub fn build_full_game_license() -> (license: XStoreGameLicense)
    ensures
        plain_license(license, true, 0),
{
    XStoreGameLicense { is_active: true, ..XStoreGameLicense::default() }
}

/// The license a title is told it holds, given the license service's answer: the service's
/// activity and expiration where it answered, else the full license.
pub fn license_from_service(answer: Option<(bool, i64)>) -> (license: XStoreGameLicense)
    ensures
        match answer {
            Some((is_active, expiration_date)) => plain_license(license, is_active, expiration_date),
            None => plain_license(license, true, 0),
        },
{
    match answer {
        Some((is_active, expiration_date)) => XStoreGameLicense {
            is_active,
            expiration_date,
            ..XStoreGameLicense::default()
        },
        None => build_full_game_license(),
    }
}

/// What a store page shows for an amount already rendered with two decimals, in the currency
/// `code`: nothing without a currency, `$` before a US dollar amount, and the code after any
/// other.
pub open spec fn price_chars(amount: Seq<char>, code: Seq<char>) -> Seq<char> {
    if code.len() == 0 {
        Seq::empty()
    } else if code == "USD"@ {
        seq!['$'] + amount
    } else {
        amount + seq![' '] + code
    }
}

/// Only US dollars get a dollar sign: an empty currency code renders nothing, the code `USD`
/// renders `$` then the amount, and every other code (the other dollar currencies among them)
/// renders the amount, one space, then the code.
pub proof fn lemma_only_us_dollars_get_a_dollar_sign(amount: Seq<char>, code: Seq<char>)
    ensures
        code.len() == 0 ==> price_chars(amount, code) == Seq::<char>::empty(),
        code == seq!['U', 'S', 'D'] ==> price_chars(amount, code) == seq!['$'] + amount,
        code.len() > 0 && code != seq!['U', 'S', 'D'] ==> price_chars(amount, code) == amount + seq![' ']
            + code,
{
    reveal_strlit("USD");
    assert("USD"@ =~= seq!['U', 'S', 'D']);
}

/// Renders a price as a store page shows it.
pub fn price_text(amount: &str, code: &str) -> (text: String)
    ensures
        text@ == price_chars(amount@, code@),
{
    let mut text = String::new();
    if code.is_empty() {
        return text;
    }
    proof {
        reveal_strlit("$");
        reveal_strlit(" ");
    }
    if String::from_str(code) == String::from_str("USD") {
        text.append("$");
        text.append(amount);
    } else {
        text.append(amount);
        text.append(" ");
        text.append(code);
    }
    text
}

/// A `formatted*` price field: the first 15 bytes of the text, then zeros.
pub open spec fn price_field(text: Seq<u8>) -> Seq<u8> {
    Seq::new(
        16,
        |i: int|
            if i < 15 && i < text.len() {
                text[i]
            } else {
                0u8
            },
    )
}

/// Fills a 16-byte `formatted*` field with a rendered price, truncated so it always ends in a
/// terminator.
pub fn format_price_field(amount: &str, code: &str) -> (field: [u8; 16])
    ensures
        field@ == price_field(vstd::utf8::encode_utf8(price_chars(amount@, code@))),
{
    let text = price_text(amount, code);
    let bytes = text.as_str().as_bytes();
    let mut field = [0u8; 16];
    write_fixed_cstr(&mut field, bytes);
    proof {
        let len = if bytes@.len() < 15 {
            bytes@.len() as int
        } else {
            15
        };
        assert forall|i: int| 0 <= i < 16 implies field@[i] == price_field(bytes@)[i] by {
            if i < len {
                assert(field@.subrange(0, len)[i] == bytes@.subrange(0, len)[i]);
            } else if i > len {
                assert(field@.subrange(len + 1, 16)[i - len - 1] == 0u8);
            }
        }
        assert(field@ =~= price_field(bytes@));
    }
    field
}

/// What `CString::new(text).unwrap_or_default()` keeps of a text's bytes: all of them, or
/// none when one of them is a NUL.
pub open spec fn c_string_bytes(bytes: Seq<u8>) -> Seq<u8> {
    if bytes.contains(0u8) {
        Seq::empty()
    } else {
        bytes
    }
}

/// The bytes a C string field carries for `text`.
pub fn c_string_of(text: &str) -> (bytes: Vec<u8>)
    ensures
        bytes@ == c_string_bytes(vstd::utf8::encode_utf8(text@)),
{
    let raw = text.as_bytes();
    let mut bytes: Vec<u8> = Vec::new();
    let mut i: usize = 0;
    while i < raw.len()
        invariant
            0 <= i <= raw@.len(),
            raw@ == vstd::utf8::encode_utf8(text@),
            bytes@ == raw@.take(i as int),
            !raw@.take(i as int).contains(0u8),
        decreases raw@.len() - i,
    {
        if raw[i] == 0 {
            proof {
                assert(raw@[i as int] == 0u8);
                assert(raw@.contains(0u8));
            }
            return Vec::new();
        }
        bytes.push(raw[i]);
        proof {
            assert(raw@.take(i + 1) =~= raw@.take(i as int).push(raw@[i as int]));
        }
        i = i + 1;
    }
    proof {
        assert(raw@.take(raw@.len() as int) =~= raw@);
    }
    bytes
}

/// The plain fields of one product a products query enumerates. The prices, which are
/// floating point, travel beside it.
#[derive(Clone)]
pub struct ProductRecord {
    pub store_id: Vec<u8>,
    pub title: Vec<u8>,
    pub currency_code: Vec<u8>,
    pub product_kind: u32,
    pub has_digital_download: bool,
    pub is_in_user_collection: bool,
}

/// An entitled product ("My games"): owned, downloadable, with no price and so an empty
/// currency code.
pub fn entitled_product(store_id: &str, title: &str, product_kind: &str) -> (record: ProductRecord)
    ensures
        record.store_id@ == c_string_bytes(vstd::utf8::encode_utf8(store_id@)),
        record.title@ == c_string_bytes(vstd::utf8::encode_utf8(title@)),
        record.currency_code@.len() == 0,
        record.product_kind == kind_flag(product_kind@),
        record.has_digital_download,
        record.is_in_user_collection,
{
    ProductRecord {
        store_id: c_string_of(store_id),
        title: c_string_of(title),
        currency_code: Vec::new(),
        product_kind: product_kind_flag(product_kind),
        has_digital_download: true,
        is_in_user_collection: true,
    }
}

/// A catalog product (associated products, or products asked for by id): downloadable, but
/// not known to be owned.
pub fn catalog_product(store_id: &str, title: &str, product_kind: &str, currency_code: &str) -> (record:
    ProductRecord)
    ensures
        record.store_id@ == c_string_bytes(vstd::utf8::encode_utf8(store_id@)),
        record.title@ == c_string_bytes(vstd::utf8::encode_utf8(title@)),
        record.currency_code@ == c_string_bytes(vstd::utf8::encode_utf8(currency_code@)),
        record.product_kind == kind_flag(product_kind@),
        record.has_digital_download,
        !record.is_in_user_collection,
{
    ProductRecord {
        store_id: c_string_of(store_id),
        title: c_string_of(title),
        currency_code: c_string_of(currency_code),
        product_kind: product_kind_flag(product_kind),
        has_digital_download: true,
        is_in_user_collection: false,
    }
}

/// One product as the store service describes it: a catalog entry (associated products, or
/// products asked for by id) or an entitled product, whose currency code is unused. The
/// prices, which are floating point, travel beside it.
pub struct CatalogEntry {
    pub store_id: String,
    pub title: String,
    pub product_kind: String,
    pub currency_code: String,
}

/// The record a products query holds for a catalog entry.
pub open spec fn is_catalog_record(record: ProductRecord, entry: CatalogEntry) -> bool {
    &&& record.store_id@ == c_string_bytes(vstd::utf8::encode_utf8(entry.store_id@))
    &&& record.title@ == c_string_bytes(vstd::utf8::encode_utf8(entry.title@))
    &&& record.currency_code@ == c_string_bytes(vstd::utf8::encode_utf8(entry.currency_code@))
    &&& record.product_kind == kind_flag(entry.product_kind@)
    &&& record.has_digital_download
    &&& !record.is_in_user_collection
}

/// The record a products query holds for an entitled product.
pub open spec fn is_entitled_record(record: ProductRecord, entry: CatalogEntry) -> bool {
    &&& record.store_id@ == c_string_bytes(vstd::utf8::encode_utf8(entry.store_id@))
    &&& record.title@ == c_string_bytes(vstd::utf8::encode_utf8(entry.title@))
    &&& record.currency_code@.len() == 0
    &&& record.product_kind == kind_flag(entry.product_kind@)
    &&& record.has_digital_download
    &&& record.is_in_user_collection
}

/// A products query: the records `XStoreEnumerateProductsQuery` offers, in the order the
/// store service listed the products.
#[derive(Clone)]
pub struct ProductQuery {
    pub entries: Vec<ProductRecord>,
}

/// Turns the store service's catalog answer (associated products, or products asked for by
/// id) into a products query under a fresh handle: one catalog record per product, in order.
pub fn build_product_query(products: &Vec<CatalogEntry>, queries: &mut HandleTable<ProductQuery>) -> (handle: u64)
    requires
        old(queries).wf(),
        old(queries).next_id() < u64::MAX,
    ensures
        final(queries).wf(),
        handle == old(queries).next_id(),
        handle != 0,
        !old(queries)@.contains_key(handle),
        final(queries).next_id() == old(queries).next_id() + 1,
        final(queries)@.contains_key(handle),
        final(queries)@.remove(handle) == old(queries)@,
        final(queries)@[handle].entries@.len() == products@.len(),
        forall|i: int|
            0 <= i < products@.len() ==> is_catalog_record(
                #[trigger] final(queries)@[handle].entries@[i],
                products@[i],
            ),
{
    let mut entries: Vec<ProductRecord> = Vec::new();
    let mut i: usize = 0;
    while i < products.len()
        invariant
            0 <= i <= products@.len(),
            entries@.len() == i,
            forall|j: int| 0 <= j < i ==> is_catalog_record(#[trigger] entries@[j], products@[j]),
        decreases products@.len() - i,
    {
        let product = &products[i];
        let record = catalog_product(
            product.store_id.as_str(),
            product.title.as_str(),
            product.product_kind.as_str(),
            product.currency_code.as_str(),
        );
        entries.push(record);
        i = i + 1;
    }
    let handle = queries.create(ProductQuery { entries });
    proof {
        assert(queries@.remove(handle) =~= old(queries)@);
    }
    handle
}

/// Turns the store service's "My games" answer into a products query under a fresh handle:
/// one entitled record per product, in order.
pub fn build_entitled_query(products: &Vec<CatalogEntry>, queries: &mut HandleTable<ProductQuery>) -> (handle: u64)
    requires
        old(queries).wf(),
        old(queries).next_id() < u64::MAX,
    ensures
        final(queries).wf(),
        handle == old(queries).next_id(),
        handle != 0,
        !old(queries)@.contains_key(handle),
        final(queries).next_id() == old(queries).next_id() + 1,
        final(queries)@.contains_key(handle),
        final(queries)@.remove(handle) == old(queries)@,
        final(queries)@[handle].entries@.len() == products@.len(),
        forall|i: int|
            0 <= i < products@.len() ==> is_entitled_record(
                #[trigger] final(queries)@[handle].entries@[i],
                products@[i],
            ),
{
    let mut entries: Vec<ProductRecord> = Vec::new();
    let mut i: usize = 0;
    while i < products.len()
        invariant
            0 <= i <= products@.len(),
            entries@.len() == i,
            forall|j: int| 0 <= j < i ==> is_entitled_record(#[trigger] entries@[j], products@[j]),
        decreases products@.len() - i,
    {
        let product = &products[i];
        let record = entitled_product(
            product.store_id.as_str(),
            product.title.as_str(),
            product.product_kind.as_str(),
        );
        entries.push(record);
        i = i + 1;
    }
    let handle = queries.create(ProductQuery { entries });
    proof {
        assert(queries@.remove(handle) =~= old(queries)@);
    }
    handle
}

/// The source of `XStoreRegisterGameLicenseChanged` tokens. Tokens start at 1, so `0` is
/// never one this runtime issued, and the counter wraps as an atomic `fetch_add` does.
pub struct LicenseChangeTokens {
    next: u64,
}

impl LicenseChangeTokens {
    /// The token the next registration gets.
    pub closed spec fn next_token(&self) -> u64 {
        self.next
    }

    /// A fresh source, whose first token is `1`.
    pub fn new() -> (tokens: Self)
        ensures
            tokens.next_token() == 1,
    {
        LicenseChangeTokens { next: 1 }
    }

    /// Hands out the next token.
    pub fn register(&mut self) -> (token: u64)
        ensures
            token == old(self).next_token(),
            final(self).next_token() == old(self).next_token().wrapping_add(1),
    {
        let token = self.next;
        self.next = self.next.wrapping_add(1);
        token
    }

    /// `XStoreUnregisterGameLicenseChanged`: succeeds for any token this source handed out,
    /// refuses `0` and tokens not issued yet.
    pub fn unregister(&self, token: u64) -> (removed: bool)
        ensures
            removed == (token != 0 && token < self.next_token()),
    {
        token != 0 && token < self.next
    }
}

/// A token handed out unregisters successfully, as long as the counter has not wrapped: a
/// registration at counter `next` hands out `next`, leaves the counter at `next + 1`, and
/// `unregister` then accepts the token.
pub proof fn lemma_issued_token_unregisters(next: u64)
    requires
        1 <= next < u64::MAX,
    ensures
        ({
            let token = next;
            let after = next.wrapping_add(1);
            token != 0 && token < after
        }),
{
}

/// `XStoreRegisterGameLicenseChanged`'s argument check: a zero context, or a missing
/// callback or token out-pointer, is `E_POINTER`.
pub fn register_status(context: u64, has_callback: bool, has_token: bool) -> (hr: i32)
    ensures
        hr == if context == 0 || !has_callback || !has_token {
            E_POINTER
        } else {
            S_OK
        },
{
    if context == 0 || !has_callback || !has_token {
        E_POINTER
    } else {
        S_OK
    }
}

/// The opaque strings filed by the asynchronous half of a two-call result, keyed by the
/// caller's async block, for the `*ResultSize` and `*Result` calls to read back.
pub struct OpaqueResults {
    results: HashMap<u64, Result<String, i32>>,
}

/// The text of a filed result.
pub open spec fn filed_text(result: Result<String, i32>) -> Result<Seq<char>, i32> {
    match result {
        Ok(text) => Ok(text@),
        Err(hr) => Err(hr),
    }
}

impl View for OpaqueResults {
    type V = Map<u64, Result<Seq<char>, i32>>;

    /// What is filed under each key.
    closed spec fn view(&self) -> Map<u64, Result<Seq<char>, i32>> {
        self.results@.map_values(|r: Result<String, i32>| filed_text(r))
    }
}

/// `*ResultSize`: the terminated byte length of the text filed under the key, its error, or
/// `E_ILLEGAL_METHOD_CALL` when nothing is filed; `E_POINTER` when there is nowhere to write.
pub open spec fn result_size_for(filed: Option<Result<Seq<char>, i32>>, has_size: bool) -> (i32, Option<nat>) {
    if !has_size {
        (E_POINTER, None)
    } else {
        match filed {
            Some(Ok(text)) => (S_OK, Some(vstd::utf8::encode_utf8(text).len() + 1)),
            Some(Err(hr)) => (hr, None),
            None => (E_ILLEGAL_METHOD_CALL, None),
        }
    }
}

/// `*Result`: the text filed under the key as terminated bytes, when the buffer holds them;
/// `E_NOT_SUFFICIENT_BUFFER` when it does not, `E_POINTER` when there is no buffer, the filed
/// error, or `E_ILLEGAL_METHOD_CALL` when nothing is filed.
pub open spec fn result_copy_for(filed: Option<Result<Seq<char>, i32>>, size: usize, has_buffer: bool) -> (i32, Option<Seq<u8>>) {
    match filed {
        Some(Ok(text)) => {
            let bytes = vstd::utf8::encode_utf8(text);
            if bytes.len() + 1 > size {
                (E_NOT_SUFFICIENT_BUFFER, None)
            } else if !has_buffer {
                (E_POINTER, None)
            } else {
                (S_OK, Some(bytes.push(0u8)))
            }
        },
        Some(Err(hr)) => (hr, None),
        None => (E_ILLEGAL_METHOD_CALL, None),
    }
}

/// What is filed under `key` in `filed`.
pub open spec fn filed_under(filed: Map<u64, Result<Seq<char>, i32>>, key: u64) -> Option<Result<Seq<char>, i32>> {
    if filed.contains_key(key) {
        Some(filed[key])
    } else {
        None
    }
}

/// Whether a filed result's text fits the size calls' arithmetic: its terminated byte length
/// is a `usize` (which every `String` guarantees, its length being at most `isize::MAX`).
pub open spec fn fits(result: Result<Seq<char>, i32>) -> bool {
    match result {
        Ok(text) => vstd::utf8::encode_utf8(text).len() < usize::MAX,
        Err(_) => true,
    }
}

impl OpaqueResults {
    #[verifier::type_invariant]
    spec fn texts_fit(&self) -> bool {
        forall|key: u64| #[trigger] self.results@.contains_key(key) ==> fits(
            filed_text(self.results@[key]),
        )
    }

    /// Nothing filed.
    pub fn new() -> (results: Self)
        ensures
            results@ == Map::<u64, Result<Seq<char>, i32>>::empty(),
    {
        let results = OpaqueResults { results: HashMap::new() };
        proof {
            assert(results@ =~= Map::<u64, Result<Seq<char>, i32>>::empty());
        }
        results
    }

    /// Files `result` under `key`, replacing what was there, and reports whether it was a
    /// success, which is all the asynchronous call completes with.
    pub fn store(&mut self, key: u64, result: Result<String, i32>) -> (outcome: Result<(), i32>)
        requires
            fits(filed_text(result)),
        ensures
            final(self)@ == old(self)@.insert(key, filed_text(result)),
            outcome == match result {
                Ok(_) => Ok::<(), i32>(()),
                Err(hr) => Err::<(), i32>(hr),
            },
    {
        let outcome = match &result {
            Ok(_) => Ok(()),
            Err(hr) => Err(*hr),
        };
        let ghost filed = filed_text(result);
        proof {
            use_type_invariant(&*self);
        }
        let mut results: HashMap<u64, Result<String, i32>> = HashMap::new();
        std::mem::swap(&mut results, &mut self.results);
        results.insert(key, result);
        self.results = results;
        proof {
            assert(self@ =~= old(self)@.insert(key, filed));
        }
        outcome
    }

    /// `*ResultSize` for the async block `key`.
    pub fn result_size(&self, key: u64, has_size: bool) -> (answer: (i32, Option<usize>))
        ensures
            answer.0 == result_size_for(filed_under(self@, key), has_size).0,
            answer.1 matches Some(n) ==> result_size_for(filed_under(self@, key), has_size).1 == Some(n as nat),
            answer.1 is None ==> result_size_for(filed_under(self@, key), has_size).1 is None,
    {
        if !has_size {
            return (E_POINTER, None);
        }
        match self.results.get(&key) {
            Some(Ok(text)) => {
                proof {
                    use_type_invariant(self);
                    assert(self@[key] == filed_text(self.results@[key]));
                    assert(fits(filed_text(self.results@[key])));
                }
                let len = text.as_str().len();
                (S_OK, Some(len + 1))
            },
            Some(Err(hr)) => {
                proof {
                    assert(self@[key] == filed_text(self.results@[key]));
                }
                (*hr, None)
            },
            None => (E_ILLEGAL_METHOD_CALL, None),
        }
    }

    /// `*Result` for the async block `key`, into a buffer of `size` bytes.
    pub fn result_copy(&self, key: u64, size: usize, has_buffer: bool) -> (answer: (i32, Option<Vec<u8>>))
        ensures
            answer.0 == result_copy_for(filed_under(self@, key), size, has_buffer).0,
            answer.1 matches Some(bytes) ==> result_copy_for(filed_under(self@, key), size, has_buffer).1 == Some(bytes@),
            answer.1 is None ==> result_copy_for(filed_under(self@, key), size, has_buffer).1 is None,
    {
        match self.results.get(&key) {
            Some(Ok(text)) => {
                proof {
                    assert(self@[key] == filed_text(self.results@[key]));
                }
                let raw = text.as_str().as_bytes();
                if raw.len() >= size {
                    return (E_NOT_SUFFICIENT_BUFFER, None);
                }
                if !has_buffer {
                    return (E_POINTER, None);
                }
                let mut bytes: Vec<u8> = Vec::new();
                let mut i: usize = 0;
                while i < raw.len()
                    invariant
                        0 <= i <= raw@.len(),
                        bytes@ == raw@.take(i as int),
                    decreases raw@.len() - i,
                {
                    bytes.push(raw[i]);
                    proof {
                        assert(raw@.take(i + 1) =~= raw@.take(i as int).push(raw@[i as int]));
                    }
                    i = i + 1;
                }
                bytes.push(0u8);
                proof {
                    assert(raw@.take(raw@.len() as int) =~= raw@);
                }
                (S_OK, Some(bytes))
            },
            Some(Err(hr)) => {
                proof {
                    assert(self@[key] == filed_text(self.results@[key]));
                }
                (*hr, None)
            },
            None => (E_ILLEGAL_METHOD_CALL, None),
        }
    }
}

/// What a title reads back of a filed text is the text: its size call reports the
/// terminated length, and a buffer of that size receives its bytes and the terminator.
pub proof fn lemma_filed_text_reads_back(
    before: Map<u64, Result<Seq<char>, i32>>,
    key: u64,
    text: Seq<char>,
)
    ensures
        result_size_for(filed_under(before.insert(key, Ok(text)), key), true) == (
            S_OK,
            Some(vstd::utf8::encode_utf8(text).len() + 1),
        ),
        ({
            let size = vstd::utf8::encode_utf8(text).len() + 1;
            size <= usize::MAX ==> result_copy_for(
                filed_under(before.insert(key, Ok(text)), key),
                size as usize,
                true,
            ) == (S_OK, Some(vstd::utf8::encode_utf8(text).push(0u8)))
        }),
{
}

/// A failure filed for a key is what both reads of that key answer.
pub proof fn lemma_filed_error_reads_back(
    before: Map<u64, Result<Seq<char>, i32>>,
    key: u64,
    hr: i32,
    size: usize,
    has_buffer: bool,
)
    ensures
        result_size_for(filed_under(before.insert(key, Err(hr)), key), true) == (hr, None::<nat>),
        result_copy_for(filed_under(before.insert(key, Err(hr)), key), size, has_buffer) == (
            hr,
            None::<Seq<u8>>,
        ),
{
}

/// `XStoreEnumerateProductsQuery`'s status: `E_POINTER` without a callback, `E_INVALIDARG`
/// for a handle that is not live, else `S_OK` (and the products are enumerated).
pub fn enumerate_status(has_callback: bool, found: bool) -> (hr: i32)
    ensures
        hr == if !has_callback {
            E_POINTER
        } else if !found {
            E_INVALIDARG
        } else {
            S_OK
        },
{
    if !has_callback {
        E_POINTER
    } else if !found {
        E_INVALIDARG
    } else {
        S_OK
    }
}

/// Where an `XStoreEnumerateProductsQuery` walk stands. The query's entries are offered to
/// the game's callback one at a time, in order; the walk ends after the first entry the
/// callback answers `false` to, or after the last entry.
pub struct ProductEnumeration {
    /// How many entries have been offered.
    pub offered: usize,
    /// How many entries the query holds.
    pub total: usize,
    /// Whether the callback asked to stop.
    pub stopped: bool,
}

impl ProductEnumeration {
    /// No more entries offered than the query holds.
    pub open spec fn wf(&self) -> bool {
        self.offered <= self.total
    }

    /// A walk over `total` entries that has offered none.
    pub fn new(total: usize) -> (walk: Self)
        ensures
            walk.wf(),
            walk.offered == 0,
            walk.total == total,
            !walk.stopped,
    {
        ProductEnumeration { offered: 0, total, stopped: false }
    }

    /// The index of the entry to offer next, or `None` once the walk is over.
    pub fn next_entry(&self) -> (next: Option<usize>)
        ensures
            next == if !self.stopped && self.offered < self.total {
                Some(self.offered)
            } else {
                None::<usize>
            },
    {
        if !self.stopped && self.offered < self.total {
            Some(self.offered)
        } else {
            None
        }
    }

    /// Records the callback's answer for the entry just offered: `false` ends the walk.
    pub fn answer(&mut self, keep_going: bool)
        requires
            old(self).wf(),
            !old(self).stopped,
            old(self).offered < old(self).total,
        ensures
            final(self).wf(),
            final(self).offered == old(self).offered + 1,
            final(self).total == old(self).total,
            final(self).stopped == !keep_going,
    {
        self.offered = self.offered + 1;
        self.stopped = !keep_going;
    }
}

/// `IXStore`, the store interface.
pub trait IXStore {}

/// `IXStoreAlias1`: another interface id for `IXStore`, with no methods of its own.
pub trait IXStoreAlias1: IXStore {}

/// `IXStoreAlias2`: another interface id for `IXStore`, with no methods of its own.
pub trait IXStoreAlias2: IXStore {}

/// `IXStoreAlias3`: another interface id for `IXStore`, with no methods of its own.
pub trait IXStoreAlias3: IXStore {}

/// `XStore`, the store class.
pub struct XStoreObject;

impl IXStore for XStoreObject {}

impl IXStoreAlias1 for XStoreObject {}

impl IXStoreAlias2 for XStoreObject {}

impl IXStoreAlias3 for XStoreObject {}

impl XStoreObject {
    /// `XStoreCreateContext`: every title gets the one context, `1`.
    pub fn create_context(&self) -> (context: u64)
        ensures
            context == 1,
    {
        1
    }

    /// The check every asynchronous store query starts with: a zero context is `E_POINTER`.
    pub fn check_context(&self, context: u64) -> (hr: i32)
        ensures
            hr == if context == 0 {
                E_POINTER
            } else {
                S_OK
            },
    {
        if context == 0 {
            E_POINTER
        } else {
            S_OK
        }
    }

    /// `XStoreProductsQueryHasMorePages`: every query comes back in one page.
    pub fn products_query_has_more_pages(&self) -> (more: bool)
        ensures
            !more,
    {
        false
    }
}

} // verus!

//! The identity classes: `XSystem` (console, sandbox and device ids), `XSystemAnalytics`,
//! `XGame` (the title id), and the small classes whose answers are fixed (`XFeature`,
//! `XError`, `XGameInvite`, `XGameProtocol`).
//!
//! Every id is handed back through a caller buffer of a stated size; the functions here decide
//! what is written where and which status comes back, and the caller does the writing.
use vstd::prelude::*;
use crate::hresult::{E_NOTIMPL, E_NOT_SUFFICIENT_BUFFER, E_POINTER, S_OK};
use crate::text::{
    chars_of, find_from, first_occurrence, is_white_space, trim_bounds, trimmed_bounds,
};

verus! {

/// `IXFeature`: the runtime feature query.
pub trait IXFeature {
    /// `XGameRuntimeIsFeatureAvailable`.
    fn is_feature_available(&self, feature: u32) -> (available: bool);
}

/// `XFeature`, the class behind `IXFeature`.
pub struct XFeature;

impl IXFeature for XFeature {
    /// Every feature reports available: a title told a feature is missing takes a fallback
    /// path that is not implemented either, so the honest "not implemented" lives at the
    /// individual API instead.
    fn is_feature_available(&self, feature: u32) -> (available: bool)
        ensures
            available,
    {
        true
    }
}

/// `XError`: accepts a callback and options but has no error sink to forward to.
pub struct XError;

impl XError {
    /// The unnamed first vtable slot, held only for layout: not implemented.
    pub fn unknown_method0(&self) -> (hr: i32)
        ensures
            hr == E_NOTIMPL,
    {
        E_NOTIMPL
    }
}

/// `XGameInvite`: registration succeeds, but no invite event ever fires.
pub struct XGameInvite;

impl XGameInvite {
    /// `XGameInviteRegisterForEvent` / `...ForPendingEvent`: succeeds and hands back the token
    /// `0` (written only if the caller passed a token pointer).
    pub fn register_for_event(&self) -> (answer: (i32, u64))
        ensures
            answer == (S_OK, 0u64),
    {
        (S_OK, 0)
    }

    /// `XGameInviteAcceptPendingInvite`: not implemented.
    pub fn accept_pending_invite(&self) -> (hr: i32)
        ensures
            hr == E_NOTIMPL,
    {
        E_NOTIMPL
    }
}

/// `XGameProtocol`: registration succeeds, but no activation ever fires.
pub struct XGameProtocol;

impl XGameProtocol {
    /// `XGameProtocolRegisterForActivation`: succeeds and hands back the token `0`.
    pub fn register_for_activation(&self) -> (answer: (i32, u64))
        ensures
            answer == (S_OK, 0u64),
    {
        (S_OK, 0)
    }
}

/// The value of a hexadecimal digit, if `c` is one.
pub open spec fn hex_digit_value(c: char) -> Option<int> {
    if '0' <= c && c <= '9' {
        Some(c as int - '0' as int)
    } else if 'a' <= c && c <= 'f' {
        Some(c as int - 'a' as int + 10)
    } else if 'A' <= c && c <= 'F' {
        Some(c as int - 'A' as int + 10)
    } else {
        None
    }
}

/// Whether every character of `s` is a hexadecimal digit.
pub open spec fn all_hex(s: Seq<char>) -> bool {
    forall|i: int| 0 <= i < s.len() ==> hex_digit_value(#[trigger] s[i]) is Some
}

/// The number the hexadecimal digits `s` spell, most significant first.
pub open spec fn hex_value(s: Seq<char>) -> int
    decreases s.len(),
{
    if s.len() == 0 {
        0
    } else {
        hex_value(s.drop_last()) * 16 + match hex_digit_value(s.last()) {
            Some(d) => d,
            None => 0,
        }
    }
}

/// `16` to the power `n`.
pub open spec fn pow16(n: nat) -> int
    decreases n,
{
    if n == 0 {
        1
    } else {
        16 * pow16((n - 1) as nat)
    }
}

/// What `u32::from_str_radix(text, 16)` makes of an 8-byte title id: an optional `+` and hex
/// digits. A non-ASCII character is never a digit, so counting characters instead of bytes
/// changes no answer.
pub open spec fn title_id_value(text: Seq<char>) -> Option<u32> {
    if text.len() != 8 {
        None
    } else if text[0] == '+' {
        if all_hex(text.drop_first()) {
            Some(hex_value(text.drop_first()) as u32)
        } else {
            None
        }
    } else if all_hex(text) {
        Some(hex_value(text) as u32)
    } else {
        None
    }
}

/// `<TitleId`
pub open spec fn title_id_open() -> Seq<char> {
    seq!['<', 'T', 'i', 't', 'l', 'e', 'I', 'd']
}

/// `</TitleId>`
pub open spec fn title_id_close() -> Seq<char> {
    seq!['<', '/', 'T', 'i', 't', 'l', 'e', 'I', 'd', '>']
}

/// The title id a `MicrosoftGame.Config` declares: the text between the first `<TitleId`
/// element's `>` and the following `</TitleId>`, trimmed of white space, read as hexadecimal.
pub open spec fn config_title_id(contents: Seq<char>) -> Option<u32> {
    match first_occurrence(contents, title_id_open(), 0) {
        None => None,
        Some(start) => match first_occurrence(contents, seq!['>'], start) {
            None => None,
            Some(gt) => match first_occurrence(contents, title_id_close(), gt + 1) {
                None => None,
                Some(close) => {
                    let inner = contents.subrange(gt + 1, close);
                    let (lo, hi) = choose|lo: int, hi: int| trimmed_bounds(inner, lo, hi);
                    title_id_value(inner.subrange(lo, hi))
                },
            },
        },
    }
}

/// The trimmed bounds of a sequence are unique.
proof fn lemma_trimmed_bounds_unique(s: Seq<char>, lo: int, hi: int, lo2: int, hi2: int)
    requires
        trimmed_bounds(s, lo, hi),
        trimmed_bounds(s, lo2, hi2),
    ensures
        lo == lo2 && hi == hi2 || (lo == hi && lo2 == hi2),
{
    if lo < hi && lo2 < hi2 {
        if lo < lo2 {
            assert(is_white_space(s[lo]));
        }
        if lo2 < lo {
            assert(is_white_space(s[lo2]));
        }
        if hi < hi2 {
            assert(is_white_space(s[hi2 - 1]));
        }
        if hi2 < hi {
            assert(is_white_space(s[hi - 1]));
        }
    } else if lo < hi {
        assert(is_white_space(s[lo]));
    } else if lo2 < hi2 {
        assert(is_white_space(s[lo2]));
    }
}

/// Reads exactly `text[from..to]` as hexadecimal digits, at most 8 of them.
fn parse_hex(chars: &Vec<char>, from: usize, to: usize) -> (value: Option<u32>)
    requires
        from <= to <= chars@.len(),
        to - from <= 8,
    ensures
        all_hex(chars@.subrange(from as int, to as int)) ==> value == Some(
            hex_value(chars@.subrange(from as int, to as int)) as u32,
        ),
        !all_hex(chars@.subrange(from as int, to as int)) ==> value is None,
{
    let mut acc: u64 = 0;
    let mut i = from;
    proof {
        assert(chars@.subrange(from as int, from as int) =~= Seq::<char>::empty());
        lemma_pow16_monotonic(0, 8);
    }
    while i < to
        invariant
            from <= i <= to <= chars@.len(),
            to - from <= 8,
            acc == hex_value(chars@.subrange(from as int, i as int)),
            all_hex(chars@.subrange(from as int, i as int)),
            acc < pow16((i - from) as nat),
            pow16((i - from) as nat) <= pow16(8),
        decreases to - i,
    {
        let c = chars[i];
        let digit: u64 = if '0' <= c && c <= '9' {
            (c as u32 - '0' as u32) as u64
        } else if 'a' <= c && c <= 'f' {
            (c as u32 - 'a' as u32 + 10) as u64
        } else if 'A' <= c && c <= 'F' {
            (c as u32 - 'A' as u32 + 10) as u64
        } else {
            proof {
                assert(chars@.subrange(from as int, to as int)[i - from] == c);
            }
            return None;
        };
        let ghost before = chars@.subrange(from as int, i as int);
        let ghost after = chars@.subrange(from as int, i + 1);
        proof {
            assert(after.drop_last() =~= before);
            assert(after.last() == c);
            assert(hex_digit_value(c) == Some(digit as int));
            lemma_pow16_step((i - from) as nat);
            assert(acc * 16 + digit < pow16((i - from) as nat) * 16) by (nonlinear_arith)
                requires
                    acc < pow16((i - from) as nat),
                    digit < 16,
            ;
            reveal_with_fuel(pow16, 9);
            assert(pow16(8) == 0x1_0000_0000);
            lemma_pow16_monotonic((i + 1 - from) as nat, 8);
            assert forall|j: int| 0 <= j < after.len() implies hex_digit_value(
                #[trigger] after[j],
            ) is Some by {
                if j < before.len() {
                    assert(after[j] == before[j]);
                }
            }
        }
        acc = acc * 16 + digit;
        i = i + 1;
    }
    proof {
        reveal_with_fuel(pow16, 9);
    }
    Some(acc as u32)
}

proof fn lemma_pow16_step(n: nat)
    ensures
        pow16(n + 1) == pow16(n) * 16,
{
}

proof fn lemma_pow16_monotonic(a: nat, b: nat)
    requires
        a <= b,
    ensures
        pow16(a) <= pow16(b),
    decreases b,
{
    if a < b {
        lemma_pow16_monotonic(a, (b - 1) as nat);
        lemma_pow16_positive((b - 1) as nat);
    }
}

proof fn lemma_pow16_positive(n: nat)
    ensures
        pow16(n) >= 1,
    decreases n,
{
    if n > 0 {
        lemma_pow16_positive((n - 1) as nat);
    }
}

/// Reads the title id out of a `MicrosoftGame.Config`.
pub fn parse_title_id_from_config(contents: &str) -> (id: Option<u32>)
    ensures
        id == config_title_id(contents@),
{
    let chars = chars_of(contents);
    let open = ['<', 'T', 'i', 't', 'l', 'e', 'I', 'd'];
    let gt = ['>'];
    let close = ['<', '/', 'T', 'i', 't', 'l', 'e', 'I', 'd', '>'];
    proof {
        assert(open@ =~= title_id_open());
        assert(gt@ =~= seq!['>']);
        assert(close@ =~= title_id_close());
    }
    let start = match find_from(&chars, open.as_slice(), 0) {
        Some(start) => start,
        None => {
            return None;
        },
    };
    let gt_at = match find_from(&chars, gt.as_slice(), start) {
        Some(at) => at,
        None => {
            return None;
        },
    };
    proof {
        assert(gt_at + 1 <= chars.len());
    }
    let open_end = gt_at + 1;
    let close_at = match find_from(&chars, close.as_slice(), open_end) {
        Some(at) => at,
        None => {
            return None;
        },
    };
    let (lo, hi) = trim_bounds(&chars, open_end, close_at);
    let ghost inner = chars@.subrange(open_end as int, close_at as int);
    let ghost text = chars@.subrange(lo as int, hi as int);
    proof {
        assert(trimmed_bounds(inner, lo - open_end, hi - open_end));
        let (blo, bhi) = choose|lo: int, hi: int| trimmed_bounds(inner, lo, hi);
        lemma_trimmed_bounds_unique(inner, lo - open_end, hi - open_end, blo, bhi);
        assert(inner.subrange(lo - open_end, hi - open_end) =~= text);
        assert(inner.subrange(blo, bhi) =~= text) by {
            if blo == bhi {
                assert(inner.subrange(blo, bhi) =~= Seq::<char>::empty());
                assert(text =~= Seq::<char>::empty());
            }
        }
    }
    if hi - lo != 8 {
        return None;
    }
    if chars[lo] == '+' {
        let value = parse_hex(&chars, lo + 1, hi);
        proof {
            assert(chars@.subrange(lo + 1, hi as int) =~= text.drop_first());
        }
        value
    } else {
        proof {
            assert(hex_digit_value('+') is None);
        }
        parse_hex(&chars, lo, hi)
    }
}

/// `XGame`: the title identity.
pub struct XGame;

impl XGame {
    /// `XGameGetXboxTitleId` given what the launched title's config declares: the id and
    /// `S_OK`, or `0` and `E_NOTIMPL` when there is none to give.
    pub fn xbox_title_id(&self, configured: Option<u32>) -> (answer: (i32, u32))
        ensures
            configured is Some ==> answer == (S_OK, configured->0),
            configured is None ==> answer == (E_NOTIMPL, 0u32),
    {
        match configured {
            Some(id) => (S_OK, id),
            None => (E_NOTIMPL, 0),
        }
    }

    /// `XLaunchRestartOnCrash`: there is no crash-restart facility to drive.
    pub fn launch_restart_on_crash(&self) -> (hr: i32)
        ensures
            hr == E_NOTIMPL,
    {
        E_NOTIMPL
    }
}

/// What an id query writes back: its status, the byte count for the `used` out-parameter
/// (written only when the caller passed one), and the bytes for the caller's buffer.
pub struct IdCopy {
    pub hr: i32,
    pub used: Option<usize>,
    pub bytes: Option<Vec<u8>>,
}

/// The fixed console id, `00000000.00000000.00000000.00000000.00`, with its terminator.
pub open spec fn console_id_bytes() -> Seq<u8> {
    Seq::new(
        39,
        |i: int|
            if i == 38 {
                0u8
            } else if i == 8 || i == 17 || i == 26 || i == 35 {
                46u8
            } else {
                48u8
            },
    )
}

/// The fixed sandbox id, `RETAIL`, with its terminator.
pub open spec fn sandbox_id_bytes() -> Seq<u8> {
    seq![82u8, 69u8, 84u8, 65u8, 73u8, 76u8, 0u8]
}

/// The size a console id buffer must have (`X_SYSTEM_CONSOLE_ID_BYTES`).
pub const CONSOLE_ID_BYTES: i32 = 39;

/// The size a sandbox id buffer must have (`X_SYSTEM_SANDBOX_ID_MAX_BYTES`).
pub const SANDBOX_ID_MAX_BYTES: i32 = 16;

/// `IXSystem`, the console identity interface: a marker naming the interface the class
/// answers to; its methods are the class's own (`XSystem`).
pub trait IXSystem {}

/// `IXSystem2`: a marker for the second interface id the class answers to.
pub trait IXSystem2: IXSystem {}

/// `IXSystem3`: a marker for the third interface id the class answers to. In the runtime's
/// ABI it adds handle tracking and validity, which stand on `XSystem` here.
pub trait IXSystem3: IXSystem2 {}

/// `IXSystem4`: a marker for the fourth interface id the class answers to. In the runtime's
/// ABI it adds the full-download-bandwidth switch.
pub trait IXSystem4: IXSystem3 {}

/// `IXSystem5`: a marker for the fifth interface id the class answers to.
pub trait IXSystem5: IXSystem4 {}

impl IXSystem for XSystem {}

impl IXSystem2 for XSystem {}

impl IXSystem3 for XSystem {}

impl IXSystem4 for XSystem {}

impl IXSystem5 for XSystem {}

/// `XSystem`: console identity. There is no sandbox concept here, so the ids are fixed: the
/// `RETAIL` sandbox and an all-zero console id.
pub struct XSystem;

impl XSystem {
    /// `XSystemGetConsoleId`: the `used` out-parameter is required and always learns the size;
    /// the buffer is required and must hold the whole id.
    pub fn console_id(&self, size: i32, has_buffer: bool, has_used: bool) -> (copy: IdCopy)
        ensures
            !has_used ==> copy.hr == E_POINTER && copy.used is None && copy.bytes is None,
            has_used ==> copy.used == Some(39usize),
            has_used && !has_buffer ==> copy.hr == E_POINTER && copy.bytes is None,
            has_used && has_buffer && size < CONSOLE_ID_BYTES ==> copy.hr
                == E_NOT_SUFFICIENT_BUFFER && copy.bytes is None,
            has_used && has_buffer && size >= CONSOLE_ID_BYTES ==> copy.hr == S_OK
                && copy.bytes is Some && copy.bytes->0@ == console_id_bytes(),
    {
        if !has_used {
            return IdCopy { hr: E_POINTER, used: None, bytes: None };
        }
        if !has_buffer {
            return IdCopy { hr: E_POINTER, used: Some(39), bytes: None };
        }
        if size < CONSOLE_ID_BYTES {
            return IdCopy { hr: E_NOT_SUFFICIENT_BUFFER, used: Some(39), bytes: None };
        }
        let mut bytes: Vec<u8> = Vec::new();
        let mut i: usize = 0;
        while i < 39
            invariant
                0 <= i <= 39,
                bytes@ == console_id_bytes().subrange(0, i as int),
            decreases 39 - i,
        {
            let byte: u8 = if i == 38 {
                0
            } else if i == 8 || i == 17 || i == 26 || i == 35 {
                46
            } else {
                48
            };
            bytes.push(byte);
            i = i + 1;
            proof {
                assert(bytes@ =~= console_id_bytes().subrange(0, i as int));
            }
        }
        proof {
            assert(bytes@ =~= console_id_bytes());
        }
        IdCopy { hr: S_OK, used: Some(39), bytes: Some(bytes) }
    }

    /// `XSystemGetXboxLiveSandboxId`: the buffer is required and must hold
    /// `SANDBOX_ID_MAX_BYTES`; the `used` out-parameter is optional.
    pub fn sandbox_id(&self, size: i32, has_buffer: bool, has_used: bool) -> (copy: IdCopy)
        ensures
            !has_buffer ==> copy.hr == E_POINTER && copy.used is None && copy.bytes is None,
            has_buffer && size < SANDBOX_ID_MAX_BYTES ==> copy.hr == E_NOT_SUFFICIENT_BUFFER
                && copy.used is None && copy.bytes is None,
            has_buffer && size >= SANDBOX_ID_MAX_BYTES ==> copy.hr == S_OK && copy.bytes is Some
                && copy.bytes->0@ == sandbox_id_bytes() && copy.used == if has_used {
                Some(7usize)
            } else {
                None
            },
    {
        if !has_buffer {
            return IdCopy { hr: E_POINTER, used: None, bytes: None };
        }
        if size < SANDBOX_ID_MAX_BYTES {
            return IdCopy { hr: E_NOT_SUFFICIENT_BUFFER, used: None, bytes: None };
        }
        let bytes: Vec<u8> = vec![82u8, 69u8, 84u8, 65u8, 73u8, 76u8, 0u8];
        proof {
            assert(bytes@ =~= sandbox_id_bytes());
        }
        let used = if has_used {
            Some(7)
        } else {
            None
        };
        IdCopy { hr: S_OK, used, bytes: Some(bytes) }
    }

    /// `XSystemGetAppSpecificDeviceId` for the process's device id `id`: the `used`
    /// out-parameter (if any) learns the full size with terminator; a missing or non-positive
    /// buffer gets nothing but still succeeds; otherwise as much of the terminated id as the
    /// buffer holds is copied.
    pub fn app_specific_device_id(&self, id: &[u8], size: i32, has_buffer: bool, has_used: bool) -> (copy:
        IdCopy)
        requires
            id@.len() < usize::MAX,
        ensures
            copy.hr == S_OK,
            copy.used == if has_used {
                Some((id@.len() + 1) as usize)
            } else {
                None
            },
            !has_buffer || size <= 0 ==> copy.bytes is None,
            has_buffer && size > 0 ==> copy.bytes is Some && copy.bytes->0@ == id@.push(0u8).take(
                if id@.len() + 1 < size {
                    id@.len() + 1int
                } else {
                    size as int
                },
            ),
    {
        let used = if has_used {
            Some(id.len() + 1)
        } else {
            None
        };
        if !has_buffer || size <= 0 {
            return IdCopy { hr: S_OK, used, bytes: None };
        }
        let full = id.len() + 1;
        let len = if (full as u64) < (size as u64) {
            full
        } else {
            size as usize
        };
        let mut bytes: Vec<u8> = Vec::new();
        let mut i: usize = 0;
        while i < len
            invariant
                len <= id@.len() + 1,
                0 <= i <= len,
                bytes@ == id@.push(0u8).take(i as int),
            decreases len - i,
        {
            let byte = if i < id.len() {
                id[i]
            } else {
                0u8
            };
            bytes.push(byte);
            i = i + 1;
            proof {
                assert(bytes@ =~= id@.push(0u8).take(i as int));
            }
        }
        IdCopy { hr: S_OK, used, bytes: Some(bytes) }
    }

    /// `XSystemIsHandleValid`: nothing is ever invalidated, so every handle is valid.
    pub fn is_handle_valid(&self) -> (valid: u8)
        ensures
            valid == 1,
    {
        1
    }

    /// `XSystemHandleTrack`: there are no handle lifecycle notifications to track.
    pub fn handle_track(&self) -> (hr: i32)
        ensures
            hr == E_NOTIMPL,
    {
        E_NOTIMPL
    }
}

/// The lowercase hexadecimal digit for `d`.
pub open spec fn hex_char(d: int) -> char {
    if 0 <= d < 10 {
        ('0' as int + d) as char
    } else {
        ('a' as int + d - 10) as char
    }
}

/// `value` in lowercase hexadecimal, zero-padded to exactly `width` digits.
pub open spec fn hex_chars(value: nat, width: nat) -> Seq<char>
    decreases width,
{
    if width == 0 {
        Seq::empty()
    } else {
        hex_chars(value / 16, (width - 1) as nat).push(hex_char((value % 16) as int))
    }
}

/// The text of a device id built from two 64-bit hashes: the GUID-shaped
/// `xxxxxxxx-xxxx-xxxx-xxxx-xxxxxxxxxxxx` of the high word's top 32, middle 16 and low 16
/// bits, the low word's top 16 bits and its low 48 bits.
pub open spec fn device_id_chars(high: u64, low: u64) -> Seq<char> {
    hex_chars((high / 0x1_0000_0000) as nat, 8) + seq!['-'] + hex_chars(
        ((high / 0x1_0000) % 0x1_0000) as nat,
        4,
    ) + seq!['-'] + hex_chars((high % 0x1_0000) as nat, 4) + seq!['-'] + hex_chars(
        (low / 0x1_0000_0000_0000) as nat,
        4,
    ) + seq!['-'] + hex_chars((low % 0x1_0000_0000_0000) as nat, 12)
}

/// Whether `c` is a lowercase hexadecimal digit.
pub open spec fn is_lower_hex(c: char) -> bool {
    ('0' <= c && c <= '9') || ('a' <= c && c <= 'f')
}

/// Whether `text` is GUID-shaped lowercase hex: 36 characters, `-` at 8, 13, 18 and 23, a
/// lowercase hexadecimal digit everywhere else.
pub open spec fn is_guid_text(text: Seq<char>) -> bool {
    &&& text.len() == 36
    &&& forall|i: int|
        0 <= i < 36 ==> if i == 8 || i == 13 || i == 18 || i == 23 {
            #[trigger] text[i] == '-'
        } else {
            is_lower_hex(text[i])
        }
}

/// `hex_chars` gives exactly `width` lowercase hexadecimal digits.
proof fn lemma_hex_chars_shape(value: nat, width: nat)
    ensures
        hex_chars(value, width).len() == width,
        forall|i: int| 0 <= i < width ==> is_lower_hex(#[trigger] hex_chars(value, width)[i]),
    decreases width,
{
    if width > 0 {
        lemma_hex_chars_shape(value / 16, (width - 1) as nat);
        let d = (value % 16) as int;
        assert(is_lower_hex(hex_char(d)));
    }
}

/// Every device id is GUID-shaped lowercase hex.
pub proof fn lemma_device_id_is_guid_shaped(high: u64, low: u64)
    ensures
        is_guid_text(device_id_chars(high, low)),
{
    let a = hex_chars((high / 0x1_0000_0000) as nat, 8);
    let b = hex_chars(((high / 0x1_0000) % 0x1_0000) as nat, 4);
    let c = hex_chars((high % 0x1_0000) as nat, 4);
    let d = hex_chars((low / 0x1_0000_0000_0000) as nat, 4);
    let e = hex_chars((low % 0x1_0000_0000_0000) as nat, 12);
    lemma_hex_chars_shape((high / 0x1_0000_0000) as nat, 8);
    lemma_hex_chars_shape(((high / 0x1_0000) % 0x1_0000) as nat, 4);
    lemma_hex_chars_shape((high % 0x1_0000) as nat, 4);
    lemma_hex_chars_shape((low / 0x1_0000_0000_0000) as nat, 4);
    lemma_hex_chars_shape((low % 0x1_0000_0000_0000) as nat, 12);
    let text = device_id_chars(high, low);
    assert(text == a + seq!['-'] + b + seq!['-'] + c + seq!['-'] + d + seq!['-'] + e);
    assert forall|i: int| 0 <= i < 36 implies if i == 8 || i == 13 || i == 18 || i == 23 {
        #[trigger] text[i] == '-'
    } else {
        is_lower_hex(text[i])
    } by {
        if i < 8 {
            assert(text[i] == a[i]);
        } else if i == 8 {
        } else if i < 13 {
            assert(text[i] == b[i - 9]);
        } else if i == 13 {
        } else if i < 18 {
            assert(text[i] == c[i - 14]);
        } else if i == 18 {
        } else if i < 23 {
            assert(text[i] == d[i - 19]);
        } else if i == 23 {
        } else {
            assert(text[i] == e[i - 24]);
        }
    }
}

/// The one-character string for a hexadecimal digit.
fn hex_digit_str(d: u64) -> (digit: &'static str)
    requires
        d < 16,
    ensures
        digit@ == seq![hex_char(d as int)],
{
    proof {
        reveal_strlit("0");
        reveal_strlit("1");
        reveal_strlit("2");
        reveal_strlit("3");
        reveal_strlit("4");
        reveal_strlit("5");
        reveal_strlit("6");
        reveal_strlit("7");
        reveal_strlit("8");
        reveal_strlit("9");
        reveal_strlit("a");
        reveal_strlit("b");
        reveal_strlit("c");
        reveal_strlit("d");
        reveal_strlit("e");
        reveal_strlit("f");
    }
    if d == 0 {
        "0"
    } else if d == 1 {
        "1"
    } else if d == 2 {
        "2"
    } else if d == 3 {
        "3"
    } else if d == 4 {
        "4"
    } else if d == 5 {
        "5"
    } else if d == 6 {
        "6"
    } else if d == 7 {
        "7"
    } else if d == 8 {
        "8"
    } else if d == 9 {
        "9"
    } else if d == 10 {
        "a"
    } else if d == 11 {
        "b"
    } else if d == 12 {
        "c"
    } else if d == 13 {
        "d"
    } else if d == 14 {
        "e"
    } else {
        "f"
    }
}

/// Appends `value` in lowercase hexadecimal, zero-padded to `width` digits.
fn push_hex(text: &mut String, value: u64, width: u64)
    ensures
        final(text)@ == old(text)@ + hex_chars(value as nat, width as nat),
    decreases width,
{
    if width == 0 {
        proof {
            assert(text@ =~= old(text)@ + hex_chars(value as nat, 0));
        }
        return;
    }
    push_hex(text, value / 16, width - 1);
    text.append(hex_digit_str(value % 16));
    proof {
        assert(text@ =~= old(text)@ + hex_chars(value as nat, width as nat));
    }
}

/// Formats a device id from two 64-bit hashes.
pub fn device_id_text(high: u64, low: u64) -> (text: String)
    ensures
        text@ == device_id_chars(high, low),
{
    let mut text = String::new();
    proof {
        reveal_strlit("-");
    }
    push_hex(&mut text, high / 0x1_0000_0000, 8);
    text.append("-");
    push_hex(&mut text, (high / 0x1_0000) % 0x1_0000, 4);
    text.append("-");
    push_hex(&mut text, high % 0x1_0000, 4);
    text.append("-");
    push_hex(&mut text, low / 0x1_0000_0000_0000, 4);
    text.append("-");
    push_hex(&mut text, low % 0x1_0000_0000_0000, 12);
    proof {
        assert(text@ =~= device_id_chars(high, low));
    }
    text
}

/// The id `DeviceIdCache::get_or_init` reports for a cache holding `cached`: the cached id,
/// or the one formatted from `high` and `low` when there is none yet.
pub open spec fn device_id_after(cached: Option<String>, high: u64, low: u64) -> Seq<char> {
    match cached {
        Some(id) => id@,
        None => device_id_chars(high, low),
    }
}

/// The device id is stable for the process: once a call has reported an id (and cached it),
/// every later call reports that same id whatever entropy it is given, and that id is
/// GUID-shaped lowercase hex.
pub proof fn lemma_device_id_is_stable(
    cached: Option<String>,
    kept: String,
    high: u64,
    low: u64,
    later_high: u64,
    later_low: u64,
)
    requires
        cached matches Some(id) ==> is_guid_text(id@),
        kept@ == device_id_after(cached, high, low),
    ensures
        device_id_after(Some(kept), later_high, later_low) == device_id_after(cached, high, low),
        is_guid_text(device_id_after(Some(kept), later_high, later_low)),
{
    lemma_device_id_is_guid_shaped(high, low);
}

/// The process's app-specific device id: generated on first use from two hashes of
/// per-process entropy, then kept, so every later `XSystemGetAppSpecificDeviceId` in the
/// process reports the same id.
pub struct DeviceIdCache {
    pub id: Option<String>,
}

impl DeviceIdCache {
    /// No id generated yet.
    pub fn new() -> (cache: Self)
        ensures
            cache.id is None,
    {
        DeviceIdCache { id: None }
    }

    /// The cached id; on first use, the id formatted from `high` and `low`, which is then
    /// kept. Once an id is cached, `high` and `low` are ignored.
    pub fn get_or_init(&mut self, high: u64, low: u64) -> (id: String)
        ensures
            final(self).id is Some,
            id@ == final(self).id->0@,
            id@ == device_id_after(old(self).id, high, low),
            old(self).id is Some ==> final(self).id == old(self).id,
            old(self).id is None ==> id@ == device_id_chars(high, low),
    {
        match &self.id {
            Some(id) => {
                return id.clone();
            },
            None => {},
        }
        let text = device_id_text(high, low);
        let id = text.clone();
        self.id = Some(text);
        id
    }
}

/// `XVersion`.
#[derive(Clone, Copy, Debug, PartialEq, Eq, Structural)]
pub struct XVersion {
    pub major: u16,
    pub minor: u16,
    pub build: u16,
    pub revision: u16,
}

/// `XSystemAnalyticsInfo`, with the family and form names as byte buffers.
pub struct XSystemAnalyticsInfo {
    pub os_version: XVersion,
    pub hosting_os_version: XVersion,
    pub family: [u8; 64],
    pub form: [u8; 64],
}

/// The fixed "generic Windows desktop" version reported for both the OS and its host.
pub open spec fn desktop_version() -> XVersion {
    XVersion { major: 10, minor: 0, build: 19045, revision: 0 }
}

/// `Windows`
pub open spec fn family_name() -> Seq<u8> {
    seq![87u8, 105u8, 110u8, 100u8, 111u8, 119u8, 115u8]
}

/// `Desktop`
pub open spec fn form_name() -> Seq<u8> {
    seq![68u8, 101u8, 115u8, 107u8, 116u8, 111u8, 112u8]
}

/// `XSystemAnalytics`: a plausible, fixed desktop identity, since there is no WinRT
/// `AnalyticsInfo` to query.
pub struct XSystemAnalytics;

impl XSystemAnalytics {
    /// Fills the caller's `XSystemAnalyticsInfo`: both versions `10.0.19045.0`, family
    /// `Windows`, form `Desktop`, each name terminated; bytes after a terminator are left as
    /// the caller had them.
    pub fn fill_analytics_info(&self, info: &mut XSystemAnalyticsInfo)
        ensures
            final(info).os_version == desktop_version(),
            final(info).hosting_os_version == desktop_version(),
            final(info).family@.subrange(0, 7) == family_name(),
            final(info).family@[7] == 0u8,
            final(info).family@.subrange(8, 64) == old(info).family@.subrange(8, 64),
            final(info).form@.subrange(0, 7) == form_name(),
            final(info).form@[7] == 0u8,
            final(info).form@.subrange(8, 64) == old(info).form@.subrange(8, 64),
    {
        let version = XVersion { major: 10, minor: 0, build: 19045, revision: 0 };
        info.os_version = version;
        info.hosting_os_version = version;
        let family: [u8; 7] = [87, 105, 110, 100, 111, 119, 115];
        let form: [u8; 7] = [68, 101, 115, 107, 116, 111, 112];
        proof {
            assert(family@ =~= family_name());
            assert(form@ =~= form_name());
        }
        crate::text::write_fixed_cstr(&mut info.family, family.as_slice());
        crate::text::write_fixed_cstr(&mut info.form, form.as_slice());
        proof {
            assert(family@.subrange(0, 7) =~= family@);
            assert(form@.subrange(0, 7) =~= form@);
        }
    }
}

} // verus!

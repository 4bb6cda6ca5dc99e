//! The file pickers: which activation a class name gets, how a picker's properties become the
//! shell dialog's settings, what a dialog's answer means, and the state of the asynchronous
//! operation a pick hands back.
use vstd::prelude::*;
use crate::hresult::{
    CLASS_E_CLASSNOTAVAILABLE, E_CANCELLED, E_FAIL, E_ILLEGAL_METHOD_CALL, E_POINTER, S_OK,
};

verus! {

/// The classic save picker's class name.
pub const FILE_SAVE_PICKER: &'static str = "Windows.Storage.Pickers.FileSavePicker";

/// The App SDK open picker's class name.
pub const FILE_OPEN_PICKER: &'static str = "Microsoft.Windows.Storage.Pickers.FileOpenPicker";

/// The storage file statics' class name.
pub const STORAGE_FILE: &'static str = "Windows.Storage.StorageFile";

/// The factory `DllGetActivationFactory` hands out for a class name.
#[derive(Clone, Copy, Debug, PartialEq, Eq, Structural)]
pub enum ActivationRoute {
    OpenPicker,
    StorageFile,
    SavePicker,
    /// `CLASS_E_CLASSNOTAVAILABLE`.
    NotAvailable,
}

/// The route for a class name, given the three served names.
pub open spec fn activation_route_for(
    name: Seq<char>,
    open_picker: Seq<char>,
    storage_file: Seq<char>,
    save_picker: Seq<char>,
) -> ActivationRoute {
    if name == open_picker {
        ActivationRoute::OpenPicker
    } else if name == storage_file {
        ActivationRoute::StorageFile
    } else if name == save_picker {
        ActivationRoute::SavePicker
    } else {
        ActivationRoute::NotAvailable
    }
}

/// Which factory serves the class `name`.
pub fn activation_route(name: &str) -> (route: ActivationRoute)
    ensures
        route == activation_route_for(name@, FILE_OPEN_PICKER@, STORAGE_FILE@, FILE_SAVE_PICKER@),
{
    let name = String::from_str(name);
    if name == String::from_str(FILE_OPEN_PICKER) {
        ActivationRoute::OpenPicker
    } else if name == String::from_str(STORAGE_FILE) {
        ActivationRoute::StorageFile
    } else if name == String::from_str(FILE_SAVE_PICKER) {
        ActivationRoute::SavePicker
    } else {
        ActivationRoute::NotAvailable
    }
}

/// `DllGetActivationFactory`'s status for a route: `E_POINTER` without an out-pointer (the
/// out-pointer is cleared first whenever there is one), `CLASS_E_CLASSNOTAVAILABLE` for a
/// class nobody serves, `S_OK` with the factory otherwise.
pub fn activation_status(has_factory: bool, route: ActivationRoute) -> (hr: i32)
    ensures
        !has_factory ==> hr == E_POINTER,
        has_factory && route == ActivationRoute::NotAvailable ==> hr == CLASS_E_CLASSNOTAVAILABLE,
        has_factory && route != ActivationRoute::NotAvailable ==> hr == S_OK,
{
    if !has_factory {
        E_POINTER
    } else {
        match route {
            ActivationRoute::NotAvailable => CLASS_E_CLASSNOTAVAILABLE,
            _ => S_OK,
        }
    }
}

/// The texts of a sequence of strings.
pub open spec fn texts_of(strings: Seq<String>) -> Seq<Seq<char>> {
    Seq::new(strings.len(), |i: int| strings[i]@)
}

/// The shell's filter pattern for a list of extensions: each behind a `*`, joined by `;`.
pub open spec fn star_pattern(extensions: Seq<Seq<char>>) -> Seq<char>
    decreases extensions.len(),
{
    if extensions.len() == 0 {
        Seq::empty()
    } else if extensions.len() == 1 {
        seq!['*'] + extensions[0]
    } else {
        star_pattern(extensions.drop_last()) + seq![';', '*'] + extensions.last()
    }
}

/// Builds the filter pattern for `extensions`.
pub fn filter_pattern(extensions: &Vec<String>) -> (pattern: String)
    ensures
        pattern@ == star_pattern(texts_of(extensions@)),
{
    let mut pattern = String::new();
    let ghost all = texts_of(extensions@);
    proof {
        reveal_strlit("*");
        reveal_strlit(";");
        assert(all.take(0) =~= Seq::<Seq<char>>::empty());
    }
    let mut i: usize = 0;
    while i < extensions.len()
        invariant
            0 <= i <= extensions@.len(),
            all == texts_of(extensions@),
            pattern@ == star_pattern(all.take(i as int)),
        decreases extensions@.len() - i,
    {
        if i > 0 {
            pattern.append(";");
        }
        pattern.append("*");
        pattern.append(extensions[i].as_str());
        proof {
            reveal_strlit("*");
            reveal_strlit(";");
            let next = all.take(i + 1);
            assert(next.drop_last() =~= all.take(i as int));
            assert(next.last() == extensions@[i as int]@);
            if i == 0 {
                assert(pattern@ =~= seq!['*'] + next[0]);
            } else {
                assert(pattern@ =~= star_pattern(all.take(i as int)) + seq![';', '*'] + next.last());
            }
        }
        i = i + 1;
    }
    proof {
        assert(all.take(extensions@.len() as int) =~= all);
    }
    pattern
}

/// `s` without its leading dots.
pub open spec fn without_leading_dots(s: Seq<char>) -> Seq<char>
    decreases s.len(),
{
    if s.len() > 0 && s[0] == '.' {
        without_leading_dots(s.drop_first())
    } else {
        s
    }
}

proof fn lemma_without_leading_dots_skips(s: Seq<char>, k: int)
    requires
        0 <= k <= s.len(),
        forall|i: int| 0 <= i < k ==> s[i] == '.',
        k == s.len() || s[k] != '.',
    ensures
        without_leading_dots(s) == s.skip(k),
    decreases k,
{
    if k == 0 {
        assert(s.skip(0) =~= s);
    } else {
        lemma_without_leading_dots_skips(s.drop_first(), k - 1);
        assert(s.drop_first().skip(k - 1) =~= s.skip(k));
    }
}

/// `text` with its leading dots trimmed off.
pub fn trim_leading_dots(text: &str) -> (trimmed: String)
    ensures
        trimmed@ == without_leading_dots(text@),
{
    let len = text.unicode_len();
    let mut k: usize = 0;
    while k < len && text.get_char(k) == '.'
        invariant
            0 <= k <= len,
            len == text@.len(),
            forall|i: int| 0 <= i < k ==> text@[i] == '.',
        decreases len - k,
    {
        k = k + 1;
    }
    proof {
        lemma_without_leading_dots_skips(text@, k as int);
        assert(text@.subrange(k as int, len as int) =~= text@.skip(k as int));
    }
    String::from_str(text.substring_char(k, len))
}

/// What a title asked of a save picker.
pub struct SaveRequest {
    pub suggested_name: String,
    pub default_extension: String,
    pub commit_button_text: String,
    /// Display name and extensions of each file type, in the order the title inserted them.
    pub file_types: Vec<(String, Vec<String>)>,
    /// The owner window's address, or `0` for none.
    pub owner: isize,
}

/// What a title asked of an open picker.
pub struct OpenRequest {
    pub commit_button_text: String,
    /// Extensions, each with its leading dot, in the order the title added them.
    pub file_types: Vec<String>,
    /// The owner window's address, or `0` for none.
    pub owner: isize,
}

/// The settings the shell dialog is given before it is shown. A `None` is a setter that is
/// not called.
pub struct DialogPlan {
    /// Display name and pattern of each filter; `SetFileTypes` is called only when there is one.
    pub filters: Vec<(String, String)>,
    pub file_name: Option<String>,
    pub default_extension: Option<String>,
    pub ok_label: Option<String>,
    pub owner: Option<isize>,
}

/// `Some(text)` for a non-empty text, else `None`.
pub open spec fn when_given(text: Seq<char>) -> Option<Seq<char>> {
    if text.len() == 0 {
        None
    } else {
        Some(text)
    }
}

/// The text of an optional string.
pub open spec fn text_of(value: Option<String>) -> Option<Seq<char>> {
    match value {
        Some(s) => Some(s@),
        None => None,
    }
}

/// The owner window a dialog is modal to.
pub open spec fn owner_of(owner: isize) -> Option<isize> {
    if owner != 0 {
        Some(owner)
    } else {
        None
    }
}

fn given(text: &String) -> (value: Option<String>)
    ensures
        text_of(value) == when_given(text@),
{
    if text.as_str().unicode_len() == 0 {
        None
    } else {
        Some(text.clone())
    }
}

fn owner_window(owner: isize) -> (window: Option<isize>)
    ensures
        window == owner_of(owner),
{
    if owner != 0 {
        Some(owner)
    } else {
        None
    }
}

/// How the save dialog is set up for `request`: a filter per file type, the suggested name,
/// the default extension without its leading dots (the shell wants it bare), the commit label
/// and the owner, each only where the title gave one.
pub fn save_dialog_plan(request: &SaveRequest) -> (plan: DialogPlan)
    ensures
        plan.filters@.len() == request.file_types@.len(),
        forall|i: int|
            0 <= i < plan.filters@.len() ==> (#[trigger] plan.filters@[i]).0@
                == request.file_types@[i].0@ && plan.filters@[i].1@ == star_pattern(
                texts_of(request.file_types@[i].1@),
            ),
        text_of(plan.file_name) == when_given(request.suggested_name@),
        text_of(plan.default_extension) == if request.default_extension@.len() == 0 {
            None
        } else {
            Some(without_leading_dots(request.default_extension@))
        },
        text_of(plan.ok_label) == when_given(request.commit_button_text@),
        plan.owner == owner_of(request.owner),
{
    let mut filters: Vec<(String, String)> = Vec::new();
    let mut i: usize = 0;
    while i < request.file_types.len()
        invariant
            0 <= i <= request.file_types@.len(),
            filters@.len() == i,
            forall|j: int|
                0 <= j < i ==> (#[trigger] filters@[j]).0@ == request.file_types@[j].0@
                    && filters@[j].1@ == star_pattern(texts_of(request.file_types@[j].1@)),
        decreases request.file_types@.len() - i,
    {
        let name = request.file_types[i].0.clone();
        let pattern = filter_pattern(&request.file_types[i].1);
        filters.push((name, pattern));
        i = i + 1;
    }
    let default_extension = if request.default_extension.as_str().unicode_len() == 0 {
        None
    } else {
        Some(trim_leading_dots(request.default_extension.as_str()))
    };
    DialogPlan {
        filters,
        file_name: given(&request.suggested_name),
        default_extension,
        ok_label: given(&request.commit_button_text),
        owner: owner_window(request.owner),
    }
}

/// The name of the open dialog's filter over what the title asked for.
pub const SUPPORTED_FILES: &'static str = "Supported files";

/// The name of the open dialog's catch-all filter.
pub const ALL_FILES: &'static str = "All files";

/// The catch-all filter's pattern.
pub const ALL_FILES_PATTERN: &'static str = "*.*";

/// How the open dialog is set up for `request`: one group over every extension the title asked
/// for (when it asked for any), then the catch-all group; the commit label and the owner where
/// given. The dialog has no file name or default extension of its own.
pub fn open_dialog_plan(request: &OpenRequest) -> (plan: DialogPlan)
    ensures
        request.file_types@.len() == 0 ==> plan.filters@.len() == 1 && plan.filters@[0].0@
            == ALL_FILES@ && plan.filters@[0].1@ == ALL_FILES_PATTERN@,
        request.file_types@.len() > 0 ==> plan.filters@.len() == 2 && plan.filters@[0].0@
            == SUPPORTED_FILES@ && plan.filters@[0].1@ == star_pattern(
            texts_of(request.file_types@),
        ) && plan.filters@[1].0@ == ALL_FILES@ && plan.filters@[1].1@ == ALL_FILES_PATTERN@,
        plan.file_name is None,
        plan.default_extension is None,
        text_of(plan.ok_label) == when_given(request.commit_button_text@),
        plan.owner == owner_of(request.owner),
{
    let mut filters: Vec<(String, String)> = Vec::new();
    if request.file_types.len() > 0 {
        filters.push((String::from_str(SUPPORTED_FILES), filter_pattern(&request.file_types)));
    }
    filters.push((String::from_str(ALL_FILES), String::from_str(ALL_FILES_PATTERN)));
    DialogPlan {
        filters,
        file_name: None,
        default_extension: None,
        ok_label: given(&request.commit_button_text),
        owner: owner_window(request.owner),
    }
}

/// What the status `Show` returned means for the pick.
#[derive(Clone, Copy, Debug, PartialEq, Eq, Structural)]
pub enum ShowOutcome {
    /// The user dismissed the dialog: the pick succeeds with no file.
    Cancelled,
    /// The dialog failed with this status.
    Failed(i32),
    /// The user chose a file; read it from the dialog.
    Chosen,
}

/// Interprets `Show`'s status: the shell reports a dismissal as `ERROR_CANCELLED`, which is no
/// failure.
pub fn show_outcome(shown: i32) -> (outcome: ShowOutcome)
    ensures
        shown == E_CANCELLED ==> outcome == ShowOutcome::Cancelled,
        shown != E_CANCELLED && shown < 0 ==> outcome == ShowOutcome::Failed(shown),
        shown >= 0 ==> outcome == ShowOutcome::Chosen,
{
    if shown == E_CANCELLED {
        ShowOutcome::Cancelled
    } else if shown < 0 {
        ShowOutcome::Failed(shown)
    } else {
        ShowOutcome::Chosen
    }
}

/// A pick operation's status, as `IAsyncInfo::Status` reports it.
#[derive(Clone, Copy, Debug, PartialEq, Eq, Structural)]
pub enum PickStatus {
    Started,
    Completed,
    Error,
}

/// The state of a pick operation: its status, its error, where the pick landed (`None` for a
/// cancelled pick), and whether a completion handler is registered.
pub struct PickState {
    pub status: PickStatus,
    pub error: i32,
    pub picked: Option<String>,
    pub has_handler: bool,
}

/// The state a pick operation is in once it has finished with `outcome`.
pub open spec fn finished_with(state: PickState, outcome: Result<Option<String>, i32>) -> PickState {
    match outcome {
        Ok(picked) => PickState { status: PickStatus::Completed, picked, ..state },
        Err(error) => PickState { status: PickStatus::Error, error, ..state },
    }
}

/// What `GetResults` answers in `state`.
pub open spec fn results_of(state: PickState) -> Result<Option<String>, i32> {
    match state.status {
        PickStatus::Completed => Ok(state.picked),
        PickStatus::Error => Err(state.error),
        PickStatus::Started => Err(E_ILLEGAL_METHOD_CALL),
    }
}

impl PickState {
    /// An operation that has not finished.
    pub fn new() -> (state: Self)
        ensures
            state.status == PickStatus::Started,
            state.error == 0,
            state.picked is None,
            !state.has_handler,
    {
        PickState { status: PickStatus::Started, error: 0, picked: None, has_handler: false }
    }

    /// Records the pick's outcome; the answer says whether a registered handler is to be told.
    pub fn finish(&mut self, outcome: Result<Option<String>, i32>) -> (notify: bool)
        ensures
            notify == old(self).has_handler,
            *final(self) == finished_with(*old(self), outcome),
    {
        match outcome {
            Ok(picked) => {
                self.status = PickStatus::Completed;
                self.picked = picked;
            },
            Err(error) => {
                self.status = PickStatus::Error;
                self.error = error;
            },
        }
        self.has_handler
    }

    /// The operation's outcome when the deferred pick could not be queued: it completes as a
    /// failure rather than never completing.
    pub fn queue_failed(&mut self) -> (notify: bool)
        ensures
            notify == old(self).has_handler,
            *final(self) == finished_with(*old(self), Err(E_FAIL)),
    {
        self.finish(Err(E_FAIL))
    }

    /// Registers (or clears) the completion handler; the answer says whether it is to be
    /// invoked at once, because the pick has already finished.
    pub fn set_completed(&mut self, has_handler: bool) -> (invoke_now: bool)
        ensures
            *final(self) == (PickState { has_handler, ..*old(self) }),
            invoke_now == (has_handler && old(self).status != PickStatus::Started),
    {
        self.has_handler = has_handler;
        has_handler && !matches!(self.status, PickStatus::Started)
    }

    /// `GetResults`: the picked path (`None` for a cancelled pick) once completed, the error
    /// once failed, and `E_ILLEGAL_METHOD_CALL` before either.
    pub fn results(&self) -> (results: Result<Option<String>, i32>)
        ensures
            results == results_of(*self),
    {
        match self.status {
            PickStatus::Completed => Ok(self.picked.clone()),
            PickStatus::Error => Err(self.error),
            PickStatus::Started => Err(E_ILLEGAL_METHOD_CALL),
        }
    }
}

/// Once a pick has finished, `GetResults` gives back exactly what it finished with: the
/// picked path (or none, for a cancelled pick) or the error, whatever state it was in before.
pub proof fn lemma_results_are_the_outcome(state: PickState, outcome: Result<Option<String>, i32>)
    ensures
        results_of(finished_with(state, outcome)) == outcome,
{
}

/// Before a pick finishes, asking for its results is an illegal call.
pub proof fn lemma_no_results_before_finish(state: PickState)
    requires
        state.status == PickStatus::Started,
    ensures
        results_of(state) == Err::<Option<String>, i32>(E_ILLEGAL_METHOD_CALL),
{
}

/// A MIME type for the (lowercased) extension of a picked file, falling back to the generic
/// binary type.
pub open spec fn content_type_for(extension: Seq<char>) -> Seq<char> {
    if extension == "txt"@ || extension == "log"@ {
        "text/plain"@
    } else if extension == "json"@ {
        "application/json"@
    } else if extension == "png"@ {
        "image/png"@
    } else if extension == "jpg"@ || extension == "jpeg"@ {
        "image/jpeg"@
    } else if extension == "zip"@ || extension == "mcworld"@ || extension == "mcpack"@
        || extension == "mctemplate"@ {
        "application/zip"@
    } else {
        "application/octet-stream"@
    }
}

/// The content type of each extension a picked file is described by: `jpg` and `jpeg` are
/// JPEG images, `txt` and `log` plain text, `json` JSON, `png` PNG images, and `zip` with the
/// Minecraft world, pack and template archives (`mcworld`, `mcpack`, `mctemplate`) zip
/// archives; any other extension, and none, is an octet stream.
pub proof fn lemma_content_types_of_extensions(extension: Seq<char>)
    ensures
        content_type_for(seq!['t', 'x', 't']) == seq!['t', 'e', 'x', 't', '/', 'p', 'l', 'a', 'i', 'n'],
        content_type_for(seq!['l', 'o', 'g']) == seq!['t', 'e', 'x', 't', '/', 'p', 'l', 'a', 'i', 'n'],
        content_type_for(seq!['j', 's', 'o', 'n']) == seq!['a', 'p', 'p', 'l', 'i', 'c', 'a', 't', 'i', 'o', 'n', '/', 'j', 's', 'o', 'n'],
        content_type_for(seq!['p', 'n', 'g']) == seq!['i', 'm', 'a', 'g', 'e', '/', 'p', 'n', 'g'],
        content_type_for(seq!['j', 'p', 'g']) == seq!['i', 'm', 'a', 'g', 'e', '/', 'j', 'p', 'e', 'g'],
        content_type_for(seq!['j', 'p', 'e', 'g']) == seq!['i', 'm', 'a', 'g', 'e', '/', 'j', 'p', 'e', 'g'],
        content_type_for(seq!['z', 'i', 'p']) == seq!['a', 'p', 'p', 'l', 'i', 'c', 'a', 't', 'i', 'o', 'n', '/', 'z', 'i', 'p'],
        content_type_for(seq!['m', 'c', 'w', 'o', 'r', 'l', 'd']) == seq!['a', 'p', 'p', 'l', 'i', 'c', 'a', 't', 'i', 'o', 'n', '/', 'z', 'i', 'p'],
        content_type_for(seq!['m', 'c', 'p', 'a', 'c', 'k']) == seq!['a', 'p', 'p', 'l', 'i', 'c', 'a', 't', 'i', 'o', 'n', '/', 'z', 'i', 'p'],
        content_type_for(seq!['m', 'c', 't', 'e', 'm', 'p', 'l', 'a', 't', 'e']) == seq!['a', 'p', 'p', 'l', 'i', 'c', 'a', 't', 'i', 'o', 'n', '/', 'z', 'i', 'p'],
        extension != seq!['t', 'x', 't'] && extension != seq!['l', 'o', 'g'] && extension != seq!['j', 's', 'o', 'n'] && extension != seq!['p', 'n', 'g'] && extension != seq!['j', 'p', 'g'] && extension != seq!['j', 'p', 'e', 'g'] && extension != seq!['z', 'i', 'p'] && extension != seq!['m', 'c', 'w', 'o', 'r', 'l', 'd'] && extension != seq!['m', 'c', 'p', 'a', 'c', 'k'] && extension != seq!['m', 'c', 't', 'e', 'm', 'p', 'l', 'a', 't', 'e'] ==> content_type_for(extension) == seq!['a', 'p', 'p', 'l', 'i', 'c', 'a', 't', 'i', 'o', 'n', '/', 'o', 'c', 't', 'e', 't', '-', 's', 't', 'r', 'e', 'a', 'm'],
{
    reveal_strlit("application/json");
    reveal_strlit("application/octet-stream");
    reveal_strlit("application/zip");
    reveal_strlit("image/jpeg");
    reveal_strlit("image/png");
    reveal_strlit("jpeg");
    reveal_strlit("jpg");
    reveal_strlit("json");
    reveal_strlit("log");
    reveal_strlit("mcpack");
    reveal_strlit("mctemplate");
    reveal_strlit("mcworld");
    reveal_strlit("png");
    reveal_strlit("text/plain");
    reveal_strlit("txt");
    reveal_strlit("zip");
    assert("application/json"@ =~= seq!['a', 'p', 'p', 'l', 'i', 'c', 'a', 't', 'i', 'o', 'n', '/', 'j', 's', 'o', 'n']);
    assert("application/octet-stream"@ =~= seq!['a', 'p', 'p', 'l', 'i', 'c', 'a', 't', 'i', 'o', 'n', '/', 'o', 'c', 't', 'e', 't', '-', 's', 't', 'r', 'e', 'a', 'm']);
    assert("application/zip"@ =~= seq!['a', 'p', 'p', 'l', 'i', 'c', 'a', 't', 'i', 'o', 'n', '/', 'z', 'i', 'p']);
    assert("image/jpeg"@ =~= seq!['i', 'm', 'a', 'g', 'e', '/', 'j', 'p', 'e', 'g']);
    assert("image/png"@ =~= seq!['i', 'm', 'a', 'g', 'e', '/', 'p', 'n', 'g']);
    assert("jpeg"@ =~= seq!['j', 'p', 'e', 'g']);
    assert("jpg"@ =~= seq!['j', 'p', 'g']);
    assert("json"@ =~= seq!['j', 's', 'o', 'n']);
    assert("log"@ =~= seq!['l', 'o', 'g']);
    assert("mcpack"@ =~= seq!['m', 'c', 'p', 'a', 'c', 'k']);
    assert("mctemplate"@ =~= seq!['m', 'c', 't', 'e', 'm', 'p', 'l', 'a', 't', 'e']);
    assert("mcworld"@ =~= seq!['m', 'c', 'w', 'o', 'r', 'l', 'd']);
    assert("png"@ =~= seq!['p', 'n', 'g']);
    assert("text/plain"@ =~= seq!['t', 'e', 'x', 't', '/', 'p', 'l', 'a', 'i', 'n']);
    assert("txt"@ =~= seq!['t', 'x', 't']);
    assert("zip"@ =~= seq!['z', 'i', 'p']);
}

/// Lowercases `text` by Unicode's rules, as `str::to_lowercase` does.
pub uninterp spec fn unicode_lowercase(text: Seq<char>) -> Seq<char>;

/// `str::to_lowercase`: the contract only names the result, a function of the text alone.
#[verifier::external_body]
fn to_lowercase(text: &str) -> (lower: String)
    ensures
        lower@ == unicode_lowercase(text@),
{
    text.to_lowercase()
}

/// The content type of a file whose extension, as the path gives it, is `extension` (empty
/// when it has none).
pub fn content_type(extension: &str) -> (kind: &'static str)
    ensures
        kind@ == content_type_for(unicode_lowercase(extension@)),
{
    let lower = to_lowercase(extension);
    content_type_of_lowercase(&lower)
}

/// Whether `text` reads `literal`.
fn same_text(text: &String, literal: &str) -> (same: bool)
    ensures
        same == (text@ == literal@),
{
    *text == String::from_str(literal)
}

/// The content type for an already lowercased extension.
pub fn content_type_of_lowercase(lower: &String) -> (kind: &'static str)
    ensures
        kind@ == content_type_for(lower@),
{
    if same_text(lower, "txt") || same_text(lower, "log") {
        "text/plain"
    } else if same_text(lower, "json") {
        "application/json"
    } else if same_text(lower, "png") {
        "image/png"
    } else if same_text(lower, "jpg") || same_text(lower, "jpeg") {
        "image/jpeg"
    } else if same_text(lower, "zip") || same_text(lower, "mcworld") || same_text(lower, "mcpack")
        || same_text(lower, "mctemplate") {
        "application/zip"
    } else {
        "application/octet-stream"
    }
}

/// Ticks (100 ns) from the Windows epoch, 1601-01-01, to the Unix epoch.
pub const TICKS_TO_UNIX_EPOCH: i64 = 116444736000000000i64;

/// Rust's `as i64` on a `u128`: the low 64 bits, read as two's complement.
pub open spec fn low_bits_as_i64(value: u128) -> int {
    let low = value % 0x1_0000_0000_0000_0000;
    if low < 0x8000_0000_0000_0000 {
        low as int
    } else {
        low - 0x1_0000_0000_0000_0000
    }
}

/// Rust's `/` on integers: the quotient rounded toward zero.
pub open spec fn div_toward_zero(a: int, b: int) -> int
    recommends
        b > 0,
{
    if a >= 0 {
        a / b
    } else {
        -((-a) / b)
    }
}

/// A `DateTime`'s ticks for a creation time `nanos` nanoseconds after the Unix epoch, or `0`
/// when the time is unknown.
pub open spec fn date_created_ticks(nanos: Option<u128>) -> int {
    match nanos {
        Some(n) => div_toward_zero(low_bits_as_i64(n), 100) + TICKS_TO_UNIX_EPOCH,
        None => 0,
    }
}

/// Converts a creation time to `DateTime` ticks the way `DateCreated` does: the nanoseconds
/// taken `as i64`, divided down to ticks, and moved to the Windows epoch.
pub fn created_ticks(nanos: Option<u128>) -> (ticks: i64)
    ensures
        ticks == date_created_ticks(nanos),
{
    match nanos {
        None => 0,
        Some(n) => {
            let low: u128 = n % 0x1_0000_0000_0000_0000u128;
            let quotient: i64 = if low < 0x8000_0000_0000_0000u128 {
                (low / 100) as i64
            } else {
                let magnitude: u128 = 0x1_0000_0000_0000_0000u128 - low;
                -((magnitude / 100) as i64)
            };
            quotient + TICKS_TO_UNIX_EPOCH
        },
    }
}

/// `HRESULT_FROM_WIN32(ERROR_FILE_NOT_FOUND)`.
pub const HRESULT_FILE_NOT_FOUND: i32 = -2147024894i32;

/// `StorageFile.GetFileFromPathAsync`'s outcome: the path when it names a file, else
/// `ERROR_FILE_NOT_FOUND`, the one failure its callers are written to expect.
pub fn file_from_path(path: String, is_file: bool) -> (outcome: Result<Option<String>, i32>)
    ensures
        is_file ==> outcome == Ok::<Option<String>, i32>(Some(path)),
        !is_file ==> outcome == Err::<Option<String>, i32>(HRESULT_FILE_NOT_FOUND),
{
    if is_file {
        Ok(Some(path))
    } else {
        Err(HRESULT_FILE_NOT_FOUND)
    }
}

/// A file's `FileType`: its extension with the dot, or empty when it has none.
pub open spec fn file_type_for(extension: Option<Seq<char>>) -> Seq<char> {
    match extension {
        Some(e) => seq!['.'] + e,
        None => Seq::empty(),
    }
}

/// The `FileType` of a file whose extension, as the path gives it, is `extension`.
pub fn file_type(extension: Option<&str>) -> (kind: String)
    ensures
        kind@ == file_type_for(
            match extension {
                Some(e) => Some(e@),
                None => None,
            },
        ),
{
    let mut kind = String::new();
    match extension {
        Some(e) => {
            proof {
                reveal_strlit(".");
            }
            kind.append(".");
            kind.append(e);
        },
        None => {},
    }
    kind
}

} // verus!

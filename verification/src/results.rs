//! Pending multi-code results and the chooser's action policy.
use crate::detection::Detection;
use crate::payload::{
    classify_payload, classify_spec, lemma_safe_only_for_http, seq_http, PayloadClass, PayloadView,
    SafeHttpUrl,
};
use crate::ports::{BrowserPort, ClipboardPort, PortError};
use crate::text::{decimal, push_char, push_decimal, str_eq, utf8_to_string};
use std::sync::Arc;
use vstd::prelude::*;
use vstd::utf8::{decode_utf8, valid_utf8};

verus! {

/// Most characters of a payload shown in a result preview.
pub const PREVIEW_CHARACTER_LIMIT: usize = 240;

/// Rust-owned display category for one decoded result.
#[derive(Clone, Copy, Debug, PartialEq, Eq, Structural)]
pub enum ResultKind {
    /// Approved plain HTTP URL.
    HttpUrl,
    /// Approved encrypted HTTPS URL.
    HttpsUrl,
    /// Ordinary UTF-8 text.
    PlainText,
    /// HTTP-like text that did not parse as a URL.
    MalformedUrl,
    /// A syntactically valid URL using a prohibited scheme.
    BlockedScheme,
    /// An HTTP(S) URL blocked because of credentials in its authority.
    BlockedUrl,
    /// Empty or control-character text that cannot be copied.
    UnsafeText,
    /// Non-UTF-8 payload bytes.
    Binary,
}

/// Inert, bounded result metadata sent to the chooser webview.
#[derive(Debug, PartialEq, Eq)]
pub struct ResultItemView {
    /// Original decoder ordering, starting at zero.
    pub index: usize,
    /// Rust-owned security classification.
    pub kind: ResultKind,
    /// Bounded human-readable preview rendered by the webview as text.
    pub preview: String,
    /// Optional non-sensitive category detail such as a blocked scheme.
    pub detail: Option<String>,
    /// Whether Rust permits this item to be opened.
    pub can_open: bool,
    /// Whether Rust permits this item to be copied.
    pub can_copy: bool,
}

/// A result item view as plain values.
pub struct ItemModel {
    pub index: usize,
    pub kind: ResultKind,
    pub preview: Seq<char>,
    pub detail: Option<Seq<char>>,
    pub can_open: bool,
    pub can_copy: bool,
}

pub open spec fn opt_view(s: Option<String>) -> Option<Seq<char>> {
    match s {
        Some(t) => Some(t@),
        None => None,
    }
}

impl View for ResultItemView {
    type V = ItemModel;

    open spec fn view(&self) -> ItemModel {
        ItemModel {
            index: self.index,
            kind: self.kind,
            preview: self.preview@,
            detail: opt_view(self.detail),
            can_open: self.can_open,
            can_copy: self.can_copy,
        }
    }
}

impl Clone for ResultItemView {
    fn clone(&self) -> (r: Self)
        ensures
            r@ == self@,
    {
        ResultItemView {
            index: self.index,
            kind: self.kind,
            preview: self.preview.clone(),
            detail: match &self.detail {
                Some(d) => Some(d.clone()),
                None => None,
            },
            can_open: self.can_open,
            can_copy: self.can_copy,
        }
    }
}

/// Current chooser session returned through typed IPC.
#[derive(Debug, PartialEq, Eq)]
pub struct PendingResultsView {
    /// Opaque generation used to reject stale chooser commands.
    pub session_id: u64,
    /// Results in original decoder order.
    pub items: Vec<ResultItemView>,
}

/// Typed chooser action accepted at the IPC boundary.
#[derive(Clone, Copy, Debug, PartialEq, Eq, Structural)]
pub enum ResultActionKind {
    /// Open one Rust-approved HTTP(S) item.
    Open,
    /// Copy one Rust-approved textual item.
    Copy,
    /// Copy every Rust-approved textual item in original order.
    CopyAll,
    /// Discard the pending result set.
    Dismiss,
}

/// Complete result action request.
#[derive(Clone, Copy, Debug, PartialEq, Eq, Structural)]
pub struct ResultActionRequest {
    /// Session returned by [`PendingResultsView`].
    pub session_id: u64,
    /// Requested Rust-side action.
    pub action: ResultActionKind,
    /// Required for single-item actions and forbidden otherwise.
    pub index: Option<usize>,
}

/// User-safe action result returned to the chooser.
#[derive(Clone, Copy, Debug, PartialEq, Eq)]
pub struct ResultActionOutcome {
    /// Short inert status message.
    pub message: &'static str,
    /// Whether the chooser should close after the action.
    pub close: bool,
}

/// Native-only classified payload retained for explicit chooser actions.
#[derive(Clone, Debug, PartialEq, Eq)]
pub struct ClassifiedResult {
    /// Inert metadata shown by the chooser.
    pub view: ResultItemView,
    class: PayloadClass,
    copy_text: Option<String>,
}

impl ClassifiedResult {
    pub closed spec fn class_view(&self) -> PayloadView {
        self.class@
    }

    pub closed spec fn item_view(&self) -> ItemModel {
        self.view@
    }

    /// The inert chooser metadata of this result, as verified callers see it.
    pub fn item(&self) -> (r: &ResultItemView)
        ensures
            r@ == self.item_view(),
    {
        &self.view
    }

    pub closed spec fn copy_text_view(&self) -> Option<Seq<char>> {
        opt_view(self.copy_text)
    }

    /// The payload classification behind this result.
    pub fn class(&self) -> (r: &PayloadClass)
        ensures
            r@ == self.class_view(),
    {
        &self.class
    }

    /// The text an explicit copy action writes, if copying is permitted.
    pub fn copy_text(&self) -> (r: Option<&str>)
        ensures
            r matches Some(t) ==> self.copy_text_view() == Some(t@),
            r is None ==> self.copy_text_view() is None,
    {
        match &self.copy_text {
            Some(t) => Some(t.as_str()),
            None => None,
        }
    }
}

// ---------------------------------------------------------------------------
// Classification specification
/// Preview of at most the character limit, marked with `…` when cut.
pub open spec fn preview_spec(t: Seq<char>) -> Seq<char> {
    if t.len() > PREVIEW_CHARACTER_LIMIT {
        t.take(PREVIEW_CHARACTER_LIMIT as int).push('…')
    } else {
        t
    }
}

pub open spec fn seq_https() -> Seq<char> {
    seq!['h', 't', 't', 'p', 's']
}

pub open spec fn kind_spec(c: PayloadView) -> ResultKind {
    match c {
        PayloadView::SafeUrl { scheme, .. } => if scheme == seq_https() {
            ResultKind::HttpsUrl
        } else {
            ResultKind::HttpUrl
        },
        PayloadView::PlainText(_) => ResultKind::PlainText,
        PayloadView::MalformedUrl(_) => ResultKind::MalformedUrl,
        PayloadView::BlockedScheme { .. } => ResultKind::BlockedScheme,
        PayloadView::BlockedUrl(_) => ResultKind::BlockedUrl,
        PayloadView::UnsafeText => ResultKind::UnsafeText,
        PayloadView::Binary => ResultKind::Binary,
    }
}

pub open spec fn can_open_spec(c: PayloadView) -> bool {
    c is SafeUrl
}

pub open spec fn can_copy_spec(c: PayloadView) -> bool {
    !(c is UnsafeText || c is Binary)
}

/// The payload as text, when it is valid UTF-8.
pub open spec fn original_text(bytes: Seq<u8>) -> Option<Seq<char>> {
    if valid_utf8(bytes) {
        Some(decode_utf8(bytes))
    } else {
        None
    }
}

pub open spec fn preview_of(c: PayloadView, bytes: Seq<u8>) -> Seq<char> {
    match c {
        PayloadView::SafeUrl { normalized, .. } => preview_spec(
            match original_text(bytes) {
                Some(t) => t,
                None => normalized,
            },
        ),
        PayloadView::PlainText(t) => preview_spec(t),
        PayloadView::MalformedUrl(t) => preview_spec(t),
        PayloadView::BlockedScheme { text, .. } => preview_spec(text),
        PayloadView::BlockedUrl(t) => preview_spec(t),
        PayloadView::UnsafeText => "Unsafe text content is not shown or copyable"@,
        PayloadView::Binary => "Binary QR payload ("@ + decimal(bytes.len()) + " bytes)"@,
    }
}

pub open spec fn detail_of(c: PayloadView) -> Option<Seq<char>> {
    match c {
        PayloadView::MalformedUrl(_) => Some("Malformed HTTP-like text"@),
        PayloadView::BlockedScheme { scheme, .. } => Some("Blocked "@ + scheme + " scheme"@),
        PayloadView::BlockedUrl(_) => Some("Blocked URL authority"@),
        _ => None,
    }
}

/// What classifying the detection at `index` gives.
pub open spec fn classified_spec(r: ClassifiedResult, index: usize, bytes: Seq<u8>) -> bool {
    let c = classify_spec(bytes);
    &&& r.class_view() == c
    &&& r.item_view().index == index
    &&& r.item_view().kind == kind_spec(c)
    &&& r.item_view().preview == preview_of(c, bytes)
    &&& r.item_view().detail == detail_of(c)
    &&& r.item_view().can_open == can_open_spec(c)
    &&& r.item_view().can_copy == can_copy_spec(c)
    &&& r.copy_text_view() == if can_copy_spec(c) {
        original_text(bytes)
    } else {
        None
    }
}

/// A result for a safe URL is shown as an HTTPS link exactly when the URL's scheme is
/// `https`, and as a plain HTTP link exactly when it is `http`.
pub proof fn lemma_url_kind_follows_scheme(r: ClassifiedResult, index: usize, bytes: Seq<u8>)
    requires
        classified_spec(r, index, bytes),
    ensures
        classify_spec(bytes) matches PayloadView::SafeUrl { scheme, .. } ==> ((r.item_view().kind
            == ResultKind::HttpsUrl <==> scheme == seq!['h', 't', 't', 'p', 's']) && (
        r.item_view().kind == ResultKind::HttpUrl <==> scheme == seq!['h', 't', 't', 'p'])),
{
    lemma_safe_only_for_http(bytes);
    if let PayloadView::SafeUrl { scheme, .. } = classify_spec(bytes) {
        assert(seq_http() != seq_https()) by {
            assert(seq_http().len() != seq_https().len());
        }
    }
}

/// What a chooser item shows and allows: the kind names the classification; only a safe
/// URL can be opened; everything but unsafe text and binary payloads can be copied, and
/// what is copied is exactly the decoded text; the preview of text is that text, cut to
/// the preview limit with an ellipsis; unsafe text shows a fixed notice instead.
pub proof fn lemma_item_reflects_classification(r: ClassifiedResult, index: usize, bytes: Seq<u8>)
    requires
        classified_spec(r, index, bytes),
    ensures
        ({
            let c = classify_spec(bytes);
            let v = r.item_view();
            &&& v.index == index
            &&& (c is PlainText <==> v.kind == ResultKind::PlainText)
            &&& (c is MalformedUrl <==> v.kind == ResultKind::MalformedUrl)
            &&& (c is BlockedScheme <==> v.kind == ResultKind::BlockedScheme)
            &&& (c is BlockedUrl <==> v.kind == ResultKind::BlockedUrl)
            &&& (c is UnsafeText <==> v.kind == ResultKind::UnsafeText)
            &&& (c is Binary <==> v.kind == ResultKind::Binary)
            &&& (c is SafeUrl <==> (v.kind == ResultKind::HttpUrl || v.kind == ResultKind::HttpsUrl))
            &&& (v.can_open <==> c is SafeUrl)
            &&& (v.can_copy <==> !(c is UnsafeText || c is Binary))
            &&& (v.can_copy ==> (valid_utf8(bytes) && r.copy_text_view() == Some(decode_utf8(bytes))))
            &&& (!v.can_copy ==> r.copy_text_view() is None)
            &&& (c is PlainText || c is MalformedUrl || c is BlockedScheme || c is BlockedUrl) ==> ({
                let t = decode_utf8(bytes);
                &&& t.len() <= PREVIEW_CHARACTER_LIMIT ==> v.preview == t
                &&& t.len() > PREVIEW_CHARACTER_LIMIT ==> (v.preview.len() == PREVIEW_CHARACTER_LIMIT
                    + 1 && v.preview.take(PREVIEW_CHARACTER_LIMIT as int) == t.take(
                    PREVIEW_CHARACTER_LIMIT as int,
                ) && v.preview.last() == '…')
            })
            &&& c is UnsafeText ==> v.preview == "Unsafe text content is not shown or copyable"@
        }),
{
    let c = classify_spec(bytes);
    let v = r.item_view();
    if valid_utf8(bytes) {
        let t = decode_utf8(bytes);
        if t.len() > PREVIEW_CHARACTER_LIMIT {
            assert(preview_spec(t).take(PREVIEW_CHARACTER_LIMIT as int) =~= t.take(
                PREVIEW_CHARACTER_LIMIT as int,
            ));
        }
    }
}

fn preview_text(text: &str) -> (r: String)
    ensures
        r@ == preview_spec(text@),
{
    let n = text.unicode_len();
    if n > PREVIEW_CHARACTER_LIMIT {
        let head = text.substring_char(0, PREVIEW_CHARACTER_LIMIT);
        let mut s = String::from_str(head);
        push_char(&mut s, '…');
        assert(head@ =~= text@.take(PREVIEW_CHARACTER_LIMIT as int));
        s
    } else {
        String::from_str(text)
    }
}

impl ClassifiedResult {
    /// Classifies one detection without executing any action.
    pub fn new(index: usize, detection: &Detection) -> (r: Self)
        ensures
            classified_spec(r, index, detection.raw_bytes@),
    {
        let bytes = detection.raw_bytes.as_slice();
        let class = classify_payload(bytes);
        let original = utf8_to_string(bytes);
        let kind;
        let preview;
        let detail;
        let can_open;
        let can_copy;
        match &class {
            PayloadClass::SafeUrl(url) => {
                proof {
                    reveal_strlit("https");
                    assert("https"@ =~= seq_https());
                }
                kind = if str_eq(url.scheme(), "https") {
                    ResultKind::HttpsUrl
                } else {
                    ResultKind::HttpUrl
                };
                preview = match &original {
                    Some(t) => preview_text(t.as_str()),
                    None => preview_text(url.as_str()),
                };
                detail = None;
                can_open = true;
                can_copy = true;
            },
            PayloadClass::PlainText(text) => {
                kind = ResultKind::PlainText;
                preview = preview_text(text.as_str());
                detail = None;
                can_open = false;
                can_copy = true;
            },
            PayloadClass::MalformedUrl { text } => {
                kind = ResultKind::MalformedUrl;
                preview = preview_text(text.as_str());
                detail = Some(String::from_str("Malformed HTTP-like text"));
                can_open = false;
                can_copy = true;
            },
            PayloadClass::BlockedScheme { scheme, text } => {
                kind = ResultKind::BlockedScheme;
                preview = preview_text(text.as_str());
                let mut d = String::from_str("Blocked ");
                d.append(scheme.as_str());
                d.append(" scheme");
                detail = Some(d);
                can_open = false;
                can_copy = true;
            },
            PayloadClass::BlockedUrl { text } => {
                kind = ResultKind::BlockedUrl;
                preview = preview_text(text.as_str());
                detail = Some(String::from_str("Blocked URL authority"));
                can_open = false;
                can_copy = true;
            },
            PayloadClass::UnsafeText => {
                kind = ResultKind::UnsafeText;
                preview = String::from_str("Unsafe text content is not shown or copyable");
                detail = None;
                can_open = false;
                can_copy = false;
            },
            PayloadClass::Binary => {
                kind = ResultKind::Binary;
                let mut p = String::from_str("Binary QR payload (");
                push_decimal(&mut p, bytes.len() as u64);
                p.append(" bytes)");
                preview = p;
                detail = None;
                can_open = false;
                can_copy = false;
            },
        }
        let copy_text = if can_copy {
            original
        } else {
            None
        };
        Self { view: ResultItemView { index, kind, preview, detail, can_open, can_copy }, class, copy_text }
    }
}

/// Classifies detections without reordering them or executing any action.
pub fn classify_results(detections: &[Detection]) -> (r: Vec<ClassifiedResult>)
    ensures
        r.len() == detections.len(),
        forall|i: int|
            0 <= i < r.len() ==> classified_spec(#[trigger] r[i], i as usize, detections[i].raw_bytes@),
{
    let mut out: Vec<ClassifiedResult> = Vec::new();
    let mut i: usize = 0;
    while i < detections.len()
        invariant
            i <= detections.len(),
            out.len() == i,
            forall|j: int|
                0 <= j < i ==> classified_spec(#[trigger] out[j], j as usize, detections[j].raw_bytes@),
        decreases detections.len() - i,
    {
        let item = ClassifiedResult::new(i, &detections[i]);
        out.push(item);
        i = i + 1;
    }
    out
}

// ---------------------------------------------------------------------------
// Result service
struct PendingSession {
    id: u64,
    items: Vec<ClassifiedResult>,
}

/// Native pending-result store and action policy.
pub struct ResultService<B: ?Sized + BrowserPort, C: ?Sized + ClipboardPort> {
    browser: Arc<B>,
    clipboard: Arc<C>,
    next_session: u64,
    pending: Option<PendingSession>,
    calls: Ghost<Seq<ChooserCall>>,
}

/// A browser or clipboard call made by the chooser, as plain values.
pub enum ChooserCall {
    /// The browser was handed this approved URL (normalized text, identity, scheme).
    Open((Seq<char>, Seq<char>, Seq<char>)),
    /// The clipboard was handed this text.
    SetText(Seq<char>),
}

/// Result action rejection with no payload-bearing display text.
#[derive(Debug)]
pub enum ResultActionError {
    /// Chooser data has been replaced or dismissed.
    StaleSession,
    /// Request shape did not match its selected action.
    InvalidRequest,
    /// Requested result index was outside the current ordered set.
    InvalidIndex,
    /// Rust policy does not permit browser opening for this classification.
    NotOpenable,
    /// Rust policy does not permit clipboard copying for this classification.
    NotCopyable,
    /// System browser adapter failed.
    Browser(PortError),
    /// System clipboard adapter failed.
    Clipboard(PortError),
}

/// A result action failure as plain values.
pub enum ActionFailure {
    StaleSession,
    InvalidRequest,
    InvalidIndex,
    NotOpenable,
    NotCopyable,
    /// The browser port failed, with its operation and detail.
    Browser((Seq<char>, Seq<char>)),
    /// The clipboard port failed, with its operation and detail.
    Clipboard((Seq<char>, Seq<char>)),
}

impl View for ResultActionError {
    type V = ActionFailure;

    open spec fn view(&self) -> ActionFailure {
        match self {
            ResultActionError::StaleSession => ActionFailure::StaleSession,
            ResultActionError::InvalidRequest => ActionFailure::InvalidRequest,
            ResultActionError::InvalidIndex => ActionFailure::InvalidIndex,
            ResultActionError::NotOpenable => ActionFailure::NotOpenable,
            ResultActionError::NotCopyable => ActionFailure::NotCopyable,
            ResultActionError::Browser(e) => ActionFailure::Browser(
                (e.spec_operation(), e.spec_detail()),
            ),
            ResultActionError::Clipboard(e) => ActionFailure::Clipboard(
                (e.spec_operation(), e.spec_detail()),
            ),
        }
    }
}

/// What an accepted action does before any port is called.
pub enum ActionPlan {
    /// Open the approved URL of the item at this index.
    Open(int),
    /// Copy this text.
    Copy(Seq<char>),
    /// Copy this joined text.
    CopyAll(Seq<char>),
    /// Discard the session.
    Dismiss,
}

/// The copyable texts of `items`, in order.
pub open spec fn copy_texts(items: Seq<ClassifiedResult>) -> Seq<Seq<char>>
    decreases items.len(),
{
    if items.len() == 0 {
        Seq::empty()
    } else {
        let p = copy_texts(items.drop_last());
        match items.last().copy_text_view() {
            Some(t) => p.push(t),
            None => p,
        }
    }
}

/// `lines.join("\n")`.
pub open spec fn join_lines(lines: Seq<Seq<char>>) -> Seq<char>
    decreases lines.len(),
{
    if lines.len() == 0 {
        Seq::empty()
    } else if lines.len() == 1 {
        lines[0]
    } else {
        join_lines(lines.drop_last()) + seq!['\n'] + lines.last()
    }
}

/// The item an indexed action names, or why there is none.
pub open spec fn indexed_spec(items: Seq<ClassifiedResult>, index: Option<usize>) -> Result<
    int,
    ActionFailure,
> {
    match index {
        None => Err(ActionFailure::InvalidRequest),
        Some(i) => if i < items.len() && items[i as int].item_view().index == i {
            Ok(i as int)
        } else {
            Err(ActionFailure::InvalidIndex)
        },
    }
}

/// What a chooser action is planned to do, or why it is refused.
pub open spec fn plan_spec(
    pending: Option<(u64, Seq<ClassifiedResult>)>,
    request: ResultActionRequest,
) -> Result<ActionPlan, ActionFailure> {
    match pending {
        None => Err(ActionFailure::StaleSession),
        Some((id, items)) => if id != request.session_id {
            Err(ActionFailure::StaleSession)
        } else {
            match request.action {
                ResultActionKind::Open => match indexed_spec(items, request.index) {
                    Err(e) => Err(e),
                    Ok(i) => if items[i].class_view() is SafeUrl {
                        Ok(ActionPlan::Open(i))
                    } else {
                        Err(ActionFailure::NotOpenable)
                    },
                },
                ResultActionKind::Copy => match indexed_spec(items, request.index) {
                    Err(e) => Err(e),
                    Ok(i) => match items[i].copy_text_view() {
                        Some(t) => Ok(ActionPlan::Copy(t)),
                        None => Err(ActionFailure::NotCopyable),
                    },
                },
                ResultActionKind::CopyAll => if request.index is Some {
                    Err(ActionFailure::InvalidRequest)
                } else if join_lines(copy_texts(items)).len() == 0 {
                    Err(ActionFailure::NotCopyable)
                } else {
                    Ok(ActionPlan::CopyAll(join_lines(copy_texts(items))))
                },
                ResultActionKind::Dismiss => if request.index is Some {
                    Err(ActionFailure::InvalidRequest)
                } else {
                    Ok(ActionPlan::Dismiss)
                },
            }
        },
    }
}

/// The chooser opens an item only when it was classified as a safe HTTP(S) URL, and only
/// within the current session.
pub proof fn lemma_open_only_safe_urls(
    pending: Option<(u64, Seq<ClassifiedResult>)>,
    request: ResultActionRequest,
)
    ensures
        plan_spec(pending, request) matches Ok(ActionPlan::Open(i)) ==> (pending matches Some(
            s,
        ) && s.0 == request.session_id && 0 <= i < s.1.len() && s.1[i].class_view() is SafeUrl),
{
}

/// The session identifier after `id`, wrapping at the end of the range.
pub open spec fn following_session(id: u64) -> u64 {
    if id == u64::MAX {
        0
    } else {
        (id + 1) as u64
    }
}

/// Publishing twice makes a command for the first session stale: the second session's
/// identifier is the one after the first's, which always differs from it.
pub proof fn lemma_republished_session_is_stale(
    first: u64,
    items: Seq<ClassifiedResult>,
    request: ResultActionRequest,
)
    requires
        request.session_id == first,
    ensures
        plan_spec(Some((following_session(first), items)), request) == Err::<ActionPlan, ActionFailure>(
            ActionFailure::StaleSession,
        ),
{
}

/// The identifier the next session gets after `k` publishes on a new service.
pub open spec fn id_after_publishes(k: nat) -> u64
    decreases k,
{
    if k == 0 {
        1
    } else {
        following_session(id_after_publishes((k - 1) as nat))
    }
}

/// Sessions are numbered from one: the `k`-th publish on a new service gets identifier
/// `k`, and once it is published a command for any earlier session is stale.
pub proof fn lemma_publishes_number_sessions(
    k: nat,
    items: Seq<ClassifiedResult>,
    request: ResultActionRequest,
)
    requires
        1 <= k < u64::MAX,
        1 <= request.session_id < k,
    ensures
        id_after_publishes((k - 1) as nat) == k,
        plan_spec(Some((id_after_publishes((k - 1) as nat), items)), request) == Err::<
            ActionPlan,
            ActionFailure,
        >(ActionFailure::StaleSession),
{
    lemma_id_after_publishes((k - 1) as nat);
}

proof fn lemma_id_after_publishes(k: nat)
    requires
        k < u64::MAX,
    ensures
        id_after_publishes(k) == k + 1,
    decreases k,
{
    if k > 0 {
        lemma_id_after_publishes((k - 1) as nat);
    }
}

/// The item views of `items`, in order.
pub open spec fn item_views(items: Seq<ClassifiedResult>) -> Seq<ItemModel> {
    items.map_values(|c: ClassifiedResult| c.item_view())
}

/// An outcome with this message and closing flag.
pub open spec fn outcome_is(o: ResultActionOutcome, message: &str, close: bool) -> bool {
    o.message@ == message@ && o.close == close
}

/// The port calls an accepted action makes: the approved URL of the indexed item for
/// opening, the planned text for copying, none for dismissing.
pub open spec fn plan_calls(items: Seq<ClassifiedResult>, p: ActionPlan) -> Seq<ChooserCall> {
    match p {
        ActionPlan::Open(i) => match items[i].class_view() {
            PayloadView::SafeUrl { normalized, identity, scheme } => seq![
                ChooserCall::Open((normalized, identity, scheme)),
            ],
            _ => Seq::empty(),
        },
        ActionPlan::Copy(t) => seq![ChooserCall::SetText(t)],
        ActionPlan::CopyAll(t) => seq![ChooserCall::SetText(t)],
        ActionPlan::Dismiss => Seq::empty(),
    }
}

/// The port call an accepted chooser action makes, decided before any port is called.
#[derive(Clone, Debug, PartialEq, Eq)]
pub enum PlannedAction {
    /// Hand this approved URL to the browser and close the session.
    Open(SafeHttpUrl),
    /// Hand this text to the clipboard.
    Copy(String),
    /// Hand these joined texts to the clipboard.
    CopyAll(String),
    /// Close the session; no port is called.
    Dismiss,
}

impl<B: ?Sized + BrowserPort, C: ?Sized + ClipboardPort> ResultService<B, C> {
    /// The current session, if any.
    pub closed spec fn session(&self) -> Option<(u64, Seq<ClassifiedResult>)> {
        match &self.pending {
            Some(p) => Some((p.id, p.items@)),
            None => None,
        }
    }

    /// The identifier the next published session receives.
    pub closed spec fn next_session_id(&self) -> u64 {
        self.next_session
    }

    /// The browser and clipboard calls this service has made, oldest first. The service
    /// records each call where it makes it, and calls the ports nowhere else.
    pub closed spec fn port_calls(&self) -> Seq<ChooserCall> {
        self.calls@
    }

    fn open_in_browser(&mut self, url: &SafeHttpUrl) -> (r: Result<(), PortError>)
        ensures
            final(self).port_calls() == old(self).port_calls().push(ChooserCall::Open(url@)),
            final(self).session() == old(self).session(),
            final(self).next_session_id() == old(self).next_session_id(),
    {
        let r = self.browser.open(url);
        self.calls = Ghost(self.calls@.push(ChooserCall::Open(url@)));
        r
    }

    fn copy_to_clipboard(&mut self, text: &str) -> (r: Result<(), PortError>)
        ensures
            final(self).port_calls() == old(self).port_calls().push(ChooserCall::SetText(text@)),
            final(self).session() == old(self).session(),
            final(self).next_session_id() == old(self).next_session_id(),
    {
        let r = self.clipboard.set_text(text);
        self.calls = Ghost(self.calls@.push(ChooserCall::SetText(text@)));
        r
    }

    /// Creates an empty result service over explicit operating-system ports.
    pub fn new(browser: Arc<B>, clipboard: Arc<C>) -> (r: Self)
        ensures
            r.session() is None,
            r.next_session_id() == 1,
            r.port_calls() == Seq::<ChooserCall>::empty(),
    {
        Self { browser, clipboard, next_session: 1, pending: None, calls: Ghost(Seq::empty()) }
    }

    /// Replaces any prior chooser content and returns the new inert view.
    pub fn publish(&mut self, items: Vec<ClassifiedResult>) -> (r: PendingResultsView)
        ensures
            r.session_id == old(self).next_session_id(),
            final(self).next_session_id() == following_session(old(self).next_session_id()),
            final(self).session() == Some((old(self).next_session_id(), items@)),
            r.items@.map_values(|v: ResultItemView| v@) == item_views(items@),
            final(self).port_calls() == old(self).port_calls(),
    {
        let id = self.next_session;
        self.next_session = self.next_session.wrapping_add(1);
        let views = views_of(&items);
        self.pending = Some(PendingSession { id, items });
        PendingResultsView { session_id: id, items: views }
    }

    /// Returns the current chooser view without exposing action-capable values.
    pub fn snapshot(&self) -> (r: Option<PendingResultsView>)
        ensures
            r is Some <==> self.session() is Some,
            r matches Some(v) ==> (self.session() matches Some(s) && v.session_id == s.0
                && v.items@.map_values(|i: ResultItemView| i@) == item_views(s.1)),
    {
        match &self.pending {
            Some(p) => Some(PendingResultsView { session_id: p.id, items: views_of(&p.items) }),
            None => None,
        }
    }

    /// Clears a session only if it is still current; `None` clears whatever is pending.
    pub fn clear(&mut self, session_id: Option<u64>)
        ensures
            final(self).next_session_id() == old(self).next_session_id(),
            final(self).port_calls() == old(self).port_calls(),
            (session_id is None || (old(self).session() matches Some(s) && Some(s.0) == session_id))
                ==> final(self).session() is None,
            !(session_id is None || (old(self).session() matches Some(s) && Some(s.0) == session_id))
                ==> final(self).session() == old(self).session(),
    {
        let matches = match (&self.pending, session_id) {
            (_, None) => true,
            (Some(p), Some(id)) => p.id == id,
            (None, Some(_)) => false,
        };
        if matches {
            self.pending = None;
        }
    }

    /// Decides what an action does, or why it is refused: opening hands the approved URL
    /// of the indexed item to the browser, copying hands the item's copy text, copying all
    /// hands the copyable texts joined by newlines, dismissing calls no port.
    pub fn plan(&self, request: &ResultActionRequest) -> (r: Result<PlannedAction, ResultActionError>)
        ensures
            plan_spec(self.session(), *request) matches Err(f) ==> (r matches Err(e) && e@ == f),
            plan_spec(self.session(), *request) matches Ok(p) ==> (r matches Ok(a) && match p {
                ActionPlan::Open(i) => a matches PlannedAction::Open(url) && self.session() matches Some(
                    s,
                ) && s.1[i].class_view() == (PayloadView::SafeUrl {
                    normalized: url@.0,
                    identity: url@.1,
                    scheme: url@.2,
                }),
                ActionPlan::Copy(t) => a matches PlannedAction::Copy(s) && s@ == t,
                ActionPlan::CopyAll(t) => a matches PlannedAction::CopyAll(s) && s@ == t,
                ActionPlan::Dismiss => a is Dismiss,
            }),
    {
        let session = match &self.pending {
            Some(p) => p,
            None => return Err(ResultActionError::StaleSession),
        };
        if session.id != request.session_id {
            return Err(ResultActionError::StaleSession);
        }
        match request.action {
            ResultActionKind::Open => {
                let item = indexed_item(session, request.index)?;
                match &item.class {
                    PayloadClass::SafeUrl(url) => Ok(PlannedAction::Open(url.duplicate())),
                    _ => Err(ResultActionError::NotOpenable),
                }
            },
            ResultActionKind::Copy => {
                let item = indexed_item(session, request.index)?;
                match &item.copy_text {
                    Some(t) => Ok(PlannedAction::Copy(t.clone())),
                    None => Err(ResultActionError::NotCopyable),
                }
            },
            ResultActionKind::CopyAll => {
                if request.index.is_some() {
                    return Err(ResultActionError::InvalidRequest);
                }
                let joined = join_copy_texts(&session.items);
                if joined.unicode_len() == 0 {
                    return Err(ResultActionError::NotCopyable);
                }
                Ok(PlannedAction::CopyAll(joined))
            },
            ResultActionKind::Dismiss => {
                if request.index.is_some() {
                    return Err(ResultActionError::InvalidRequest);
                }
                Ok(PlannedAction::Dismiss)
            },
        }
    }

    /// Applies one validated chooser action. Refused requests change nothing; opening a
    /// link and dismissing close the session; copies keep it.
    pub fn perform(&mut self, request: &ResultActionRequest) -> (r: Result<
        ResultActionOutcome,
        ResultActionError,
    >)
        ensures
            final(self).next_session_id() == old(self).next_session_id(),
            plan_spec(old(self).session(), *request) matches Err(f) ==> (r matches Err(e) && e@
                == f && final(self).session() == old(self).session() && final(self).port_calls()
                == old(self).port_calls()),
            plan_spec(old(self).session(), *request) matches Ok(p) ==> (old(self).session() matches Some(
                s,
            ) && final(self).port_calls() == old(self).port_calls() + plan_calls(s.1, p)),
            plan_spec(old(self).session(), *request) matches Ok(p) ==> match p {
                ActionPlan::Dismiss => (r matches Ok(o) && outcome_is(o, "Results dismissed", true))
                    && final(self).session() is None,
                ActionPlan::Open(_) => ((r matches Ok(o) && outcome_is(o, "Link opened", true))
                    && final(self).session() is None) || ((r matches Err(e) && e@ is Browser)
                    && final(self).session() == old(self).session()),
                ActionPlan::Copy(_) => ((r matches Ok(o) && outcome_is(o, "Result copied", false))
                    || (r matches Err(e) && e@ is Clipboard)) && final(self).session() == old(
                    self,
                ).session(),
                ActionPlan::CopyAll(_) => ((r matches Ok(o) && outcome_is(
                    o,
                    "Copyable results copied in scan order",
                    false,
                )) || (r matches Err(e) && e@ is Clipboard)) && final(self).session() == old(
                    self,
                ).session(),
            },
    {
        let planned = self.plan(request)?;
        let port_result = match &planned {
            PlannedAction::Open(url) => self.open_in_browser(url),
            PlannedAction::Copy(text) => self.copy_to_clipboard(text.as_str()),
            PlannedAction::CopyAll(text) => self.copy_to_clipboard(text.as_str()),
            PlannedAction::Dismiss => Ok(()),
        };
        let r = action_outcome(&planned, port_result);
        if let Ok(o) = &r {
            if o.close {
                self.pending = None;
            }
        }
        r
    }
}

/// What an action reports once its port call, if any, has answered: a port failure is
/// reported as that port's error; otherwise the action's fixed message, closing the
/// chooser for opening and dismissing.
pub fn action_outcome(planned: &PlannedAction, port_result: Result<(), PortError>) -> (r: Result<
    ResultActionOutcome,
    ResultActionError,
>)
    ensures
        match planned {
            PlannedAction::Open(_) => match port_result {
                Ok(_) => r matches Ok(o) && outcome_is(o, "Link opened", true),
                Err(e) => r == Err::<ResultActionOutcome, ResultActionError>(ResultActionError::Browser(e)),
            },
            PlannedAction::Copy(_) => match port_result {
                Ok(_) => r matches Ok(o) && outcome_is(o, "Result copied", false),
                Err(e) => r == Err::<ResultActionOutcome, ResultActionError>(ResultActionError::Clipboard(e)),
            },
            PlannedAction::CopyAll(_) => match port_result {
                Ok(_) => r matches Ok(o) && outcome_is(o, "Copyable results copied in scan order", false),
                Err(e) => r == Err::<ResultActionOutcome, ResultActionError>(ResultActionError::Clipboard(e)),
            },
            PlannedAction::Dismiss => r matches Ok(o) && outcome_is(o, "Results dismissed", true),
        },
{
    match planned {
        PlannedAction::Open(_) => match port_result {
            Ok(()) => Ok(ResultActionOutcome { message: "Link opened", close: true }),
            Err(e) => Err(ResultActionError::Browser(e)),
        },
        PlannedAction::Copy(_) => match port_result {
            Ok(()) => Ok(ResultActionOutcome { message: "Result copied", close: false }),
            Err(e) => Err(ResultActionError::Clipboard(e)),
        },
        PlannedAction::CopyAll(_) => match port_result {
            Ok(()) => Ok(ResultActionOutcome { message: "Copyable results copied in scan order", close: false }),
            Err(e) => Err(ResultActionError::Clipboard(e)),
        },
        PlannedAction::Dismiss => Ok(ResultActionOutcome { message: "Results dismissed", close: true }),
    }
}

fn views_of(items: &Vec<ClassifiedResult>) -> (r: Vec<ResultItemView>)
    ensures
        r@.map_values(|v: ResultItemView| v@) == item_views(items@),
{
    let mut out: Vec<ResultItemView> = Vec::new();
    let mut i: usize = 0;
    while i < items.len()
        invariant
            i <= items.len(),
            out.len() == i,
            forall|j: int| 0 <= j < i ==> (#[trigger] out[j])@ == items[j].item_view(),
        decreases items.len() - i,
    {
        out.push(items[i].view.clone());
        i = i + 1;
    }
    assert(out@.map_values(|v: ResultItemView| v@) =~= item_views(items@));
    out
}

fn indexed_item(session: &PendingSession, index: Option<usize>) -> (r: Result<
    &ClassifiedResult,
    ResultActionError,
>)
    ensures
        indexed_spec(session.items@, index) matches Err(f) ==> (r matches Err(e) && e@ == f),
        indexed_spec(session.items@, index) matches Ok(i) ==> (r matches Ok(item) && *item
            == session.items@[i]),
{
    let i = match index {
        Some(i) => i,
        None => return Err(ResultActionError::InvalidRequest),
    };
    if i < session.items.len() && session.items[i].view.index == i {
        Ok(&session.items[i])
    } else {
        Err(ResultActionError::InvalidIndex)
    }
}

fn join_copy_texts(items: &Vec<ClassifiedResult>) -> (r: String)
    ensures
        r@ == join_lines(copy_texts(items@)),
{
    let mut out = String::new();
    let mut count: usize = 0;
    let mut i: usize = 0;
    proof {
        assert(items@.take(0) =~= Seq::<ClassifiedResult>::empty());
    }
    while i < items.len()
        invariant
            i <= items.len(),
            count == copy_texts(items@.take(i as int)).len(),
            count <= i,
            out@ == join_lines(copy_texts(items@.take(i as int))),
        decreases items.len() - i,
    {
        let ghost prev = copy_texts(items@.take(i as int));
        proof {
            assert(items@.take(i + 1).drop_last() =~= items@.take(i as int));
            assert(items@.take(i + 1).last() == items@[i as int]);
        }
        match &items[i].copy_text {
            Some(t) => {
                if count > 0 {
                    push_char(&mut out, '\n');
                }
                out.append(t.as_str());
                proof {
                    let now = prev.push(t@);
                    assert(now.drop_last() =~= prev);
                    if count == 0 {
                        assert(out@ =~= t@);
                    } else {
                        assert(out@ =~= join_lines(prev) + seq!['\n'] + t@);
                    }
                }
                count = count + 1;
            },
            None => {},
        }
        i = i + 1;
    }
    proof {
        assert(items@.take(items.len() as int) =~= items@);
    }
    out
}

} // verus!

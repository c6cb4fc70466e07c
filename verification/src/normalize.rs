//! The normalizer: maps one raw accessibility notification, together with the
//! facts the provider could supply about the triggering element, into one
//! `UiEvent`.
//!
//! Every provider query is fallible; a failed lookup leaves the corresponding
//! field absent and never aborts the event. The provider's answers arrive
//! here as plain values in an [`ElementSnapshot`]; the platform layer that
//! performs the actual object-model calls fills one in per notification.
use vstd::prelude::*;

use crate::event::ApplicationInfo;
use crate::event::ApplicationInfoModel;
use crate::event::ElementDetails;
use crate::event::ElementDetailsModel;
use crate::event::EventType;
use crate::event::JsonValue;
use crate::event::JsonValueModel;
use crate::event::Position;
use crate::event::Size;
use crate::event::UiEvent;
use crate::event::WindowInfo;
use crate::event::WindowInfoModel;
use crate::event::view_opt_string;
use crate::text::str_eq;

verus! {

/// An element attribute value as the platform layer decoded it from the
/// provider's object model: one variant per concrete source type, or
/// `Unrecognized` for a type outside the decoded set.
#[derive(Clone, Debug, PartialEq)]
pub enum RawValue {
    Str(String),
    Int(i64),
    Bool(bool),
    /// A point in time, as seconds and nanoseconds since the Unix epoch.
    Date { secs: i64, nanos: u32 },
    Unrecognized,
}

/// Ghost model of a `RawValue`.
pub enum RawValueModel {
    Str(Seq<char>),
    Int(int),
    Bool(bool),
    Date { secs: int, nanos: int },
    Unrecognized,
}

impl View for RawValue {
    type V = RawValueModel;

    open spec fn view(&self) -> RawValueModel {
        match self {
            RawValue::Str(s) => RawValueModel::Str(s@),
            RawValue::Int(n) => RawValueModel::Int(*n as int),
            RawValue::Bool(b) => RawValueModel::Bool(*b),
            RawValue::Date { secs, nanos } => RawValueModel::Date {
                secs: *secs as int,
                nanos: *nanos as int,
            },
            RawValue::Unrecognized => RawValueModel::Unrecognized,
        }
    }
}

/// The provider's answers about one ancestor in an element's parent chain.
#[derive(Clone, Debug, PartialEq)]
pub struct AncestorFacts {
    /// The ancestor's role, when the role query succeeded.
    pub role: Option<String>,
    /// The ancestor's raw title attribute, when present and a string.
    pub title: Option<String>,
}

/// Ghost model of `AncestorFacts`.
pub struct AncestorFactsModel {
    pub role: Option<Seq<char>>,
    pub title: Option<Seq<char>>,
}

impl View for AncestorFacts {
    type V = AncestorFactsModel;

    open spec fn view(&self) -> AncestorFactsModel {
        AncestorFactsModel {
            role: view_opt_string(self.role),
            title: view_opt_string(self.title),
        }
    }
}

/// Everything the platform layer could learn about the element that
/// triggered a notification. Each field is the answer of one fallible
/// provider query; `None` records that the query failed or returned a value
/// of an unexpected type.
#[derive(Clone, Debug, PartialEq)]
pub struct ElementSnapshot {
    /// The owning process id, when `processId()` succeeded.
    pub pid: Option<i32>,
    /// The owning application's name, when the running-application lookup
    /// succeeded.
    pub app_name: Option<String>,
    /// The element's role.
    pub role: Option<String>,
    /// The element's raw title attribute.
    pub title: Option<String>,
    /// The element's raw description attribute.
    pub description: Option<String>,
    /// The element's raw help-text attribute.
    pub help: Option<String>,
    /// The element's current value.
    pub value: Option<RawValue>,
    /// The element's position, in whole pixels.
    pub position: Option<Position>,
    /// The element's size, in whole pixels.
    pub size: Option<Size>,
    /// The parent chain, nearest ancestor first, as far as it could be
    /// walked.
    pub ancestors: Vec<AncestorFacts>,
    /// The owning application's focused window, when the element and its
    /// ancestors yielded no window and that fallback query succeeded: its
    /// raw title attribute.
    pub focused_window_title: Option<Option<String>>,
}

/// Ghost model of an `ElementSnapshot`.
pub struct ElementSnapshotModel {
    pub pid: Option<int>,
    pub app_name: Option<Seq<char>>,
    pub role: Option<Seq<char>>,
    pub title: Option<Seq<char>>,
    pub description: Option<Seq<char>>,
    pub help: Option<Seq<char>>,
    pub value: Option<RawValueModel>,
    pub position: Option<crate::event::PositionModel>,
    pub size: Option<crate::event::SizeModel>,
    pub ancestors: Seq<AncestorFactsModel>,
    pub focused_window_title: Option<Option<Seq<char>>>,
}

impl View for ElementSnapshot {
    type V = ElementSnapshotModel;

    open spec fn view(&self) -> ElementSnapshotModel {
        ElementSnapshotModel {
            pid: match self.pid {
                Option::None => Option::None,
                Option::Some(p) => Option::Some(p as int),
            },
            app_name: view_opt_string(self.app_name),
            role: view_opt_string(self.role),
            title: view_opt_string(self.title),
            description: view_opt_string(self.description),
            help: view_opt_string(self.help),
            value: match self.value {
                Option::None => Option::None,
                Option::Some(v) => Option::Some(v@),
            },
            position: match self.position {
                Option::None => Option::None,
                Option::Some(p) => Option::Some(p@),
            },
            size: match self.size {
                Option::None => Option::None,
                Option::Some(s) => Option::Some(s@),
            },
            ancestors: self.ancestors@.map_values(|a: AncestorFacts| a@),
            focused_window_title: match self.focused_window_title {
                Option::None => Option::None,
                Option::Some(t) => Option::Some(view_opt_string(t)),
            },
        }
    }
}

/// A raw string attribute counts only when it is non-empty: an empty answer
/// from the provider means "no data", never "empty title".
pub open spec fn spec_nonempty(o: Option<Seq<char>>) -> Option<Seq<char>> {
    match o {
        Option::None => Option::None,
        Option::Some(s) => if s.len() > 0 {
            Option::Some(s)
        } else {
            Option::None
        },
    }
}

/// Drops an empty string attribute, keeping a non-empty one unchanged.
pub fn nonempty(o: &Option<String>) -> (r: Option<String>)
    ensures
        view_opt_string(r) == spec_nonempty(view_opt_string(*o)),
{
    match o {
        Option::None => Option::None,
        Option::Some(s) => {
            if s.as_str().is_empty() {
                Option::None
            } else {
                Option::Some(s.clone())
            }
        },
    }
}

/// The identifier fallback chain: title, then description, then help text;
/// the first non-empty answer wins.
pub open spec fn spec_identifier(s: ElementSnapshotModel) -> Option<Seq<char>> {
    if spec_nonempty(s.title) is Some {
        spec_nonempty(s.title)
    } else if spec_nonempty(s.description) is Some {
        spec_nonempty(s.description)
    } else {
        spec_nonempty(s.help)
    }
}

/// The application facts of an event: present exactly when the process id
/// could be read, carrying the name lookup's answer as it came.
pub open spec fn spec_application(s: ElementSnapshotModel) -> Option<ApplicationInfoModel> {
    match s.pid {
        Option::None => Option::None,
        Option::Some(p) => Option::Some(
            ApplicationInfoModel { name: s.app_name, pid: Option::Some(p) },
        ),
    }
}

/// The provider role string that marks a window element.
pub open spec fn spec_window_role() -> Seq<char> {
    "AXWindow"@
}

pub open spec fn role_is_window(r: Option<Seq<char>>) -> bool {
    r == Option::Some(spec_window_role())
}

/// The window taken from a chain element: its non-empty title, and no
/// platform id, which the provider does not expose here.
pub open spec fn spec_window_from_title(title: Option<Seq<char>>) -> WindowInfoModel {
    WindowInfoModel { title: spec_nonempty(title), id: Option::None }
}

/// The nearest ancestor whose role marks a window, if any.
pub open spec fn spec_first_window_ancestor(ancs: Seq<AncestorFactsModel>) -> Option<
    AncestorFactsModel,
>
    decreases ancs.len(),
{
    if ancs.len() == 0 {
        Option::None
    } else if role_is_window(ancs[0].role) {
        Option::Some(ancs[0])
    } else {
        spec_first_window_ancestor(ancs.drop_first())
    }
}

/// Window resolution policy, in priority order: the element itself when its
/// role marks a window; else the nearest window ancestor; else the owning
/// application's focused window; else no window at all.
pub open spec fn spec_window(s: ElementSnapshotModel) -> Option<WindowInfoModel> {
    if role_is_window(s.role) {
        Option::Some(spec_window_from_title(s.title))
    } else {
        match spec_first_window_ancestor(s.ancestors) {
            Option::Some(a) => Option::Some(spec_window_from_title(a.title)),
            Option::None => match s.focused_window_title {
                Option::Some(t) => Option::Some(spec_window_from_title(t)),
                Option::None => Option::None,
            },
        }
    }
}

/// How a decoded raw value may appear in the event's `value` field.
/// Every case is pinned down except a date, whose rendering is delegated to
/// the calendar library: there the field is either absent, or holds exactly
/// the rendered text.
pub open spec fn value_matches_raw(raw: Option<RawValueModel>, v: Option<JsonValueModel>) -> bool {
    match raw {
        Option::None => v is None,
        Option::Some(RawValueModel::Str(s)) => v == Option::Some(JsonValueModel::Str(s)),
        Option::Some(RawValueModel::Int(n)) => v == Option::Some(JsonValueModel::Int(n)),
        Option::Some(RawValueModel::Bool(b)) => v == Option::Some(JsonValueModel::Bool(b)),
        Option::Some(RawValueModel::Unrecognized) => v is None,
        Option::Some(RawValueModel::Date { secs, nanos }) => {
            ||| v is None
            ||| v == Option::Some(JsonValueModel::Str(rfc3339_of(secs, nanos)))
        },
    }
}

/// The text that rendering the instant `secs`/`nanos` (Unix epoch, UTC) in
/// RFC 3339 form produces: a function of the instant alone.
pub uninterp spec fn rfc3339_of(secs: int, nanos: int) -> Seq<char>;

/// Relies on chrono's `DateTime::from_timestamp` and `to_rfc3339`: renders a
/// Unix instant as RFC 3339 text. The result depends on the two arguments
/// alone; `from_timestamp` answers `None` only outside its documented
/// calendar range, which contains every instant up to the year 2100 with
/// in-range nanoseconds.
#[verifier::external_body]
fn rfc3339_utc(secs: i64, nanos: u32) -> (r: Option<String>)
    ensures
        r matches Option::Some(t) ==> t@ == rfc3339_of(secs as int, nanos as int),
        0 <= secs < 4102444800 && nanos < 1000000000 ==> r is Some,
{
    chrono::DateTime::from_timestamp(secs, nanos).map(|d| d.to_rfc3339())
}

/// Decodes a raw attribute value into the event's JSON scalar form. A date
/// is rendered as RFC 3339 text; an unrecognized source type yields no
/// value.
pub fn raw_value_to_json(raw: &RawValue) -> (r: Option<JsonValue>)
    ensures
        value_matches_raw(
            Option::Some(raw@),
            match r {
                Option::None => Option::None,
                Option::Some(v) => Option::Some(v@),
            },
        ),
        raw@ matches RawValueModel::Date { secs, nanos } && 0 <= secs < 4102444800 && 0 <= nanos
            < 1000000000 ==> r is Some,
{
    match raw {
        RawValue::Str(s) => Option::Some(JsonValue::Str(s.clone())),
        RawValue::Int(n) => Option::Some(JsonValue::Int(*n)),
        RawValue::Bool(b) => Option::Some(JsonValue::Bool(*b)),
        RawValue::Date { secs, nanos } => match rfc3339_utc(*secs, *nanos) {
            Option::Some(t) => Option::Some(JsonValue::Str(t)),
            Option::None => Option::None,
        },
        RawValue::Unrecognized => Option::None,
    }
}

/// Applies the window resolution policy of [`spec_window`] to a snapshot.
pub fn resolve_window(snap: &ElementSnapshot) -> (r: Option<WindowInfo>)
    ensures
        match r {
            Option::None => spec_window(snap@) is None,
            Option::Some(w) => spec_window(snap@) == Option::Some(w@),
        },
{
    let self_is_window = match &snap.role {
        Option::Some(r) => str_eq(r.as_str(), "AXWindow"),
        Option::None => false,
    };
    if self_is_window {
        return Option::Some(WindowInfo { title: nonempty(&snap.title), id: Option::None });
    }
    let ghost ancs = snap@.ancestors;
    proof {
        assert(ancs.skip(0) =~= ancs);
    }
    let n = snap.ancestors.len();
    let mut i: usize = 0;
    while i < n
        invariant
            n == snap.ancestors.len(),
            ancs == snap@.ancestors,
            ancs.len() == n,
            i <= n,
            !role_is_window(snap@.role),
            forall|j: int| 0 <= j < ancs.len() ==> ancs[j] == snap.ancestors@[j]@,
            spec_first_window_ancestor(ancs) == spec_first_window_ancestor(ancs.skip(i as int)),
        decreases n - i,
    {
        let anc = &snap.ancestors[i];
        let is_window = match &anc.role {
            Option::Some(r) => str_eq(r.as_str(), "AXWindow"),
            Option::None => false,
        };
        proof {
            assert(ancs.skip(i as int)[0] == ancs[i as int]);
        }
        if is_window {
            proof {
                assert(role_is_window(ancs[i as int].role));
                assert(spec_first_window_ancestor(ancs.skip(i as int)) == Option::Some(
                    ancs[i as int],
                ));
            }
            return Option::Some(WindowInfo { title: nonempty(&anc.title), id: Option::None });
        }
        proof {
            assert(ancs.skip(i as int).drop_first() =~= ancs.skip(i as int + 1));
        }
        i = i + 1;
    }
    proof {
        assert(ancs.skip(n as int).len() == 0);
    }
    match &snap.focused_window_title {
        Option::Some(t) => Option::Some(WindowInfo { title: nonempty(t), id: Option::None }),
        Option::None => Option::None,
    }
}

/// How extracted element details relate to the snapshot they came from:
/// every field pinned to its query's answer, the identifier to its fallback
/// chain, the value to its decoding.
pub open spec fn details_match(s: ElementSnapshotModel, d: ElementDetailsModel) -> bool {
    &&& d.role == s.role
    &&& d.identifier == spec_identifier(s)
    &&& value_matches_raw(s.value, d.value)
    &&& d.position == s.position
    &&& d.size == s.size
}

/// Builds the element details of an event from a snapshot. Never fails:
/// every unavailable fact is simply left absent.
pub fn extract_details(snap: &ElementSnapshot) -> (d: ElementDetails)
    ensures
        details_match(snap@, d@),
{
    let identifier = match nonempty(&snap.title) {
        Option::Some(t) => Option::Some(t),
        Option::None => match nonempty(&snap.description) {
            Option::Some(t) => Option::Some(t),
            Option::None => nonempty(&snap.help),
        },
    };
    let value = match &snap.value {
        Option::Some(raw) => raw_value_to_json(raw),
        Option::None => Option::None,
    };
    ElementDetails {
        role: snap.role.clone(),
        identifier,
        value,
        position: snap.position,
        size: snap.size,
    }
}

/// How a normalized event relates to the notification it came from: the
/// recognized kind and the stamped time, with every optional field filled
/// best-effort from the snapshot and nothing else.
pub open spec fn event_matches_snapshot(
    t: EventType,
    ts: int,
    s: ElementSnapshotModel,
    e: crate::event::UiEventModel,
) -> bool {
    &&& e.event_type == t
    &&& e.timestamp == ts
    &&& e.application == spec_application(s)
    &&& e.window == spec_window(s)
    &&& match e.element {
        Option::Some(d) => details_match(s, d),
        Option::None => false,
    }
    &&& e.event_specific_data is None
}

/// Builds the event for one recognized notification at a given time.
/// Extraction of each field is independently fallible and never aborts the
/// event: a failed lookup leaves its field absent while the others proceed.
pub fn normalize(event_type: EventType, timestamp: i64, snap: &ElementSnapshot) -> (e: UiEvent)
    ensures
        event_matches_snapshot(event_type, timestamp as int, snap@, e@),
{
    let application = match snap.pid {
        Option::Some(p) => Option::Some(
            ApplicationInfo { name: snap.app_name.clone(), pid: Option::Some(p) },
        ),
        Option::None => Option::None,
    };
    UiEvent {
        event_type,
        timestamp,
        application,
        window: resolve_window(snap),
        element: Option::Some(extract_details(snap)),
        event_specific_data: Option::None,
    }
}

/// The notification names of the provider's recognized set, each mapped to
/// its event kind; any other name is outside the set and is ignored.
pub open spec fn spec_event_type_of_notification(name: Seq<char>) -> Option<EventType> {
    if name == "AXFocusedWindowChanged"@ {
        Option::Some(EventType::WindowFocused)
    } else if name == "AXFocusedUIElementChanged"@ {
        Option::Some(EventType::ElementFocused)
    } else if name == "AXValueChanged"@ {
        Option::Some(EventType::ValueChanged)
    } else if name == "AXWindowCreated"@ {
        Option::Some(EventType::WindowCreated)
    } else if name == "AXWindowMoved"@ {
        Option::Some(EventType::WindowMoved)
    } else if name == "AXWindowResized"@ {
        Option::Some(EventType::WindowResized)
    } else if name == "AXUIElementDestroyed"@ {
        Option::Some(EventType::ElementDestroyed)
    } else if name == "AXMenuOpened"@ {
        Option::Some(EventType::MenuOpened)
    } else if name == "AXMenuClosed"@ {
        Option::Some(EventType::MenuClosed)
    } else if name == "AXMenuItemSelected"@ {
        Option::Some(EventType::MenuItemSelected)
    } else if name == "AXSelectedTextChanged"@ {
        Option::Some(EventType::SelectedTextChanged)
    } else if name == "AXTitleChanged"@ {
        Option::Some(EventType::TitleChanged)
    } else {
        Option::None
    }
}

/// Maps a provider notification name to its event kind, or to nothing when
/// the notification is outside the recognized set.
pub fn event_type_for_notification(name: &str) -> (r: Option<EventType>)
    ensures
        r == spec_event_type_of_notification(name@),
{
    if str_eq(name, "AXFocusedWindowChanged") {
        Option::Some(EventType::WindowFocused)
    } else if str_eq(name, "AXFocusedUIElementChanged") {
        Option::Some(EventType::ElementFocused)
    } else if str_eq(name, "AXValueChanged") {
        Option::Some(EventType::ValueChanged)
    } else if str_eq(name, "AXWindowCreated") {
        Option::Some(EventType::WindowCreated)
    } else if str_eq(name, "AXWindowMoved") {
        Option::Some(EventType::WindowMoved)
    } else if str_eq(name, "AXWindowResized") {
        Option::Some(EventType::WindowResized)
    } else if str_eq(name, "AXUIElementDestroyed") {
        Option::Some(EventType::ElementDestroyed)
    } else if str_eq(name, "AXMenuOpened") {
        Option::Some(EventType::MenuOpened)
    } else if str_eq(name, "AXMenuClosed") {
        Option::Some(EventType::MenuClosed)
    } else if str_eq(name, "AXMenuItemSelected") {
        Option::Some(EventType::MenuItemSelected)
    } else if str_eq(name, "AXSelectedTextChanged") {
        Option::Some(EventType::SelectedTextChanged)
    } else if str_eq(name, "AXTitleChanged") {
        Option::Some(EventType::TitleChanged)
    } else {
        Option::None
    }
}

/// The time a new observation is stamped with: the clock's answer, unless an
/// earlier event from the same source already carried a later time.
pub open spec fn spec_stamp(last: int, now: int) -> int {
    if now > last {
        now
    } else {
        last
    }
}

/// Relies on chrono's `Utc::now`: reads the wall clock as milliseconds since
/// the Unix epoch, UTC. Nothing is promised of the value: the clock may
/// answer anything, and may move backwards between calls.
#[verifier::external_body]
fn now_millis() -> i64 {
    chrono::Utc::now().timestamp_millis()
}

/// The per-source normalizer state: remembers the last stamped time so that
/// the events of one source carry monotonically non-decreasing timestamps
/// even when the wall clock steps backwards.
pub struct Normalizer {
    last_timestamp: i64,
}

impl Normalizer {
    pub closed spec fn last(&self) -> int {
        self.last_timestamp as int
    }

    /// A fresh source: no event stamped yet, so the first clock answer is
    /// taken as it comes.
    pub fn new() -> (n: Normalizer)
        ensures
            n.last() == i64::MIN,
    {
        Normalizer { last_timestamp: i64::MIN }
    }

    /// Stamps one observation: returns the clock answer clamped to be no
    /// earlier than the previous stamp, and remembers it.
    pub fn stamp(&mut self, now: i64) -> (t: i64)
        ensures
            t as int == spec_stamp(old(self).last(), now as int),
            final(self).last() == t as int,
            t as int >= old(self).last(),
            t >= now,
    {
        if now > self.last_timestamp {
            self.last_timestamp = now;
        }
        self.last_timestamp
    }

    /// Handles one raw notification: maps its name, and for a recognized one
    /// builds the event from the snapshot, stamped with the current wall
    /// clock time. An unrecognized name is ignored, not an error, and leaves
    /// the source state untouched.
    pub fn observe(&mut self, notification: &str, snap: &ElementSnapshot) -> (r: Option<UiEvent>)
        ensures
            spec_event_type_of_notification(notification@) is None ==> r is None && *final(self)
                == *old(self),
            spec_event_type_of_notification(notification@) matches Option::Some(t) ==> {
                &&& r matches Option::Some(e)
                &&& event_matches_snapshot(t, e.timestamp as int, snap@, e@)
                &&& e.timestamp as int >= old(self).last()
                &&& final(self).last() == e.timestamp as int
            },
    {
        match event_type_for_notification(notification) {
            Option::None => Option::None,
            Option::Some(t) => {
                let now = now_millis();
                let ts = self.stamp(now);
                Option::Some(normalize(t, ts, snap))
            },
        }
    }

    /// Handles one application-activation announcement: an event of kind
    /// `ApplicationActivated` naming the process, with no window or element
    /// facts, stamped with the current wall clock time.
    pub fn observe_activation(&mut self, pid: i32, app_name: Option<String>) -> (e: UiEvent)
        ensures
            activation_matches(pid as int, view_opt_string(app_name), e@),
            e.timestamp as int >= old(self).last(),
            final(self).last() == e.timestamp as int,
    {
        let now = now_millis();
        let ts = self.stamp(now);
        activation_event(ts, pid, app_name)
    }
}

/// How an activation event relates to the announcement it came from.
pub open spec fn activation_matches(
    pid: int,
    app_name: Option<Seq<char>>,
    e: crate::event::UiEventModel,
) -> bool {
    &&& e.event_type == EventType::ApplicationActivated
    &&& e.application == Option::Some(
        ApplicationInfoModel { name: app_name, pid: Option::Some(pid) },
    )
    &&& e.window is None
    &&& e.element is None
    &&& e.event_specific_data is None
}

/// Builds the event for one application activation at a given time.
pub fn activation_event(timestamp: i64, pid: i32, app_name: Option<String>) -> (e: UiEvent)
    ensures
        activation_matches(pid as int, view_opt_string(app_name), e@),
        e.timestamp == timestamp,
{
    UiEvent {
        event_type: EventType::ApplicationActivated,
        timestamp,
        application: Option::Some(ApplicationInfo { name: app_name, pid: Option::Some(pid) }),
        window: Option::None,
        element: Option::None,
        event_specific_data: Option::None,
    }
}

/// Timestamps from one source never decrease: whatever the clock answers
/// for the next observation, its stamp is at least the previous one's.
pub proof fn lemma_stamps_monotonic(last: int, now1: int, now2: int)
    ensures
        spec_stamp(spec_stamp(last, now1), now2) >= spec_stamp(last, now1),
{
}

} // verus!

//! The normalized event schema: the `UiEvent` data model that every raw
//! notification is mapped into, together with the ghost models the codec and
//! the pipeline contracts speak of.
//!
//! Every field other than `event_type` and `timestamp` is independently
//! optional: absence means "unknown to the provider", never an empty or
//! default value.
use vstd::prelude::*;

verus! {

/// The closed set of recognized state-change notifications. Consumers must
/// tolerate values they do not know; extending this set is additive only.
#[derive(Clone, Copy, Debug, PartialEq, Eq, Structural)]
pub enum EventType {
    ApplicationActivated,
    ApplicationDeactivated,
    WindowFocused,
    WindowCreated,
    WindowMoved,
    WindowResized,
    ElementFocused,
    ValueChanged,
    ElementDestroyed,
    MenuOpened,
    MenuClosed,
    MenuItemSelected,
    SelectionChanged,
    SelectedTextChanged,
    TitleChanged,
}

/// A JSON scalar carried in the `value` and `event_specific_data` fields.
/// The provider's open-ended attribute space is decoded into this closed
/// tagged form, one variant per concrete source type.
#[derive(Clone, Debug, PartialEq)]
pub enum JsonValue {
    Null,
    Bool(bool),
    Int(i64),
    Str(String),
}

/// The application that owns the element a notification concerns.
#[derive(Clone, Debug, PartialEq)]
pub struct ApplicationInfo {
    pub name: Option<String>,
    pub pid: Option<i32>,
}

/// The window resolved for a notification, when any could be found.
#[derive(Clone, Debug, PartialEq)]
pub struct WindowInfo {
    pub title: Option<String>,
    pub id: Option<String>,
}

/// An on-screen position in whole pixels.
#[derive(Clone, Copy, Debug, PartialEq, Eq, Structural)]
pub struct Position {
    pub x: i64,
    pub y: i64,
}

/// An on-screen extent in whole pixels.
#[derive(Clone, Copy, Debug, PartialEq, Eq, Structural)]
pub struct Size {
    pub width: i64,
    pub height: i64,
}

/// Best-effort facts about the element a notification concerns.
#[derive(Clone, Debug, PartialEq)]
pub struct ElementDetails {
    pub role: Option<String>,
    pub identifier: Option<String>,
    pub value: Option<JsonValue>,
    pub position: Option<Position>,
    pub size: Option<Size>,
}

/// One normalized state-change event: the unit of work of the whole pipeline.
/// Constructed once by the normalizer, immutable thereafter, serialized once
/// by the broadcaster.
#[derive(Clone, Debug, PartialEq)]
pub struct UiEvent {
    pub event_type: EventType,
    /// Milliseconds since the Unix epoch, UTC.
    pub timestamp: i64,
    pub application: Option<ApplicationInfo>,
    pub window: Option<WindowInfo>,
    pub element: Option<ElementDetails>,
    pub event_specific_data: Option<JsonValue>,
}

/// Ghost model of a `JsonValue`: integers unbounded, strings as character
/// sequences.
pub enum JsonValueModel {
    Null,
    Bool(bool),
    Int(int),
    Str(Seq<char>),
}

/// Ghost model of an `ApplicationInfo`.
pub struct ApplicationInfoModel {
    pub name: Option<Seq<char>>,
    pub pid: Option<int>,
}

/// Ghost model of a `WindowInfo`.
pub struct WindowInfoModel {
    pub title: Option<Seq<char>>,
    pub id: Option<Seq<char>>,
}

/// Ghost model of a `Position`.
pub struct PositionModel {
    pub x: int,
    pub y: int,
}

/// Ghost model of a `Size`.
pub struct SizeModel {
    pub width: int,
    pub height: int,
}

/// Ghost model of an `ElementDetails`.
pub struct ElementDetailsModel {
    pub role: Option<Seq<char>>,
    pub identifier: Option<Seq<char>>,
    pub value: Option<JsonValueModel>,
    pub position: Option<PositionModel>,
    pub size: Option<SizeModel>,
}

/// Ghost model of a `UiEvent`: what the codec's and the pipeline's contracts
/// are stated over.
pub struct UiEventModel {
    pub event_type: EventType,
    pub timestamp: int,
    pub application: Option<ApplicationInfoModel>,
    pub window: Option<WindowInfoModel>,
    pub element: Option<ElementDetailsModel>,
    pub event_specific_data: Option<JsonValueModel>,
}

pub open spec fn view_opt_string(s: Option<String>) -> Option<Seq<char>> {
    match s {
        Option::None => Option::None,
        Option::Some(v) => Option::Some(v@),
    }
}

impl View for JsonValue {
    type V = JsonValueModel;

    open spec fn view(&self) -> JsonValueModel {
        match self {
            JsonValue::Null => JsonValueModel::Null,
            JsonValue::Bool(b) => JsonValueModel::Bool(*b),
            JsonValue::Int(n) => JsonValueModel::Int(*n as int),
            JsonValue::Str(s) => JsonValueModel::Str(s@),
        }
    }
}

impl View for ApplicationInfo {
    type V = ApplicationInfoModel;

    open spec fn view(&self) -> ApplicationInfoModel {
        ApplicationInfoModel {
            name: view_opt_string(self.name),
            pid: match self.pid {
                Option::None => Option::None,
                Option::Some(p) => Option::Some(p as int),
            },
        }
    }
}

impl View for WindowInfo {
    type V = WindowInfoModel;

    open spec fn view(&self) -> WindowInfoModel {
        WindowInfoModel { title: view_opt_string(self.title), id: view_opt_string(self.id) }
    }
}

impl View for Position {
    type V = PositionModel;

    open spec fn view(&self) -> PositionModel {
        PositionModel { x: self.x as int, y: self.y as int }
    }
}

impl View for Size {
    type V = SizeModel;

    open spec fn view(&self) -> SizeModel {
        SizeModel { width: self.width as int, height: self.height as int }
    }
}

impl View for ElementDetails {
    type V = ElementDetailsModel;

    open spec fn view(&self) -> ElementDetailsModel {
        ElementDetailsModel {
            role: view_opt_string(self.role),
            identifier: view_opt_string(self.identifier),
            value: match self.value {
                Option::None => Option::None,
                Option::Some(v) => Option::Some(v@),
            },
            position: match self.position {
                Option::None => Option::None,
                Option::Some(p) => Option::Some(p@),
            },
            size: match self.size {
                Option::None => Option::None,
                Option::Some(s) => Option::Some(s@),
            },
        }
    }
}

impl View for UiEvent {
    type V = UiEventModel;

    open spec fn view(&self) -> UiEventModel {
        UiEventModel {
            event_type: self.event_type,
            timestamp: self.timestamp as int,
            application: match self.application {
                Option::None => Option::None,
                Option::Some(a) => Option::Some(a@),
            },
            window: match self.window {
                Option::None => Option::None,
                Option::Some(w) => Option::Some(w@),
            },
            element: match self.element {
                Option::None => Option::None,
                Option::Some(e) => Option::Some(e@),
            },
            event_specific_data: match self.event_specific_data {
                Option::None => Option::None,
                Option::Some(v) => Option::Some(v@),
            },
        }
    }
}

/// A model integer that fits the wire's 64-bit signed range.
pub open spec fn i64_range(n: int) -> bool {
    i64::MIN <= n <= i64::MAX
}

/// A model integer that fits a process identifier.
pub open spec fn pid_range(n: int) -> bool {
    i32::MIN <= n <= i32::MAX
}

pub open spec fn wf_json_value(v: JsonValueModel) -> bool {
    match v {
        JsonValueModel::Int(n) => i64_range(n),
        _ => true,
    }
}

pub open spec fn wf_application(a: ApplicationInfoModel) -> bool {
    match a.pid {
        Option::None => true,
        Option::Some(p) => pid_range(p),
    }
}

pub open spec fn wf_position(p: PositionModel) -> bool {
    i64_range(p.x) && i64_range(p.y)
}

pub open spec fn wf_size(s: SizeModel) -> bool {
    i64_range(s.width) && i64_range(s.height)
}

pub open spec fn wf_element(e: ElementDetailsModel) -> bool {
    &&& match e.value {
        Option::None => true,
        Option::Some(v) => wf_json_value(v),
    }
    &&& match e.position {
        Option::None => true,
        Option::Some(p) => wf_position(p),
    }
    &&& match e.size {
        Option::None => true,
        Option::Some(s) => wf_size(s),
    }
}

/// Well-formedness of an event model: every number fits the machine range it
/// is carried in. The view of every executable `UiEvent` satisfies it.
pub open spec fn wf_event(m: UiEventModel) -> bool {
    &&& i64_range(m.timestamp)
    &&& match m.application {
        Option::None => true,
        Option::Some(a) => wf_application(a),
    }
    &&& match m.window {
        Option::None => true,
        Option::Some(_) => true,
    }
    &&& match m.element {
        Option::None => true,
        Option::Some(e) => wf_element(e),
    }
    &&& match m.event_specific_data {
        Option::None => true,
        Option::Some(v) => wf_json_value(v),
    }
}

/// The view of any executable event is well formed: the machine types
/// enforce every range `wf_event` asks for.
pub proof fn lemma_view_wf(e: &UiEvent)
    ensures
        wf_event(e@),
{
}

} // verus!

//! The canonical JSON wire encoding of a `UiEvent`.
//!
//! Every event is serialized once, by the broadcaster, into one UTF-8 text
//! frame. The encoding is canonical: fields appear in schema order, an
//! absent optional field is written as `null`, strings escape the quote,
//! the backslash and the control characters, and numbers are plain base-ten
//! integers. The ghost serialization here is the single definition the
//! serializer, the parser and the round-trip law are all held to.
use vstd::prelude::*;
use vstd::string::StrSliceExecFns;
use vstd::string::StringExecFns;

use crate::event::ApplicationInfoModel;
use crate::event::ElementDetailsModel;
use crate::event::EventType;
use crate::event::JsonValue;
use crate::event::JsonValueModel;
use crate::event::PositionModel;
use crate::event::SizeModel;
use crate::event::UiEvent;
use crate::event::UiEventModel;
use crate::event::WindowInfoModel;

verus! {

/// The character for one base-ten digit value.
pub open spec fn spec_digit(d: int) -> char {
    ((48 + d) as u8) as char
}

/// The character for one base-sixteen digit value, lower case.
pub open spec fn spec_hex_digit(d: int) -> char {
    if d < 10 {
        ((48 + d) as u8) as char
    } else {
        ((87 + d) as u8) as char
    }
}

/// The base-ten digits of a non-negative integer, no sign, no padding.
pub open spec fn spec_udigits(n: int) -> Seq<char>
    decreases n,
{
    if n < 10 {
        seq![spec_digit(n)]
    } else {
        spec_udigits(n / 10).push(spec_digit(n % 10))
    }
}

/// The base-ten rendering of an integer.
pub open spec fn spec_int(n: int) -> Seq<char> {
    if n < 0 {
        seq!['-'] + spec_udigits(-n)
    } else {
        spec_udigits(n)
    }
}

/// How one character appears inside a JSON string: the quote and the
/// backslash escaped, a control character as a four-digit escape, anything
/// else as itself.
pub open spec fn spec_escape_char(c: char) -> Seq<char> {
    if c == '"' {
        seq!['\\', '"']
    } else if c == '\\' {
        seq!['\\', '\\']
    } else if (c as u32) < 32 {
        seq!['\\', 'u', '0', '0', spec_hex_digit((c as u32) as int / 16), spec_hex_digit(
            (c as u32) as int % 16,
        )]
    } else {
        seq![c]
    }
}

/// A string's characters, each escaped.
pub open spec fn spec_escape(s: Seq<char>) -> Seq<char>
    decreases s.len(),
{
    if s.len() == 0 {
        Seq::empty()
    } else {
        spec_escape_char(s[0]) + spec_escape(s.drop_first())
    }
}

/// A JSON string: the escaped characters between quotes.
pub open spec fn spec_quoted(s: Seq<char>) -> Seq<char> {
    seq!['"'] + spec_escape(s) + seq!['"']
}

/// An optional string field: `null` when absent.
pub open spec fn spec_ser_opt_str(o: Option<Seq<char>>) -> Seq<char> {
    match o {
        Option::None => "null"@,
        Option::Some(s) => spec_quoted(s),
    }
}

/// An optional integer field: `null` when absent.
pub open spec fn spec_ser_opt_int(o: Option<int>) -> Seq<char> {
    match o {
        Option::None => "null"@,
        Option::Some(n) => spec_int(n),
    }
}

/// A JSON scalar value.
pub open spec fn spec_ser_json(v: JsonValueModel) -> Seq<char> {
    match v {
        JsonValueModel::Null => "null"@,
        JsonValueModel::Bool(b) => if b {
            "true"@
        } else {
            "false"@
        },
        JsonValueModel::Int(n) => spec_int(n),
        JsonValueModel::Str(s) => spec_quoted(s),
    }
}

/// An optional JSON scalar field: `null` when absent.
pub open spec fn spec_ser_opt_json(o: Option<JsonValueModel>) -> Seq<char> {
    match o {
        Option::None => "null"@,
        Option::Some(v) => spec_ser_json(v),
    }
}

/// The name under which an event kind appears on the wire.
pub open spec fn spec_event_type_name(t: EventType) -> Seq<char> {
    match t {
        EventType::ApplicationActivated => "ApplicationActivated"@,
        EventType::ApplicationDeactivated => "ApplicationDeactivated"@,
        EventType::WindowFocused => "WindowFocused"@,
        EventType::WindowCreated => "WindowCreated"@,
        EventType::WindowMoved => "WindowMoved"@,
        EventType::WindowResized => "WindowResized"@,
        EventType::ElementFocused => "ElementFocused"@,
        EventType::ValueChanged => "ValueChanged"@,
        EventType::ElementDestroyed => "ElementDestroyed"@,
        EventType::MenuOpened => "MenuOpened"@,
        EventType::MenuClosed => "MenuClosed"@,
        EventType::MenuItemSelected => "MenuItemSelected"@,
        EventType::SelectionChanged => "SelectionChanged"@,
        EventType::SelectedTextChanged => "SelectedTextChanged"@,
        EventType::TitleChanged => "TitleChanged"@,
    }
}

/// The application object.
pub open spec fn spec_ser_application(a: ApplicationInfoModel) -> Seq<char> {
    "{\"name\":"@ + spec_ser_opt_str(a.name) + ",\"pid\":"@ + spec_ser_opt_int(a.pid) + "}"@
}

/// The window object.
pub open spec fn spec_ser_window(w: WindowInfoModel) -> Seq<char> {
    "{\"title\":"@ + spec_ser_opt_str(w.title) + ",\"id\":"@ + spec_ser_opt_str(w.id) + "}"@
}

/// The position object.
pub open spec fn spec_ser_position(p: PositionModel) -> Seq<char> {
    "{\"x\":"@ + spec_int(p.x) + ",\"y\":"@ + spec_int(p.y) + "}"@
}

/// The size object.
pub open spec fn spec_ser_size(z: SizeModel) -> Seq<char> {
    "{\"width\":"@ + spec_int(z.width) + ",\"height\":"@ + spec_int(z.height) + "}"@
}

/// An optional position field.
pub open spec fn spec_ser_opt_position(o: Option<PositionModel>) -> Seq<char> {
    match o {
        Option::None => "null"@,
        Option::Some(p) => spec_ser_position(p),
    }
}

/// An optional size field.
pub open spec fn spec_ser_opt_size(o: Option<SizeModel>) -> Seq<char> {
    match o {
        Option::None => "null"@,
        Option::Some(z) => spec_ser_size(z),
    }
}

/// The element object.
pub open spec fn spec_ser_element(e: ElementDetailsModel) -> Seq<char> {
    "{\"role\":"@ + spec_ser_opt_str(e.role) + ",\"identifier\":"@ + spec_ser_opt_str(e.identifier)
        + ",\"value\":"@ + spec_ser_opt_json(e.value) + ",\"position\":"@ + spec_ser_opt_position(
        e.position,
    ) + ",\"size\":"@ + spec_ser_opt_size(e.size) + "}"@
}

/// An optional application field.
pub open spec fn spec_ser_opt_application(o: Option<ApplicationInfoModel>) -> Seq<char> {
    match o {
        Option::None => "null"@,
        Option::Some(a) => spec_ser_application(a),
    }
}

/// An optional window field.
pub open spec fn spec_ser_opt_window(o: Option<WindowInfoModel>) -> Seq<char> {
    match o {
        Option::None => "null"@,
        Option::Some(w) => spec_ser_window(w),
    }
}

/// An optional element field.
pub open spec fn spec_ser_opt_element(o: Option<ElementDetailsModel>) -> Seq<char> {
    match o {
        Option::None => "null"@,
        Option::Some(e) => spec_ser_element(e),
    }
}

/// The canonical wire form of one event: one JSON object, fields in schema
/// order, absent fields as `null`.
pub open spec fn spec_serialize(m: UiEventModel) -> Seq<char> {
    "{\"event_type\":\""@ + spec_event_type_name(m.event_type) + "\",\"timestamp\":"@ + spec_int(
        m.timestamp,
    ) + ",\"application\":"@ + spec_ser_opt_application(m.application) + ",\"window\":"@
        + spec_ser_opt_window(m.window) + ",\"element\":"@ + spec_ser_opt_element(m.element)
        + ",\"event_specific_data\":"@ + spec_ser_opt_json(m.event_specific_data) + "}"@
}

/// Relies on std's `String::push`: appends the one character at the end of
/// the string.
#[verifier::external_body]
pub(crate) fn push_char(out: &mut String, c: char)
    ensures
        final(out)@ == old(out)@.push(c),
{
    out.push(c);
}

/// Escaping distributes over appending one character at the back.
proof fn lemma_escape_snoc(s: Seq<char>, c: char)
    ensures
        spec_escape(s.push(c)) == spec_escape(s) + spec_escape_char(c),
    decreases s.len(),
{
    if s.len() == 0 {
        reveal_with_fuel(spec_escape, 2);
        assert(s.push(c).drop_first() =~= Seq::<char>::empty());
        assert(spec_escape(s.push(c)) =~= spec_escape_char(c));
        assert(spec_escape(s) + spec_escape_char(c) =~= spec_escape_char(c));
    } else {
        assert(s.push(c).drop_first() =~= s.drop_first().push(c));
        lemma_escape_snoc(s.drop_first(), c);
        assert(spec_escape(s.push(c)) =~= spec_escape(s) + spec_escape_char(c));
    }
}

/// Appends one character in its escaped form.
fn append_escaped_char(out: &mut String, c: char)
    ensures
        final(out)@ == old(out)@ + spec_escape_char(c),
{
    if c == '"' {
        out.append("\\\"");
        proof {
            reveal_strlit("\\\"");
            assert(out@ =~= old(out)@ + spec_escape_char(c));
        }
    } else if c == '\\' {
        out.append("\\\\");
        proof {
            reveal_strlit("\\\\");
            assert(out@ =~= old(out)@ + spec_escape_char(c));
        }
    } else {
        let code: u32 = c as u32;
        if code < 32 {
            out.append("\\u00");
            let hi: u32 = code / 16;
            let lo: u32 = code % 16;
            let hi_c: char = (48 + hi as u8) as char;
            let lo_c: char = if lo < 10 {
                (48 + lo as u8) as char
            } else {
                (87 + lo as u8) as char
            };
            push_char(out, hi_c);
            push_char(out, lo_c);
            proof {
                reveal_strlit("\\u00");
                assert(out@ =~= old(out)@ + spec_escape_char(c));
            }
        } else {
            push_char(out, c);
            assert(out@ =~= old(out)@ + spec_escape_char(c));
        }
    }
}

/// Appends a string's characters, escaped, without the surrounding quotes.
fn append_escaped(out: &mut String, s: &str)
    ensures
        final(out)@ == old(out)@ + spec_escape(s@),
{
    let len = s.unicode_len();
    let mut i: usize = 0;
    proof {
        assert(s@.take(0) =~= Seq::<char>::empty());
        assert(out@ + spec_escape(s@.take(0)) =~= out@);
    }
    while i < len
        invariant
            len == s@.len(),
            i <= len,
            out@ == old(out)@ + spec_escape(s@.take(i as int)),
        decreases len - i,
    {
        let c = s.get_char(i);
        append_escaped_char(out, c);
        proof {
            assert(s@.take(i as int).push(c) =~= s@.take(i as int + 1));
            lemma_escape_snoc(s@.take(i as int), c);
        }
        i = i + 1;
    }
    proof {
        assert(s@.take(len as int) =~= s@);
    }
}

/// Appends a JSON string: quotes around the escaped characters.
fn append_quoted(out: &mut String, s: &str)
    ensures
        final(out)@ == old(out)@ + spec_quoted(s@),
{
    out.append("\"");
    proof {
        reveal_strlit("\"");
        assert(out@ =~= old(out)@ + seq!['"']);
    }
    append_escaped(out, s);
    out.append("\"");
    proof {
        reveal_strlit("\"");
        assert(out@ =~= old(out)@ + spec_quoted(s@));
    }
}

/// Appends the base-ten digits of a non-negative number.
fn append_u64(out: &mut String, n: u64)
    ensures
        final(out)@ == old(out)@ + spec_udigits(n as int),
    decreases n,
{
    if n < 10 {
        push_char(out, (48 + n as u8) as char);
        assert(out@ =~= old(out)@ + spec_udigits(n as int));
    } else {
        append_u64(out, n / 10);
        push_char(out, (48 + (n % 10) as u8) as char);
        assert(out@ =~= old(out)@ + spec_udigits(n as int));
    }
}

/// Appends the base-ten rendering of a signed number.
fn append_i64(out: &mut String, n: i64)
    ensures
        final(out)@ == old(out)@ + spec_int(n as int),
{
    if n < 0 {
        out.append("-");
        proof {
            reveal_strlit("-");
            assert(out@ =~= old(out)@ + seq!['-']);
        }
        let mag: u64 = ((-(n + 1)) as u64) + 1;
        assert(mag as int == -(n as int));
        append_u64(out, mag);
        assert(out@ =~= old(out)@ + spec_int(n as int));
    } else {
        append_u64(out, n as u64);
    }
}

/// Appends an optional string field.
fn append_opt_str(out: &mut String, o: &Option<String>)
    ensures
        final(out)@ == old(out)@ + spec_ser_opt_str(crate::event::view_opt_string(*o)),
{
    match o {
        Option::None => out.append("null"),
        Option::Some(s) => append_quoted(out, s.as_str()),
    }
}

/// Appends a JSON scalar.
fn append_json(out: &mut String, v: &JsonValue)
    ensures
        final(out)@ == old(out)@ + spec_ser_json(v@),
{
    match v {
        JsonValue::Null => out.append("null"),
        JsonValue::Bool(b) => {
            if *b {
                out.append("true")
            } else {
                out.append("false")
            }
        },
        JsonValue::Int(n) => append_i64(out, *n),
        JsonValue::Str(s) => append_quoted(out, s.as_str()),
    }
}

/// Appends an optional JSON scalar field.
fn append_opt_json(out: &mut String, o: &Option<JsonValue>)
    ensures
        final(out)@ == old(out)@ + spec_ser_opt_json(
            match *o {
                Option::None => Option::None,
                Option::Some(v) => Option::Some(v@),
            },
        ),
{
    match o {
        Option::None => out.append("null"),
        Option::Some(v) => append_json(out, v),
    }
}

/// The wire name of an event kind.
pub fn event_type_name(t: EventType) -> (r: &'static str)
    ensures
        r@ == spec_event_type_name(t),
{
    match t {
        EventType::ApplicationActivated => "ApplicationActivated",
        EventType::ApplicationDeactivated => "ApplicationDeactivated",
        EventType::WindowFocused => "WindowFocused",
        EventType::WindowCreated => "WindowCreated",
        EventType::WindowMoved => "WindowMoved",
        EventType::WindowResized => "WindowResized",
        EventType::ElementFocused => "ElementFocused",
        EventType::ValueChanged => "ValueChanged",
        EventType::ElementDestroyed => "ElementDestroyed",
        EventType::MenuOpened => "MenuOpened",
        EventType::MenuClosed => "MenuClosed",
        EventType::MenuItemSelected => "MenuItemSelected",
        EventType::SelectionChanged => "SelectionChanged",
        EventType::SelectedTextChanged => "SelectedTextChanged",
        EventType::TitleChanged => "TitleChanged",
    }
}

/// Appends the application object.
fn append_application(out: &mut String, a: &crate::event::ApplicationInfo)
    ensures
        final(out)@ == old(out)@ + spec_ser_application(a@),
{
    out.append("{\"name\":");
    append_opt_str(out, &a.name);
    out.append(",\"pid\":");
    match a.pid {
        Option::None => out.append("null"),
        Option::Some(p) => append_i64(out, p as i64),
    }
    out.append("}");
    assert(out@ =~= old(out)@ + spec_ser_application(a@));
}

/// Appends the window object.
fn append_window(out: &mut String, w: &crate::event::WindowInfo)
    ensures
        final(out)@ == old(out)@ + spec_ser_window(w@),
{
    out.append("{\"title\":");
    append_opt_str(out, &w.title);
    out.append(",\"id\":");
    append_opt_str(out, &w.id);
    out.append("}");
    assert(out@ =~= old(out)@ + spec_ser_window(w@));
}

/// Appends the position object.
fn append_position(out: &mut String, p: &crate::event::Position)
    ensures
        final(out)@ == old(out)@ + spec_ser_position(p@),
{
    out.append("{\"x\":");
    append_i64(out, p.x);
    out.append(",\"y\":");
    append_i64(out, p.y);
    out.append("}");
    assert(out@ =~= old(out)@ + spec_ser_position(p@));
}

/// Appends the size object.
fn append_size(out: &mut String, z: &crate::event::Size)
    ensures
        final(out)@ == old(out)@ + spec_ser_size(z@),
{
    out.append("{\"width\":");
    append_i64(out, z.width);
    out.append(",\"height\":");
    append_i64(out, z.height);
    out.append("}");
    assert(out@ =~= old(out)@ + spec_ser_size(z@));
}

/// Appends the element object.
#[verifier::rlimit(50)]
fn append_element(out: &mut String, e: &crate::event::ElementDetails)
    ensures
        final(out)@ == old(out)@ + spec_ser_element(e@),
{
    out.append("{\"role\":");
    append_opt_str(out, &e.role);
    out.append(",\"identifier\":");
    append_opt_str(out, &e.identifier);
    out.append(",\"value\":");
    append_opt_json(out, &e.value);
    out.append(",\"position\":");
    match &e.position {
        Option::None => out.append("null"),
        Option::Some(p) => append_position(out, p),
    }
    out.append(",\"size\":");
    match &e.size {
        Option::None => out.append("null"),
        Option::Some(z) => append_size(out, z),
    }
    out.append("}");
    assert(out@ =~= old(out)@ + spec_ser_element(e@));
}

/// Serializes one event into its canonical JSON text frame.
pub fn serialize(e: &UiEvent) -> (out: String)
    ensures
        out@ == spec_serialize(e@),
{
    let mut out = String::new();
    out.append("{\"event_type\":\"");
    out.append(event_type_name(e.event_type));
    out.append("\",\"timestamp\":");
    append_i64(&mut out, e.timestamp);
    out.append(",\"application\":");
    match &e.application {
        Option::None => out.append("null"),
        Option::Some(a) => append_application(&mut out, a),
    }
    out.append(",\"window\":");
    match &e.window {
        Option::None => out.append("null"),
        Option::Some(w) => append_window(&mut out, w),
    }
    out.append(",\"element\":");
    match &e.element {
        Option::None => out.append("null"),
        Option::Some(d) => append_element(&mut out, d),
    }
    out.append(",\"event_specific_data\":");
    append_opt_json(&mut out, &e.event_specific_data);
    out.append("}");
    proof {
        assert(out@ =~= spec_serialize(e@));
    }
    out
}

} // verus!

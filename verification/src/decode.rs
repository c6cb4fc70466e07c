//! Parsing the canonical JSON wire form back into an event.
//!
//! The parser accepts exactly the canonical encoding the serializer
//! produces — fields in schema order, `null` for absence, lower-case
//! four-digit escapes — and hands back the event it encodes. Together with
//! the serializer it is round-trip stable: re-encoding what was parsed
//! reproduces the original text, which the laws at the end pin down.
use vstd::prelude::*;

use crate::event::ApplicationInfoModel;
use crate::event::ElementDetailsModel;
use crate::event::EventType;
use crate::event::JsonValueModel;
use crate::event::PositionModel;
use crate::event::SizeModel;
use crate::event::UiEventModel;
use crate::event::WindowInfoModel;
use crate::event::ApplicationInfo;
use crate::event::ElementDetails;
use crate::event::JsonValue;
use crate::event::Position;
use crate::event::Size;
use crate::event::UiEvent;
use crate::event::WindowInfo;
use crate::event::i64_range;
use crate::event::view_opt_string;

verus! {

/// Consumes an exact literal from the front, or fails.
pub open spec fn spec_expect(s: Seq<char>, lit: Seq<char>) -> Option<Seq<char>> {
    if lit.len() <= s.len() && s.take(lit.len() as int) == lit {
        Option::Some(s.skip(lit.len() as int))
    } else {
        Option::None
    }
}

pub open spec fn is_digit_char(c: char) -> bool {
    48 <= c as u32 <= 57
}

pub open spec fn digit_val(c: char) -> int {
    c as u32 - 48
}

/// Greedily consumes a digit run, folding it onto an accumulator.
pub open spec fn spec_parse_digits(s: Seq<char>, acc: int) -> (int, Seq<char>)
    decreases s.len(),
{
    if s.len() > 0 && is_digit_char(s[0]) {
        spec_parse_digits(s.drop_first(), acc * 10 + digit_val(s[0]))
    } else {
        (acc, s)
    }
}

/// A non-empty digit run and its value.
pub open spec fn spec_parse_uint(s: Seq<char>) -> Option<(int, Seq<char>)> {
    if s.len() > 0 && is_digit_char(s[0]) {
        Option::Some(spec_parse_digits(s, 0))
    } else {
        Option::None
    }
}

/// An optionally negated digit run.
pub open spec fn spec_parse_int(s: Seq<char>) -> Option<(int, Seq<char>)> {
    if s.len() > 0 && s[0] == '-' {
        match spec_parse_uint(s.drop_first()) {
            Option::Some((n, r)) => Option::Some((-n, r)),
            Option::None => Option::None,
        }
    } else {
        spec_parse_uint(s)
    }
}

pub open spec fn hex_val(c: char) -> int {
    if 48 <= c as u32 <= 57 {
        c as u32 - 48
    } else if 97 <= c as u32 <= 102 {
        c as u32 - 87
    } else {
        -1
    }
}

pub open spec fn is_hex_char(c: char) -> bool {
    hex_val(c) >= 0
}

/// The rest of a JSON string after its opening quote: characters up to the
/// closing quote, with the canonical escapes undone. Only the escapes the
/// encoding emits are accepted: the quote, the backslash, and `\u00` with
/// two lower-case hex digits naming a control character.
pub open spec fn spec_parse_string_body(s: Seq<char>) -> Option<(Seq<char>, Seq<char>)>
    decreases s.len(),
{
    if s.len() == 0 {
        Option::None
    } else if s[0] == '"' {
        Option::Some((Seq::empty(), s.drop_first()))
    } else if s[0] == '\\' {
        if s.len() >= 2 && (s[1] == '"' || s[1] == '\\') {
            match spec_parse_string_body(s.skip(2)) {
                Option::Some((t, r)) => Option::Some((seq![s[1]] + t, r)),
                Option::None => Option::None,
            }
        } else if s.len() >= 6 && s[1] == 'u' && s[2] == '0' && s[3] == '0' && is_hex_char(s[4])
            && is_hex_char(s[5]) && hex_val(s[4]) * 16 + hex_val(s[5]) < 32 {
            match spec_parse_string_body(s.skip(6)) {
                Option::Some((t, r)) => Option::Some(
                    (seq![(((hex_val(s[4]) * 16 + hex_val(s[5])) as u8) as char)] + t, r),
                ),
                Option::None => Option::None,
            }
        } else {
            Option::None
        }
    } else {
        match spec_parse_string_body(s.drop_first()) {
            Option::Some((t, r)) => Option::Some((seq![s[0]] + t, r)),
            Option::None => Option::None,
        }
    }
}

/// A complete JSON string, opening quote included.
pub open spec fn spec_parse_quoted(s: Seq<char>) -> Option<(Seq<char>, Seq<char>)> {
    if s.len() > 0 && s[0] == '"' {
        spec_parse_string_body(s.drop_first())
    } else {
        Option::None
    }
}

/// A JSON scalar: `null`, a boolean, a 64-bit integer or a string.
pub open spec fn spec_parse_json(s: Seq<char>) -> Option<(JsonValueModel, Seq<char>)> {
    if s.len() == 0 {
        Option::None
    } else if s[0] == 'n' {
        match spec_expect(s, "null"@) {
            Option::Some(r) => Option::Some((JsonValueModel::Null, r)),
            Option::None => Option::None,
        }
    } else if s[0] == 't' {
        match spec_expect(s, "true"@) {
            Option::Some(r) => Option::Some((JsonValueModel::Bool(true), r)),
            Option::None => Option::None,
        }
    } else if s[0] == 'f' {
        match spec_expect(s, "false"@) {
            Option::Some(r) => Option::Some((JsonValueModel::Bool(false), r)),
            Option::None => Option::None,
        }
    } else if s[0] == '"' {
        match spec_parse_string_body(s.drop_first()) {
            Option::Some((t, r)) => Option::Some((JsonValueModel::Str(t), r)),
            Option::None => Option::None,
        }
    } else {
        match spec_parse_int(s) {
            Option::Some((n, r)) => if i64_range(n) {
                Option::Some((JsonValueModel::Int(n), r))
            } else {
                Option::None
            },
            Option::None => Option::None,
        }
    }
}

/// An optional string field: `null` or a JSON string.
pub open spec fn spec_parse_opt_str(s: Seq<char>) -> Option<(Option<Seq<char>>, Seq<char>)> {
    if s.len() > 0 && s[0] == 'n' {
        match spec_expect(s, "null"@) {
            Option::Some(r) => Option::Some((Option::None, r)),
            Option::None => Option::None,
        }
    } else {
        match spec_parse_quoted(s) {
            Option::Some((t, r)) => Option::Some((Option::Some(t), r)),
            Option::None => Option::None,
        }
    }
}

/// An optional integer field: `null` or an integer within the given bounds.
pub open spec fn spec_parse_opt_bounded_int(s: Seq<char>, lo: int, hi: int) -> Option<
    (Option<int>, Seq<char>),
> {
    if s.len() > 0 && s[0] == 'n' {
        match spec_expect(s, "null"@) {
            Option::Some(r) => Option::Some((Option::None, r)),
            Option::None => Option::None,
        }
    } else {
        match spec_parse_int(s) {
            Option::Some((n, r)) => if lo <= n <= hi {
                Option::Some((Option::Some(n), r))
            } else {
                Option::None
            },
            Option::None => Option::None,
        }
    }
}

/// An optional JSON scalar field. `null` means the field is absent: the
/// canonical encoding never writes a present `null` scalar.
pub open spec fn spec_parse_opt_json(s: Seq<char>) -> Option<
    (Option<JsonValueModel>, Seq<char>),
> {
    if s.len() > 0 && s[0] == 'n' {
        match spec_expect(s, "null"@) {
            Option::Some(r) => Option::Some((Option::None, r)),
            Option::None => Option::None,
        }
    } else {
        match spec_parse_json(s) {
            Option::Some((v, r)) => Option::Some((Option::Some(v), r)),
            Option::None => Option::None,
        }
    }
}

/// The application object.
pub open spec fn spec_parse_application(s: Seq<char>) -> Option<
    (ApplicationInfoModel, Seq<char>),
> {
    match spec_expect(s, "{\"name\":"@) {
        Option::None => Option::None,
        Option::Some(r1) => match spec_parse_opt_str(r1) {
            Option::None => Option::None,
            Option::Some((name, r2)) => match spec_expect(r2, ",\"pid\":"@) {
                Option::None => Option::None,
                Option::Some(r3) => match spec_parse_opt_bounded_int(r3, i32::MIN as int, i32::MAX as int) {
                    Option::None => Option::None,
                    Option::Some((pid, r4)) => match spec_expect(r4, "}"@) {
                        Option::None => Option::None,
                        Option::Some(r5) => Option::Some(
                            (ApplicationInfoModel { name, pid }, r5),
                        ),
                    },
                },
            },
        },
    }
}

/// The window object.
pub open spec fn spec_parse_window(s: Seq<char>) -> Option<(WindowInfoModel, Seq<char>)> {
    match spec_expect(s, "{\"title\":"@) {
        Option::None => Option::None,
        Option::Some(r1) => match spec_parse_opt_str(r1) {
            Option::None => Option::None,
            Option::Some((title, r2)) => match spec_expect(r2, ",\"id\":"@) {
                Option::None => Option::None,
                Option::Some(r3) => match spec_parse_opt_str(r3) {
                    Option::None => Option::None,
                    Option::Some((id, r4)) => match spec_expect(r4, "}"@) {
                        Option::None => Option::None,
                        Option::Some(r5) => Option::Some((WindowInfoModel { title, id }, r5)),
                    },
                },
            },
        },
    }
}

/// The position object.
pub open spec fn spec_parse_position(s: Seq<char>) -> Option<(PositionModel, Seq<char>)> {
    match spec_expect(s, "{\"x\":"@) {
        Option::None => Option::None,
        Option::Some(r1) => match spec_parse_int(r1) {
            Option::None => Option::None,
            Option::Some((x, r2)) => if i64_range(x) {
                match spec_expect(r2, ",\"y\":"@) {
                    Option::None => Option::None,
                    Option::Some(r3) => match spec_parse_int(r3) {
                        Option::None => Option::None,
                        Option::Some((y, r4)) => if i64_range(y) {
                            match spec_expect(r4, "}"@) {
                                Option::None => Option::None,
                                Option::Some(r5) => Option::Some((PositionModel { x, y }, r5)),
                            }
                        } else {
                            Option::None
                        },
                    },
                }
            } else {
                Option::None
            },
        },
    }
}

/// The size object.
pub open spec fn spec_parse_size(s: Seq<char>) -> Option<(SizeModel, Seq<char>)> {
    match spec_expect(s, "{\"width\":"@) {
        Option::None => Option::None,
        Option::Some(r1) => match spec_parse_int(r1) {
            Option::None => Option::None,
            Option::Some((w, r2)) => if i64_range(w) {
                match spec_expect(r2, ",\"height\":"@) {
                    Option::None => Option::None,
                    Option::Some(r3) => match spec_parse_int(r3) {
                        Option::None => Option::None,
                        Option::Some((h, r4)) => if i64_range(h) {
                            match spec_expect(r4, "}"@) {
                                Option::None => Option::None,
                                Option::Some(r5) => Option::Some(
                                    (SizeModel { width: w, height: h }, r5),
                                ),
                            }
                        } else {
                            Option::None
                        },
                    },
                }
            } else {
                Option::None
            },
        },
    }
}

/// An optional object field, dispatching on `null` versus `{`.
pub open spec fn spec_parse_opt_application(s: Seq<char>) -> Option<
    (Option<ApplicationInfoModel>, Seq<char>),
> {
    if s.len() > 0 && s[0] == 'n' {
        match spec_expect(s, "null"@) {
            Option::Some(r) => Option::Some((Option::None, r)),
            Option::None => Option::None,
        }
    } else {
        match spec_parse_application(s) {
            Option::Some((a, r)) => Option::Some((Option::Some(a), r)),
            Option::None => Option::None,
        }
    }
}

/// An optional window field.
pub open spec fn spec_parse_opt_window(s: Seq<char>) -> Option<
    (Option<WindowInfoModel>, Seq<char>),
> {
    if s.len() > 0 && s[0] == 'n' {
        match spec_expect(s, "null"@) {
            Option::Some(r) => Option::Some((Option::None, r)),
            Option::None => Option::None,
        }
    } else {
        match spec_parse_window(s) {
            Option::Some((w, r)) => Option::Some((Option::Some(w), r)),
            Option::None => Option::None,
        }
    }
}

/// An optional position field.
pub open spec fn spec_parse_opt_position(s: Seq<char>) -> Option<
    (Option<PositionModel>, Seq<char>),
> {
    if s.len() > 0 && s[0] == 'n' {
        match spec_expect(s, "null"@) {
            Option::Some(r) => Option::Some((Option::None, r)),
            Option::None => Option::None,
        }
    } else {
        match spec_parse_position(s) {
            Option::Some((p, r)) => Option::Some((Option::Some(p), r)),
            Option::None => Option::None,
        }
    }
}

/// An optional size field.
pub open spec fn spec_parse_opt_size(s: Seq<char>) -> Option<(Option<SizeModel>, Seq<char>)> {
    if s.len() > 0 && s[0] == 'n' {
        match spec_expect(s, "null"@) {
            Option::Some(r) => Option::Some((Option::None, r)),
            Option::None => Option::None,
        }
    } else {
        match spec_parse_size(s) {
            Option::Some((z, r)) => Option::Some((Option::Some(z), r)),
            Option::None => Option::None,
        }
    }
}

/// The element object.
#[verifier::opaque]
pub open spec fn spec_parse_element(s: Seq<char>) -> Option<(ElementDetailsModel, Seq<char>)> {
    match spec_expect(s, "{\"role\":"@) {
        Option::None => Option::None,
        Option::Some(r1) => match spec_parse_opt_str(r1) {
            Option::None => Option::None,
            Option::Some((role, r2)) => match spec_expect(r2, ",\"identifier\":"@) {
                Option::None => Option::None,
                Option::Some(r3) => match spec_parse_opt_str(r3) {
                    Option::None => Option::None,
                    Option::Some((identifier, r4)) => match spec_expect(r4, ",\"value\":"@) {
                        Option::None => Option::None,
                        Option::Some(r5) => match spec_parse_opt_json(r5) {
                            Option::None => Option::None,
                            Option::Some((value, r6)) => match spec_expect(r6, ",\"position\":"@) {
                                Option::None => Option::None,
                                Option::Some(r7) => match spec_parse_opt_position(r7) {
                                    Option::None => Option::None,
                                    Option::Some((position, r8)) => match spec_expect(
                                        r8,
                                        ",\"size\":"@,
                                    ) {
                                        Option::None => Option::None,
                                        Option::Some(r9) => match spec_parse_opt_size(r9) {
                                            Option::None => Option::None,
                                            Option::Some((size, r10)) => match spec_expect(
                                                r10,
                                                "}"@,
                                            ) {
                                                Option::None => Option::None,
                                                Option::Some(r11) => Option::Some(
                                                    (
                                                        ElementDetailsModel {
                                                            role,
                                                            identifier,
                                                            value,
                                                            position,
                                                            size,
                                                        },
                                                        r11,
                                                    ),
                                                ),
                                            },
                                        },
                                    },
                                },
                            },
                        },
                    },
                },
            },
        },
    }
}

/// An optional element field.
pub open spec fn spec_parse_opt_element(s: Seq<char>) -> Option<
    (Option<ElementDetailsModel>, Seq<char>),
> {
    if s.len() > 0 && s[0] == 'n' {
        match spec_expect(s, "null"@) {
            Option::Some(r) => Option::Some((Option::None, r)),
            Option::None => Option::None,
        }
    } else {
        match spec_parse_element(s) {
            Option::Some((e, r)) => Option::Some((Option::Some(e), r)),
            Option::None => Option::None,
        }
    }
}

/// The quoted event-type name together with the field separator that
/// follows it, one recognized spelling at a time.
#[verifier::opaque]
pub open spec fn spec_parse_event_type(s: Seq<char>) -> Option<(EventType, Seq<char>)> {
    if spec_expect(s, "ApplicationActivated\",\"timestamp\":"@) is Some {
        Option::Some(
            (
                EventType::ApplicationActivated,
                spec_expect(s, "ApplicationActivated\",\"timestamp\":"@).unwrap(),
            ),
        )
    } else if spec_expect(s, "ApplicationDeactivated\",\"timestamp\":"@) is Some {
        Option::Some(
            (
                EventType::ApplicationDeactivated,
                spec_expect(s, "ApplicationDeactivated\",\"timestamp\":"@).unwrap(),
            ),
        )
    } else if spec_expect(s, "WindowFocused\",\"timestamp\":"@) is Some {
        Option::Some(
            (EventType::WindowFocused, spec_expect(s, "WindowFocused\",\"timestamp\":"@).unwrap()),
        )
    } else if spec_expect(s, "WindowCreated\",\"timestamp\":"@) is Some {
        Option::Some(
            (EventType::WindowCreated, spec_expect(s, "WindowCreated\",\"timestamp\":"@).unwrap()),
        )
    } else if spec_expect(s, "WindowMoved\",\"timestamp\":"@) is Some {
        Option::Some(
            (EventType::WindowMoved, spec_expect(s, "WindowMoved\",\"timestamp\":"@).unwrap()),
        )
    } else if spec_expect(s, "WindowResized\",\"timestamp\":"@) is Some {
        Option::Some(
            (EventType::WindowResized, spec_expect(s, "WindowResized\",\"timestamp\":"@).unwrap()),
        )
    } else if spec_expect(s, "ElementFocused\",\"timestamp\":"@) is Some {
        Option::Some(
            (
                EventType::ElementFocused,
                spec_expect(s, "ElementFocused\",\"timestamp\":"@).unwrap(),
            ),
        )
    } else if spec_expect(s, "ValueChanged\",\"timestamp\":"@) is Some {
        Option::Some(
            (EventType::ValueChanged, spec_expect(s, "ValueChanged\",\"timestamp\":"@).unwrap()),
        )
    } else if spec_expect(s, "ElementDestroyed\",\"timestamp\":"@) is Some {
        Option::Some(
            (
                EventType::ElementDestroyed,
                spec_expect(s, "ElementDestroyed\",\"timestamp\":"@).unwrap(),
            ),
        )
    } else if spec_expect(s, "MenuOpened\",\"timestamp\":"@) is Some {
        Option::Some(
            (EventType::MenuOpened, spec_expect(s, "MenuOpened\",\"timestamp\":"@).unwrap()),
        )
    } else if spec_expect(s, "MenuClosed\",\"timestamp\":"@) is Some {
        Option::Some(
            (EventType::MenuClosed, spec_expect(s, "MenuClosed\",\"timestamp\":"@).unwrap()),
        )
    } else if spec_expect(s, "MenuItemSelected\",\"timestamp\":"@) is Some {
        Option::Some(
            (
                EventType::MenuItemSelected,
                spec_expect(s, "MenuItemSelected\",\"timestamp\":"@).unwrap(),
            ),
        )
    } else if spec_expect(s, "SelectionChanged\",\"timestamp\":"@) is Some {
        Option::Some(
            (
                EventType::SelectionChanged,
                spec_expect(s, "SelectionChanged\",\"timestamp\":"@).unwrap(),
            ),
        )
    } else if spec_expect(s, "SelectedTextChanged\",\"timestamp\":"@) is Some {
        Option::Some(
            (
                EventType::SelectedTextChanged,
                spec_expect(s, "SelectedTextChanged\",\"timestamp\":"@).unwrap(),
            ),
        )
    } else if spec_expect(s, "TitleChanged\",\"timestamp\":"@) is Some {
        Option::Some(
            (EventType::TitleChanged, spec_expect(s, "TitleChanged\",\"timestamp\":"@).unwrap()),
        )
    } else {
        Option::None
    }
}

/// The whole canonical frame: one event object and nothing after it.
pub open spec fn spec_deserialize(s: Seq<char>) -> Option<UiEventModel> {
    match spec_expect(s, "{\"event_type\":\""@) {
        Option::None => Option::None,
        Option::Some(r1) => match spec_parse_event_type(r1) {
            Option::None => Option::None,
            Option::Some((event_type, r2)) => match spec_parse_int(r2) {
                Option::None => Option::None,
                Option::Some((timestamp, r3)) => if i64_range(timestamp) {
                    match spec_expect(r3, ",\"application\":"@) {
                        Option::None => Option::None,
                        Option::Some(r4) => match spec_parse_opt_application(r4) {
                            Option::None => Option::None,
                            Option::Some((application, r5)) => match spec_expect(
                                r5,
                                ",\"window\":"@,
                            ) {
                                Option::None => Option::None,
                                Option::Some(r6) => match spec_parse_opt_window(r6) {
                                    Option::None => Option::None,
                                    Option::Some((window, r7)) => match spec_expect(
                                        r7,
                                        ",\"element\":"@,
                                    ) {
                                        Option::None => Option::None,
                                        Option::Some(r8) => match spec_parse_opt_element(r8) {
                                            Option::None => Option::None,
                                            Option::Some((element, r9)) => match spec_expect(
                                                r9,
                                                ",\"event_specific_data\":"@,
                                            ) {
                                                Option::None => Option::None,
                                                Option::Some(r10) => match spec_parse_opt_json(
                                                    r10,
                                                ) {
                                                    Option::None => Option::None,
                                                    Option::Some((esd, r11)) => match spec_expect(
                                                        r11,
                                                        "}"@,
                                                    ) {
                                                        Option::None => Option::None,
                                                        Option::Some(r12) => if r12.len() == 0 {
                                                            Option::Some(
                                                                UiEventModel {
                                                                    event_type,
                                                                    timestamp,
                                                                    application,
                                                                    window,
                                                                    element,
                                                                    event_specific_data: esd,
                                                                },
                                                            )
                                                        } else {
                                                            Option::None
                                                        },
                                                    },
                                                },
                                            },
                                        },
                                    },
                                },
                            },
                        },
                    }
                } else {
                    Option::None
                },
            },
        },
    }
}


/// A literal at the front of the input is consumed exactly.
proof fn lemma_expect_prefix(lit: Seq<char>, rest: Seq<char>)
    ensures
        spec_expect(lit + rest, lit) == Option::Some(rest),
{
    assert((lit + rest).take(lit.len() as int) =~= lit);
    assert((lit + rest).skip(lit.len() as int) =~= rest);
}

/// A literal that disagrees with the input at one position is rejected.
proof fn lemma_expect_fails_at(s: Seq<char>, lit: Seq<char>, k: int)
    requires
        0 <= k < lit.len(),
        k < s.len(),
        s[k] != lit[k],
    ensures
        spec_expect(s, lit) is None,
{
    if lit.len() <= s.len() && s.take(lit.len() as int) == lit {
        assert(s.take(lit.len() as int)[k] == s[k]);
    }
}

/// What a digit run folded after earlier digits is worth.
pub open spec fn digits_extend(a: int, n: int) -> int
    decreases n,
{
    if n < 10 {
        a * 10 + n
    } else {
        digits_extend(a, n / 10) * 10 + n % 10
    }
}

/// Consuming the rendered digits of `n` folds `n` onto the accumulator and
/// continues into whatever follows.
proof fn lemma_digits_append(n: int, a: int, rest: Seq<char>)
    requires
        n >= 0,
    ensures
        spec_parse_digits(crate::codec::spec_udigits(n) + rest, a) == spec_parse_digits(
            rest,
            digits_extend(a, n),
        ),
    decreases n,
{
    if n < 10 {
        let s = crate::codec::spec_udigits(n) + rest;
        assert(s[0] == crate::codec::spec_digit(n));
        assert(is_digit_char(s[0]));
        assert(digit_val(s[0]) == n);
        assert(s.drop_first() =~= rest);
    } else {
        let d = crate::codec::spec_digit(n % 10);
        assert(crate::codec::spec_udigits(n) + rest =~= crate::codec::spec_udigits(n / 10) + (seq![
            d,
        ] + rest));
        lemma_digits_append(n / 10, a, seq![d] + rest);
        let a2 = digits_extend(a, n / 10);
        let s2 = seq![d] + rest;
        assert(s2[0] == d);
        assert(is_digit_char(d));
        assert(digit_val(d) == n % 10);
        assert(s2.drop_first() =~= rest);
        assert(spec_parse_digits(s2, a2) == spec_parse_digits(rest, a2 * 10 + n % 10));
    }
}

/// Folding onto an empty accumulator reads back the number itself.
proof fn lemma_digits_extend_zero(n: int)
    requires
        n >= 0,
    ensures
        digits_extend(0, n) == n,
    decreases n,
{
    if n >= 10 {
        lemma_digits_extend_zero(n / 10);
        vstd::arithmetic::div_mod::lemma_fundamental_div_mod(n, 10);
    }
}

/// A rendered number starts with a digit.
proof fn lemma_udigits_starts_with_digit(n: int)
    requires
        n >= 0,
    ensures
        crate::codec::spec_udigits(n).len() >= 1,
        is_digit_char(crate::codec::spec_udigits(n)[0]),
    decreases n,
{
    if n < 10 {
        assert(crate::codec::spec_udigits(n)[0] == crate::codec::spec_digit(n));
    } else {
        lemma_udigits_starts_with_digit(n / 10);
        assert(crate::codec::spec_udigits(n)[0] == crate::codec::spec_udigits(n / 10)[0]);
    }
}

/// Parsing the rendered digits of `n`, followed by anything that is not a
/// digit, yields exactly `n`.
proof fn lemma_parse_uint_of(n: int, rest: Seq<char>)
    requires
        n >= 0,
        rest.len() == 0 || !is_digit_char(rest[0]),
    ensures
        spec_parse_uint(crate::codec::spec_udigits(n) + rest) == Option::Some((n, rest)),
{
    let s = crate::codec::spec_udigits(n) + rest;
    lemma_udigits_starts_with_digit(n);
    assert(s[0] == crate::codec::spec_udigits(n)[0]);
    lemma_digits_append(n, 0, rest);
    lemma_digits_extend_zero(n);
    assert(spec_parse_digits(rest, n) == (n, rest));
}

/// Parsing the rendering of any integer, followed by anything that is not
/// a digit, yields exactly that integer.
proof fn lemma_parse_int_of(n: int, rest: Seq<char>)
    requires
        rest.len() == 0 || !is_digit_char(rest[0]),
    ensures
        spec_parse_int(crate::codec::spec_int(n) + rest) == Option::Some((n, rest)),
{
    let s = crate::codec::spec_int(n) + rest;
    if n < 0 {
        assert(s[0] == '-');
        assert(s.drop_first() =~= crate::codec::spec_udigits(-n) + rest);
        lemma_parse_uint_of(-n, rest);
    } else {
        lemma_udigits_starts_with_digit(n);
        assert(s[0] == crate::codec::spec_udigits(n)[0]);
        assert(s[0] != '-');
        lemma_parse_uint_of(n, rest);
    }
}

/// A control character is recovered exactly from its code point.
proof fn lemma_control_char_code(c: char)
    requires
        (c as u32) < 32,
    ensures
        (((c as u32) as u8) as char) == c,
{
}

/// Undoing the escape of one string: parsing the escaped characters up to
/// a closing quote hands back the original characters and what follows the
/// quote.
proof fn lemma_parse_string_body_of(t: Seq<char>, rest: Seq<char>)
    ensures
        spec_parse_string_body(crate::codec::spec_escape(t) + seq!['"'] + rest) == Option::Some(
            (t, rest),
        ),
    decreases t.len(),
{
    let s = crate::codec::spec_escape(t) + seq!['"'] + rest;
    if t.len() == 0 {
        assert(s =~= seq!['"'] + rest);
        assert(s[0] == '"');
        assert(s.drop_first() =~= rest);
    } else {
        let c = t[0];
        let t2 = t.drop_first();
        let esc = crate::codec::spec_escape_char(c);
        let tail = crate::codec::spec_escape(t2) + seq!['"'] + rest;
        assert(s =~= esc + tail);
        lemma_parse_string_body_of(t2, rest);
        if c == '"' {
            assert(s[0] == '\\' && s[1] == '"');
            assert(s.skip(2) =~= tail);
            assert(seq![s[1]] + t2 =~= t);
        } else if c == '\\' {
            assert(s[0] == '\\' && s[1] == '\\');
            assert(s.skip(2) =~= tail);
            assert(seq![s[1]] + t2 =~= t);
        } else if (c as u32) < 32 {
            let code = (c as u32) as int;
            assert(s[0] == '\\' && s[1] == 'u' && s[2] == '0' && s[3] == '0');
            assert(s[4] == crate::codec::spec_hex_digit(code / 16));
            assert(s[5] == crate::codec::spec_hex_digit(code % 16));
            vstd::arithmetic::div_mod::lemma_fundamental_div_mod(code, 16);
            assert(hex_val(s[4]) == code / 16);
            assert(hex_val(s[5]) == code % 16);
            assert(hex_val(s[4]) * 16 + hex_val(s[5]) == code);
            assert(s.skip(6) =~= tail);
            lemma_control_char_code(c);
            assert(code as u8 == (c as u32) as u8);
            assert((((code) as u8) as char) == c);
            assert(seq![(((hex_val(s[4]) * 16 + hex_val(s[5])) as u8) as char)] + t2 =~= t);
        } else {
            assert(s[0] == c);
            assert(s.drop_first() =~= tail);
            assert(seq![s[0]] + t2 =~= t);
        }
    }
}

/// Parsing a serialized JSON string yields the original characters.
proof fn lemma_parse_quoted_of(t: Seq<char>, rest: Seq<char>)
    ensures
        spec_parse_quoted(crate::codec::spec_quoted(t) + rest) == Option::Some((t, rest)),
{
    let s = crate::codec::spec_quoted(t) + rest;
    assert(s[0] == '"');
    assert(s.drop_first() =~= crate::codec::spec_escape(t) + seq!['"'] + rest);
    lemma_parse_string_body_of(t, rest);
}


/// Parsing a serialized JSON scalar, followed by anything that is not a
/// digit, yields the original scalar.
proof fn lemma_parse_json_of(v: JsonValueModel, rest: Seq<char>)
    requires
        crate::event::wf_json_value(v),
        rest.len() == 0 || !is_digit_char(rest[0]),
    ensures
        spec_parse_json(crate::codec::spec_ser_json(v) + rest) == Option::Some((v, rest)),
{
    let s = crate::codec::spec_ser_json(v) + rest;
    match v {
        JsonValueModel::Null => {
            reveal_strlit("null");
            assert(s[0] == 'n');
            lemma_expect_prefix("null"@, rest);
        },
        JsonValueModel::Bool(b) => {
            if b {
                reveal_strlit("true");
                assert(s[0] == 't');
                lemma_expect_prefix("true"@, rest);
            } else {
                reveal_strlit("false");
                assert(s[0] == 'f');
                lemma_expect_prefix("false"@, rest);
            }
        },
        JsonValueModel::Int(n) => {
            if n < 0 {
                assert(s[0] == '-');
            } else {
                lemma_udigits_starts_with_digit(n);
                assert(s[0] == crate::codec::spec_udigits(n)[0]);
            }
            lemma_parse_int_of(n, rest);
        },
        JsonValueModel::Str(t) => {
            assert(s[0] == '"');
            assert(s.drop_first() =~= crate::codec::spec_escape(t) + seq!['"'] + rest);
            lemma_parse_string_body_of(t, rest);
        },
    }
}

/// Parsing a serialized optional string yields the original option.
proof fn lemma_parse_opt_str_of(o: Option<Seq<char>>, rest: Seq<char>)
    ensures
        spec_parse_opt_str(crate::codec::spec_ser_opt_str(o) + rest) == Option::Some((o, rest)),
{
    let s = crate::codec::spec_ser_opt_str(o) + rest;
    match o {
        Option::None => {
            reveal_strlit("null");
            assert(s[0] == 'n');
            lemma_expect_prefix("null"@, rest);
        },
        Option::Some(t) => {
            assert(s[0] == '"');
            reveal_strlit("null");
            lemma_parse_quoted_of(t, rest);
            assert(s =~= crate::codec::spec_quoted(t) + rest);
        },
    }
}

/// Parsing a serialized optional integer within its bounds yields the
/// original option.
proof fn lemma_parse_opt_int_of(o: Option<int>, lo: int, hi: int, rest: Seq<char>)
    requires
        o matches Option::Some(n) ==> lo <= n <= hi,
        rest.len() == 0 || !is_digit_char(rest[0]),
    ensures
        spec_parse_opt_bounded_int(crate::codec::spec_ser_opt_int(o) + rest, lo, hi)
            == Option::Some((o, rest)),
{
    let s = crate::codec::spec_ser_opt_int(o) + rest;
    match o {
        Option::None => {
            reveal_strlit("null");
            assert(s[0] == 'n');
            lemma_expect_prefix("null"@, rest);
        },
        Option::Some(n) => {
            if n < 0 {
                assert(s[0] == '-');
            } else {
                lemma_udigits_starts_with_digit(n);
                assert(s[0] == crate::codec::spec_udigits(n)[0]);
            }
            lemma_parse_int_of(n, rest);
        },
    }
}

/// Parsing a serialized optional scalar yields the original option, for
/// the canonical case where a present scalar is never `null`.
proof fn lemma_parse_opt_json_of(o: Option<JsonValueModel>, rest: Seq<char>)
    requires
        o != Option::Some(JsonValueModel::Null),
        o matches Option::Some(v) ==> crate::event::wf_json_value(v),
        rest.len() == 0 || !is_digit_char(rest[0]),
    ensures
        spec_parse_opt_json(crate::codec::spec_ser_opt_json(o) + rest) == Option::Some((o, rest)),
{
    let s = crate::codec::spec_ser_opt_json(o) + rest;
    match o {
        Option::None => {
            reveal_strlit("null");
            assert(s[0] == 'n');
            lemma_expect_prefix("null"@, rest);
        },
        Option::Some(v) => {
            match v {
                JsonValueModel::Null => {},
                JsonValueModel::Bool(b) => {
                    if b {
                        reveal_strlit("true");
                        assert(s[0] == 't');
                    } else {
                        reveal_strlit("false");
                        assert(s[0] == 'f');
                    }
                },
                JsonValueModel::Int(n) => {
                    if n < 0 {
                        assert(s[0] == '-');
                    } else {
                        lemma_udigits_starts_with_digit(n);
                        assert(s[0] == crate::codec::spec_udigits(n)[0]);
                    }
                },
                JsonValueModel::Str(t) => {
                    assert(s[0] == '"');
                },
            }
            assert(s[0] != 'n');
            lemma_parse_json_of(v, rest);
        },
    }
}

/// Parsing a serialized application object yields the original fields.
proof fn lemma_parse_application_of(a: ApplicationInfoModel, rest: Seq<char>)
    requires
        crate::event::wf_application(a),
    ensures
        spec_parse_application(crate::codec::spec_ser_application(a) + rest) == Option::Some(
            (a, rest),
        ),
{
    let s = crate::codec::spec_ser_application(a) + rest;
    let tail3 = "}"@ + rest;
    let tail2 = crate::codec::spec_ser_opt_int(a.pid) + tail3;
    let tail1 = ",\"pid\":"@ + tail2;
    let tail0 = crate::codec::spec_ser_opt_str(a.name) + tail1;
    assert(s =~= "{\"name\":"@ + tail0);
    lemma_expect_prefix("{\"name\":"@, tail0);
    lemma_parse_opt_str_of(a.name, tail1);
    lemma_expect_prefix(",\"pid\":"@, tail2);
    reveal_strlit("}");
    assert(tail3[0] == '}');
    assert(!is_digit_char('}'));
    lemma_parse_opt_int_of(a.pid, i32::MIN as int, i32::MAX as int, tail3);
    lemma_expect_prefix("}"@, rest);
}

/// Parsing a serialized window object yields the original fields.
proof fn lemma_parse_window_of(w: WindowInfoModel, rest: Seq<char>)
    ensures
        spec_parse_window(crate::codec::spec_ser_window(w) + rest) == Option::Some((w, rest)),
{
    let s = crate::codec::spec_ser_window(w) + rest;
    let tail3 = "}"@ + rest;
    let tail2 = crate::codec::spec_ser_opt_str(w.id) + tail3;
    let tail1 = ",\"id\":"@ + tail2;
    let tail0 = crate::codec::spec_ser_opt_str(w.title) + tail1;
    assert(s =~= "{\"title\":"@ + tail0);
    lemma_expect_prefix("{\"title\":"@, tail0);
    lemma_parse_opt_str_of(w.title, tail1);
    lemma_expect_prefix(",\"id\":"@, tail2);
    lemma_parse_opt_str_of(w.id, tail3);
    lemma_expect_prefix("}"@, rest);
}

/// Parsing a serialized position object yields the original coordinates.
proof fn lemma_parse_position_of(p: PositionModel, rest: Seq<char>)
    requires
        crate::event::wf_position(p),
    ensures
        spec_parse_position(crate::codec::spec_ser_position(p) + rest) == Option::Some((p, rest)),
{
    let s = crate::codec::spec_ser_position(p) + rest;
    let tail3 = "}"@ + rest;
    let tail2 = crate::codec::spec_int(p.y) + tail3;
    let tail1 = ",\"y\":"@ + tail2;
    let tail0 = crate::codec::spec_int(p.x) + tail1;
    assert(s =~= "{\"x\":"@ + tail0);
    lemma_expect_prefix("{\"x\":"@, tail0);
    reveal_strlit(",\"y\":");
    assert(tail1[0] == ',');
    assert(!is_digit_char(','));
    lemma_parse_int_of(p.x, tail1);
    lemma_expect_prefix(",\"y\":"@, tail2);
    reveal_strlit("}");
    assert(tail3[0] == '}');
    assert(!is_digit_char('}'));
    lemma_parse_int_of(p.y, tail3);
    lemma_expect_prefix("}"@, rest);
}

/// Parsing a serialized size object yields the original extent.
proof fn lemma_parse_size_of(z: SizeModel, rest: Seq<char>)
    requires
        crate::event::wf_size(z),
    ensures
        spec_parse_size(crate::codec::spec_ser_size(z) + rest) == Option::Some((z, rest)),
{
    let s = crate::codec::spec_ser_size(z) + rest;
    let tail3 = "}"@ + rest;
    let tail2 = crate::codec::spec_int(z.height) + tail3;
    let tail1 = ",\"height\":"@ + tail2;
    let tail0 = crate::codec::spec_int(z.width) + tail1;
    assert(s =~= "{\"width\":"@ + tail0);
    lemma_expect_prefix("{\"width\":"@, tail0);
    reveal_strlit(",\"height\":");
    assert(tail1[0] == ',');
    assert(!is_digit_char(','));
    lemma_parse_int_of(z.width, tail1);
    lemma_expect_prefix(",\"height\":"@, tail2);
    reveal_strlit("}");
    assert(tail3[0] == '}');
    assert(!is_digit_char('}'));
    lemma_parse_int_of(z.height, tail3);
    lemma_expect_prefix("}"@, rest);
}

/// Parsing a serialized optional position yields the original option.
proof fn lemma_parse_opt_position_of(o: Option<PositionModel>, rest: Seq<char>)
    requires
        o matches Option::Some(p) ==> crate::event::wf_position(p),
    ensures
        spec_parse_opt_position(crate::codec::spec_ser_opt_position(o) + rest) == Option::Some(
            (o, rest),
        ),
{
    let s = crate::codec::spec_ser_opt_position(o) + rest;
    match o {
        Option::None => {
            reveal_strlit("null");
            assert(s[0] == 'n');
            lemma_expect_prefix("null"@, rest);
        },
        Option::Some(p) => {
            reveal_strlit("{\"x\":");
            assert(s[0] == '{');
            lemma_parse_position_of(p, rest);
        },
    }
}

/// Parsing a serialized optional size yields the original option.
proof fn lemma_parse_opt_size_of(o: Option<SizeModel>, rest: Seq<char>)
    requires
        o matches Option::Some(z) ==> crate::event::wf_size(z),
    ensures
        spec_parse_opt_size(crate::codec::spec_ser_opt_size(o) + rest) == Option::Some((o, rest)),
{
    let s = crate::codec::spec_ser_opt_size(o) + rest;
    match o {
        Option::None => {
            reveal_strlit("null");
            assert(s[0] == 'n');
            lemma_expect_prefix("null"@, rest);
        },
        Option::Some(z) => {
            reveal_strlit("{\"width\":");
            assert(s[0] == '{');
            lemma_parse_size_of(z, rest);
        },
    }
}

/// Parsing a serialized element object yields the original fields, for the
/// canonical case where a present value scalar is never `null`.
#[verifier::rlimit(100)]
proof fn lemma_parse_element_of(e: ElementDetailsModel, rest: Seq<char>)
    requires
        crate::event::wf_element(e),
        e.value != Option::Some(JsonValueModel::Null),
    ensures
        spec_parse_element(crate::codec::spec_ser_element(e) + rest) == Option::Some((e, rest)),
{
    reveal(spec_parse_element);
    let s = crate::codec::spec_ser_element(e) + rest;
    let tail9 = "}"@ + rest;
    let tail8 = crate::codec::spec_ser_opt_size(e.size) + tail9;
    let tail7 = ",\"size\":"@ + tail8;
    let tail6 = crate::codec::spec_ser_opt_position(e.position) + tail7;
    let tail5 = ",\"position\":"@ + tail6;
    let tail4 = crate::codec::spec_ser_opt_json(e.value) + tail5;
    let tail3 = ",\"value\":"@ + tail4;
    let tail2 = crate::codec::spec_ser_opt_str(e.identifier) + tail3;
    let tail1 = ",\"identifier\":"@ + tail2;
    let tail0 = crate::codec::spec_ser_opt_str(e.role) + tail1;
    assert(s =~= "{\"role\":"@ + tail0);
    lemma_expect_prefix("{\"role\":"@, tail0);
    lemma_parse_opt_str_of(e.role, tail1);
    lemma_expect_prefix(",\"identifier\":"@, tail2);
    lemma_parse_opt_str_of(e.identifier, tail3);
    lemma_expect_prefix(",\"value\":"@, tail4);
    reveal_strlit(",\"position\":");
    assert(tail5[0] == ',');
    assert(!is_digit_char(','));
    lemma_parse_opt_json_of(e.value, tail5);
    lemma_expect_prefix(",\"position\":"@, tail6);
    lemma_parse_opt_position_of(e.position, tail7);
    lemma_expect_prefix(",\"size\":"@, tail8);
    lemma_parse_opt_size_of(e.size, tail9);
    lemma_expect_prefix("}"@, rest);
}

/// Parsing a serialized optional application yields the original option.
proof fn lemma_parse_opt_application_of(o: Option<ApplicationInfoModel>, rest: Seq<char>)
    requires
        o matches Option::Some(a) ==> crate::event::wf_application(a),
    ensures
        spec_parse_opt_application(crate::codec::spec_ser_opt_application(o) + rest)
            == Option::Some((o, rest)),
{
    let s = crate::codec::spec_ser_opt_application(o) + rest;
    match o {
        Option::None => {
            reveal_strlit("null");
            assert(s[0] == 'n');
            lemma_expect_prefix("null"@, rest);
        },
        Option::Some(a) => {
            reveal_strlit("{\"name\":");
            assert(s[0] == '{');
            lemma_parse_application_of(a, rest);
        },
    }
}

/// Parsing a serialized optional window yields the original option.
proof fn lemma_parse_opt_window_of(o: Option<WindowInfoModel>, rest: Seq<char>)
    ensures
        spec_parse_opt_window(crate::codec::spec_ser_opt_window(o) + rest) == Option::Some(
            (o, rest),
        ),
{
    let s = crate::codec::spec_ser_opt_window(o) + rest;
    match o {
        Option::None => {
            reveal_strlit("null");
            assert(s[0] == 'n');
            lemma_expect_prefix("null"@, rest);
        },
        Option::Some(w) => {
            reveal_strlit("{\"title\":");
            assert(s[0] == '{');
            lemma_parse_window_of(w, rest);
        },
    }
}

/// Parsing a serialized optional element yields the original option, in
/// the canonical case.
proof fn lemma_parse_opt_element_of(o: Option<ElementDetailsModel>, rest: Seq<char>)
    requires
        o matches Option::Some(e) ==> crate::event::wf_element(e) && e.value != Option::Some(
            JsonValueModel::Null,
        ),
    ensures
        spec_parse_opt_element(crate::codec::spec_ser_opt_element(o) + rest) == Option::Some(
            (o, rest),
        ),
{
    let s = crate::codec::spec_ser_opt_element(o) + rest;
    match o {
        Option::None => {
            reveal_strlit("null");
            assert(s[0] == 'n');
            lemma_expect_prefix("null"@, rest);
        },
        Option::Some(e) => {
            reveal_strlit("{\"role\":");
            assert(s[0] == '{');
            lemma_parse_element_of(e, rest);
        },
    }
}


/// The event-type dispatch reads back exactly the name the serializer
/// wrote, together with the separator that follows it.
#[verifier::rlimit(100)]
proof fn lemma_parse_event_type_of(t: EventType, rest: Seq<char>)
    ensures
        spec_parse_event_type(crate::codec::spec_event_type_name(t) + "\",\"timestamp\":"@ + rest)
            == Option::Some((t, rest)),
{
    let s = crate::codec::spec_event_type_name(t) + "\",\"timestamp\":"@ + rest;
    reveal(spec_parse_event_type);
    reveal_strlit("\",\"timestamp\":");
    match t {
        EventType::ApplicationActivated => {
            reveal_strlit("ApplicationActivated");
            reveal_strlit("ApplicationActivated\",\"timestamp\":");
            assert(crate::codec::spec_event_type_name(t) + "\",\"timestamp\":"@ =~= "ApplicationActivated\",\"timestamp\":"@);
            assert(s =~= "ApplicationActivated\",\"timestamp\":"@ + rest);
            lemma_expect_prefix("ApplicationActivated\",\"timestamp\":"@, rest);
        },
        EventType::ApplicationDeactivated => {
            reveal_strlit("ApplicationDeactivated");
            reveal_strlit("ApplicationDeactivated\",\"timestamp\":");
            assert(crate::codec::spec_event_type_name(t) + "\",\"timestamp\":"@ =~= "ApplicationDeactivated\",\"timestamp\":"@);
            assert(s =~= "ApplicationDeactivated\",\"timestamp\":"@ + rest);
            reveal_strlit("ApplicationActivated\",\"timestamp\":");
            lemma_expect_fails_at(s, "ApplicationActivated\",\"timestamp\":"@, 11);
            lemma_expect_prefix("ApplicationDeactivated\",\"timestamp\":"@, rest);
        },
        EventType::WindowFocused => {
            reveal_strlit("WindowFocused");
            reveal_strlit("WindowFocused\",\"timestamp\":");
            assert(crate::codec::spec_event_type_name(t) + "\",\"timestamp\":"@ =~= "WindowFocused\",\"timestamp\":"@);
            assert(s =~= "WindowFocused\",\"timestamp\":"@ + rest);
            reveal_strlit("ApplicationActivated\",\"timestamp\":");
            lemma_expect_fails_at(s, "ApplicationActivated\",\"timestamp\":"@, 0);
            reveal_strlit("ApplicationDeactivated\",\"timestamp\":");
            lemma_expect_fails_at(s, "ApplicationDeactivated\",\"timestamp\":"@, 0);
            lemma_expect_prefix("WindowFocused\",\"timestamp\":"@, rest);
        },
        EventType::WindowCreated => {
            reveal_strlit("WindowCreated");
            reveal_strlit("WindowCreated\",\"timestamp\":");
            assert(crate::codec::spec_event_type_name(t) + "\",\"timestamp\":"@ =~= "WindowCreated\",\"timestamp\":"@);
            assert(s =~= "WindowCreated\",\"timestamp\":"@ + rest);
            reveal_strlit("ApplicationActivated\",\"timestamp\":");
            lemma_expect_fails_at(s, "ApplicationActivated\",\"timestamp\":"@, 0);
            reveal_strlit("ApplicationDeactivated\",\"timestamp\":");
            lemma_expect_fails_at(s, "ApplicationDeactivated\",\"timestamp\":"@, 0);
            reveal_strlit("WindowFocused\",\"timestamp\":");
            lemma_expect_fails_at(s, "WindowFocused\",\"timestamp\":"@, 6);
            lemma_expect_prefix("WindowCreated\",\"timestamp\":"@, rest);
        },
        EventType::WindowMoved => {
            reveal_strlit("WindowMoved");
            reveal_strlit("WindowMoved\",\"timestamp\":");
            assert(crate::codec::spec_event_type_name(t) + "\",\"timestamp\":"@ =~= "WindowMoved\",\"timestamp\":"@);
            assert(s =~= "WindowMoved\",\"timestamp\":"@ + rest);
            reveal_strlit("ApplicationActivated\",\"timestamp\":");
            lemma_expect_fails_at(s, "ApplicationActivated\",\"timestamp\":"@, 0);
            reveal_strlit("ApplicationDeactivated\",\"timestamp\":");
            lemma_expect_fails_at(s, "ApplicationDeactivated\",\"timestamp\":"@, 0);
            reveal_strlit("WindowFocused\",\"timestamp\":");
            lemma_expect_fails_at(s, "WindowFocused\",\"timestamp\":"@, 6);
            reveal_strlit("WindowCreated\",\"timestamp\":");
            lemma_expect_fails_at(s, "WindowCreated\",\"timestamp\":"@, 6);
            lemma_expect_prefix("WindowMoved\",\"timestamp\":"@, rest);
        },
        EventType::WindowResized => {
            reveal_strlit("WindowResized");
            reveal_strlit("WindowResized\",\"timestamp\":");
            assert(crate::codec::spec_event_type_name(t) + "\",\"timestamp\":"@ =~= "WindowResized\",\"timestamp\":"@);
            assert(s =~= "WindowResized\",\"timestamp\":"@ + rest);
            reveal_strlit("ApplicationActivated\",\"timestamp\":");
            lemma_expect_fails_at(s, "ApplicationActivated\",\"timestamp\":"@, 0);
            reveal_strlit("ApplicationDeactivated\",\"timestamp\":");
            lemma_expect_fails_at(s, "ApplicationDeactivated\",\"timestamp\":"@, 0);
            reveal_strlit("WindowFocused\",\"timestamp\":");
            lemma_expect_fails_at(s, "WindowFocused\",\"timestamp\":"@, 6);
            reveal_strlit("WindowCreated\",\"timestamp\":");
            lemma_expect_fails_at(s, "WindowCreated\",\"timestamp\":"@, 6);
            reveal_strlit("WindowMoved\",\"timestamp\":");
            lemma_expect_fails_at(s, "WindowMoved\",\"timestamp\":"@, 6);
            lemma_expect_prefix("WindowResized\",\"timestamp\":"@, rest);
        },
        EventType::ElementFocused => {
            reveal_strlit("ElementFocused");
            reveal_strlit("ElementFocused\",\"timestamp\":");
            assert(crate::codec::spec_event_type_name(t) + "\",\"timestamp\":"@ =~= "ElementFocused\",\"timestamp\":"@);
            assert(s =~= "ElementFocused\",\"timestamp\":"@ + rest);
            reveal_strlit("ApplicationActivated\",\"timestamp\":");
            lemma_expect_fails_at(s, "ApplicationActivated\",\"timestamp\":"@, 0);
            reveal_strlit("ApplicationDeactivated\",\"timestamp\":");
            lemma_expect_fails_at(s, "ApplicationDeactivated\",\"timestamp\":"@, 0);
            reveal_strlit("WindowFocused\",\"timestamp\":");
            lemma_expect_fails_at(s, "WindowFocused\",\"timestamp\":"@, 0);
            reveal_strlit("WindowCreated\",\"timestamp\":");
            lemma_expect_fails_at(s, "WindowCreated\",\"timestamp\":"@, 0);
            reveal_strlit("WindowMoved\",\"timestamp\":");
            lemma_expect_fails_at(s, "WindowMoved\",\"timestamp\":"@, 0);
            reveal_strlit("WindowResized\",\"timestamp\":");
            lemma_expect_fails_at(s, "WindowResized\",\"timestamp\":"@, 0);
            lemma_expect_prefix("ElementFocused\",\"timestamp\":"@, rest);
        },
        EventType::ValueChanged => {
            reveal_strlit("ValueChanged");
            reveal_strlit("ValueChanged\",\"timestamp\":");
            assert(crate::codec::spec_event_type_name(t) + "\",\"timestamp\":"@ =~= "ValueChanged\",\"timestamp\":"@);
            assert(s =~= "ValueChanged\",\"timestamp\":"@ + rest);
            reveal_strlit("ApplicationActivated\",\"timestamp\":");
            lemma_expect_fails_at(s, "ApplicationActivated\",\"timestamp\":"@, 0);
            reveal_strlit("ApplicationDeactivated\",\"timestamp\":");
            lemma_expect_fails_at(s, "ApplicationDeactivated\",\"timestamp\":"@, 0);
            reveal_strlit("WindowFocused\",\"timestamp\":");
            lemma_expect_fails_at(s, "WindowFocused\",\"timestamp\":"@, 0);
            reveal_strlit("WindowCreated\",\"timestamp\":");
            lemma_expect_fails_at(s, "WindowCreated\",\"timestamp\":"@, 0);
            reveal_strlit("WindowMoved\",\"timestamp\":");
            lemma_expect_fails_at(s, "WindowMoved\",\"timestamp\":"@, 0);
            reveal_strlit("WindowResized\",\"timestamp\":");
            lemma_expect_fails_at(s, "WindowResized\",\"timestamp\":"@, 0);
            reveal_strlit("ElementFocused\",\"timestamp\":");
            lemma_expect_fails_at(s, "ElementFocused\",\"timestamp\":"@, 0);
            lemma_expect_prefix("ValueChanged\",\"timestamp\":"@, rest);
        },
        EventType::ElementDestroyed => {
            reveal_strlit("ElementDestroyed");
            reveal_strlit("ElementDestroyed\",\"timestamp\":");
            assert(crate::codec::spec_event_type_name(t) + "\",\"timestamp\":"@ =~= "ElementDestroyed\",\"timestamp\":"@);
            assert(s =~= "ElementDestroyed\",\"timestamp\":"@ + rest);
            reveal_strlit("ApplicationActivated\",\"timestamp\":");
            lemma_expect_fails_at(s, "ApplicationActivated\",\"timestamp\":"@, 0);
            reveal_strlit("ApplicationDeactivated\",\"timestamp\":");
            lemma_expect_fails_at(s, "ApplicationDeactivated\",\"timestamp\":"@, 0);
            reveal_strlit("WindowFocused\",\"timestamp\":");
            lemma_expect_fails_at(s, "WindowFocused\",\"timestamp\":"@, 0);
            reveal_strlit("WindowCreated\",\"timestamp\":");
            lemma_expect_fails_at(s, "WindowCreated\",\"timestamp\":"@, 0);
            reveal_strlit("WindowMoved\",\"timestamp\":");
            lemma_expect_fails_at(s, "WindowMoved\",\"timestamp\":"@, 0);
            reveal_strlit("WindowResized\",\"timestamp\":");
            lemma_expect_fails_at(s, "WindowResized\",\"timestamp\":"@, 0);
            reveal_strlit("ElementFocused\",\"timestamp\":");
            lemma_expect_fails_at(s, "ElementFocused\",\"timestamp\":"@, 7);
            reveal_strlit("ValueChanged\",\"timestamp\":");
            lemma_expect_fails_at(s, "ValueChanged\",\"timestamp\":"@, 0);
            lemma_expect_prefix("ElementDestroyed\",\"timestamp\":"@, rest);
        },
        EventType::MenuOpened => {
            reveal_strlit("MenuOpened");
            reveal_strlit("MenuOpened\",\"timestamp\":");
            assert(crate::codec::spec_event_type_name(t) + "\",\"timestamp\":"@ =~= "MenuOpened\",\"timestamp\":"@);
            assert(s =~= "MenuOpened\",\"timestamp\":"@ + rest);
            reveal_strlit("ApplicationActivated\",\"timestamp\":");
            lemma_expect_fails_at(s, "ApplicationActivated\",\"timestamp\":"@, 0);
            reveal_strlit("ApplicationDeactivated\",\"timestamp\":");
            lemma_expect_fails_at(s, "ApplicationDeactivated\",\"timestamp\":"@, 0);
            reveal_strlit("WindowFocused\",\"timestamp\":");
            lemma_expect_fails_at(s, "WindowFocused\",\"timestamp\":"@, 0);
            reveal_strlit("WindowCreated\",\"timestamp\":");
            lemma_expect_fails_at(s, "WindowCreated\",\"timestamp\":"@, 0);
            reveal_strlit("WindowMoved\",\"timestamp\":");
            lemma_expect_fails_at(s, "WindowMoved\",\"timestamp\":"@, 0);
            reveal_strlit("WindowResized\",\"timestamp\":");
            lemma_expect_fails_at(s, "WindowResized\",\"timestamp\":"@, 0);
            reveal_strlit("ElementFocused\",\"timestamp\":");
            lemma_expect_fails_at(s, "ElementFocused\",\"timestamp\":"@, 0);
            reveal_strlit("ValueChanged\",\"timestamp\":");
            lemma_expect_fails_at(s, "ValueChanged\",\"timestamp\":"@, 0);
            reveal_strlit("ElementDestroyed\",\"timestamp\":");
            lemma_expect_fails_at(s, "ElementDestroyed\",\"timestamp\":"@, 0);
            lemma_expect_prefix("MenuOpened\",\"timestamp\":"@, rest);
        },
        EventType::MenuClosed => {
            reveal_strlit("MenuClosed");
            reveal_strlit("MenuClosed\",\"timestamp\":");
            assert(crate::codec::spec_event_type_name(t) + "\",\"timestamp\":"@ =~= "MenuClosed\",\"timestamp\":"@);
            assert(s =~= "MenuClosed\",\"timestamp\":"@ + rest);
            reveal_strlit("ApplicationActivated\",\"timestamp\":");
            lemma_expect_fails_at(s, "ApplicationActivated\",\"timestamp\":"@, 0);
            reveal_strlit("ApplicationDeactivated\",\"timestamp\":");
            lemma_expect_fails_at(s, "ApplicationDeactivated\",\"timestamp\":"@, 0);
            reveal_strlit("WindowFocused\",\"timestamp\":");
            lemma_expect_fails_at(s, "WindowFocused\",\"timestamp\":"@, 0);
            reveal_strlit("WindowCreated\",\"timestamp\":");
            lemma_expect_fails_at(s, "WindowCreated\",\"timestamp\":"@, 0);
            reveal_strlit("WindowMoved\",\"timestamp\":");
            lemma_expect_fails_at(s, "WindowMoved\",\"timestamp\":"@, 0);
            reveal_strlit("WindowResized\",\"timestamp\":");
            lemma_expect_fails_at(s, "WindowResized\",\"timestamp\":"@, 0);
            reveal_strlit("ElementFocused\",\"timestamp\":");
            lemma_expect_fails_at(s, "ElementFocused\",\"timestamp\":"@, 0);
            reveal_strlit("ValueChanged\",\"timestamp\":");
            lemma_expect_fails_at(s, "ValueChanged\",\"timestamp\":"@, 0);
            reveal_strlit("ElementDestroyed\",\"timestamp\":");
            lemma_expect_fails_at(s, "ElementDestroyed\",\"timestamp\":"@, 0);
            reveal_strlit("MenuOpened\",\"timestamp\":");
            lemma_expect_fails_at(s, "MenuOpened\",\"timestamp\":"@, 4);
            lemma_expect_prefix("MenuClosed\",\"timestamp\":"@, rest);
        },
        EventType::MenuItemSelected => {
            reveal_strlit("MenuItemSelected");
            reveal_strlit("MenuItemSelected\",\"timestamp\":");
            assert(crate::codec::spec_event_type_name(t) + "\",\"timestamp\":"@ =~= "MenuItemSelected\",\"timestamp\":"@);
            assert(s =~= "MenuItemSelected\",\"timestamp\":"@ + rest);
            reveal_strlit("ApplicationActivated\",\"timestamp\":");
            lemma_expect_fails_at(s, "ApplicationActivated\",\"timestamp\":"@, 0);
            reveal_strlit("ApplicationDeactivated\",\"timestamp\":");
            lemma_expect_fails_at(s, "ApplicationDeactivated\",\"timestamp\":"@, 0);
            reveal_strlit("WindowFocused\",\"timestamp\":");
            lemma_expect_fails_at(s, "WindowFocused\",\"timestamp\":"@, 0);
            reveal_strlit("WindowCreated\",\"timestamp\":");
            lemma_expect_fails_at(s, "WindowCreated\",\"timestamp\":"@, 0);
            reveal_strlit("WindowMoved\",\"timestamp\":");
            lemma_expect_fails_at(s, "WindowMoved\",\"timestamp\":"@, 0);
            reveal_strlit("WindowResized\",\"timestamp\":");
            lemma_expect_fails_at(s, "WindowResized\",\"timestamp\":"@, 0);
            reveal_strlit("ElementFocused\",\"timestamp\":");
            lemma_expect_fails_at(s, "ElementFocused\",\"timestamp\":"@, 0);
            reveal_strlit("ValueChanged\",\"timestamp\":");
            lemma_expect_fails_at(s, "ValueChanged\",\"timestamp\":"@, 0);
            reveal_strlit("ElementDestroyed\",\"timestamp\":");
            lemma_expect_fails_at(s, "ElementDestroyed\",\"timestamp\":"@, 0);
            reveal_strlit("MenuOpened\",\"timestamp\":");
            lemma_expect_fails_at(s, "MenuOpened\",\"timestamp\":"@, 4);
            reveal_strlit("MenuClosed\",\"timestamp\":");
            lemma_expect_fails_at(s, "MenuClosed\",\"timestamp\":"@, 4);
            lemma_expect_prefix("MenuItemSelected\",\"timestamp\":"@, rest);
        },
        EventType::SelectionChanged => {
            reveal_strlit("SelectionChanged");
            reveal_strlit("SelectionChanged\",\"timestamp\":");
            assert(crate::codec::spec_event_type_name(t) + "\",\"timestamp\":"@ =~= "SelectionChanged\",\"timestamp\":"@);
            assert(s =~= "SelectionChanged\",\"timestamp\":"@ + rest);
            reveal_strlit("ApplicationActivated\",\"timestamp\":");
            lemma_expect_fails_at(s, "ApplicationActivated\",\"timestamp\":"@, 0);
            reveal_strlit("ApplicationDeactivated\",\"timestamp\":");
            lemma_expect_fails_at(s, "ApplicationDeactivated\",\"timestamp\":"@, 0);
            reveal_strlit("WindowFocused\",\"timestamp\":");
            lemma_expect_fails_at(s, "WindowFocused\",\"timestamp\":"@, 0);
            reveal_strlit("WindowCreated\",\"timestamp\":");
            lemma_expect_fails_at(s, "WindowCreated\",\"timestamp\":"@, 0);
            reveal_strlit("WindowMoved\",\"timestamp\":");
            lemma_expect_fails_at(s, "WindowMoved\",\"timestamp\":"@, 0);
            reveal_strlit("WindowResized\",\"timestamp\":");
            lemma_expect_fails_at(s, "WindowResized\",\"timestamp\":"@, 0);
            reveal_strlit("ElementFocused\",\"timestamp\":");
            lemma_expect_fails_at(s, "ElementFocused\",\"timestamp\":"@, 0);
            reveal_strlit("ValueChanged\",\"timestamp\":");
            lemma_expect_fails_at(s, "ValueChanged\",\"timestamp\":"@, 0);
            reveal_strlit("ElementDestroyed\",\"timestamp\":");
            lemma_expect_fails_at(s, "ElementDestroyed\",\"timestamp\":"@, 0);
            reveal_strlit("MenuOpened\",\"timestamp\":");
            lemma_expect_fails_at(s, "MenuOpened\",\"timestamp\":"@, 0);
            reveal_strlit("MenuClosed\",\"timestamp\":");
            lemma_expect_fails_at(s, "MenuClosed\",\"timestamp\":"@, 0);
            reveal_strlit("MenuItemSelected\",\"timestamp\":");
            lemma_expect_fails_at(s, "MenuItemSelected\",\"timestamp\":"@, 0);
            lemma_expect_prefix("SelectionChanged\",\"timestamp\":"@, rest);
        },
        EventType::SelectedTextChanged => {
            reveal_strlit("SelectedTextChanged");
            reveal_strlit("SelectedTextChanged\",\"timestamp\":");
            assert(crate::codec::spec_event_type_name(t) + "\",\"timestamp\":"@ =~= "SelectedTextChanged\",\"timestamp\":"@);
            assert(s =~= "SelectedTextChanged\",\"timestamp\":"@ + rest);
            reveal_strlit("ApplicationActivated\",\"timestamp\":");
            lemma_expect_fails_at(s, "ApplicationActivated\",\"timestamp\":"@, 0);
            reveal_strlit("ApplicationDeactivated\",\"timestamp\":");
            lemma_expect_fails_at(s, "ApplicationDeactivated\",\"timestamp\":"@, 0);
            reveal_strlit("WindowFocused\",\"timestamp\":");
            lemma_expect_fails_at(s, "WindowFocused\",\"timestamp\":"@, 0);
            reveal_strlit("WindowCreated\",\"timestamp\":");
            lemma_expect_fails_at(s, "WindowCreated\",\"timestamp\":"@, 0);
            reveal_strlit("WindowMoved\",\"timestamp\":");
            lemma_expect_fails_at(s, "WindowMoved\",\"timestamp\":"@, 0);
            reveal_strlit("WindowResized\",\"timestamp\":");
            lemma_expect_fails_at(s, "WindowResized\",\"timestamp\":"@, 0);
            reveal_strlit("ElementFocused\",\"timestamp\":");
            lemma_expect_fails_at(s, "ElementFocused\",\"timestamp\":"@, 0);
            reveal_strlit("ValueChanged\",\"timestamp\":");
            lemma_expect_fails_at(s, "ValueChanged\",\"timestamp\":"@, 0);
            reveal_strlit("ElementDestroyed\",\"timestamp\":");
            lemma_expect_fails_at(s, "ElementDestroyed\",\"timestamp\":"@, 0);
            reveal_strlit("MenuOpened\",\"timestamp\":");
            lemma_expect_fails_at(s, "MenuOpened\",\"timestamp\":"@, 0);
            reveal_strlit("MenuClosed\",\"timestamp\":");
            lemma_expect_fails_at(s, "MenuClosed\",\"timestamp\":"@, 0);
            reveal_strlit("MenuItemSelected\",\"timestamp\":");
            lemma_expect_fails_at(s, "MenuItemSelected\",\"timestamp\":"@, 0);
            reveal_strlit("SelectionChanged\",\"timestamp\":");
            lemma_expect_fails_at(s, "SelectionChanged\",\"timestamp\":"@, 6);
            lemma_expect_prefix("SelectedTextChanged\",\"timestamp\":"@, rest);
        },
        EventType::TitleChanged => {
            reveal_strlit("TitleChanged");
            reveal_strlit("TitleChanged\",\"timestamp\":");
            assert(crate::codec::spec_event_type_name(t) + "\",\"timestamp\":"@ =~= "TitleChanged\",\"timestamp\":"@);
            assert(s =~= "TitleChanged\",\"timestamp\":"@ + rest);
            reveal_strlit("ApplicationActivated\",\"timestamp\":");
            lemma_expect_fails_at(s, "ApplicationActivated\",\"timestamp\":"@, 0);
            reveal_strlit("ApplicationDeactivated\",\"timestamp\":");
            lemma_expect_fails_at(s, "ApplicationDeactivated\",\"timestamp\":"@, 0);
            reveal_strlit("WindowFocused\",\"timestamp\":");
            lemma_expect_fails_at(s, "WindowFocused\",\"timestamp\":"@, 0);
            reveal_strlit("WindowCreated\",\"timestamp\":");
            lemma_expect_fails_at(s, "WindowCreated\",\"timestamp\":"@, 0);
            reveal_strlit("WindowMoved\",\"timestamp\":");
            lemma_expect_fails_at(s, "WindowMoved\",\"timestamp\":"@, 0);
            reveal_strlit("WindowResized\",\"timestamp\":");
            lemma_expect_fails_at(s, "WindowResized\",\"timestamp\":"@, 0);
            reveal_strlit("ElementFocused\",\"timestamp\":");
            lemma_expect_fails_at(s, "ElementFocused\",\"timestamp\":"@, 0);
            reveal_strlit("ValueChanged\",\"timestamp\":");
            lemma_expect_fails_at(s, "ValueChanged\",\"timestamp\":"@, 0);
            reveal_strlit("ElementDestroyed\",\"timestamp\":");
            lemma_expect_fails_at(s, "ElementDestroyed\",\"timestamp\":"@, 0);
            reveal_strlit("MenuOpened\",\"timestamp\":");
            lemma_expect_fails_at(s, "MenuOpened\",\"timestamp\":"@, 0);
            reveal_strlit("MenuClosed\",\"timestamp\":");
            lemma_expect_fails_at(s, "MenuClosed\",\"timestamp\":"@, 0);
            reveal_strlit("MenuItemSelected\",\"timestamp\":");
            lemma_expect_fails_at(s, "MenuItemSelected\",\"timestamp\":"@, 0);
            reveal_strlit("SelectionChanged\",\"timestamp\":");
            lemma_expect_fails_at(s, "SelectionChanged\",\"timestamp\":"@, 0);
            reveal_strlit("SelectedTextChanged\",\"timestamp\":");
            lemma_expect_fails_at(s, "SelectedTextChanged\",\"timestamp\":"@, 0);
            lemma_expect_prefix("TitleChanged\",\"timestamp\":"@, rest);
        },
    }
}


/// An event in canonical form: a present-but-`null` scalar and an absent
/// field read the same on the wire, and the canonical form writes both as
/// absence. Every event the normalizer produces is canonical.
pub open spec fn canonical_event(m: UiEventModel) -> bool {
    &&& (m.element matches Option::Some(d) ==> d.value != Option::Some(JsonValueModel::Null))
    &&& m.event_specific_data != Option::Some(JsonValueModel::Null)
}

/// The serialized frame, re-bracketed the way the parser walks it: each
/// field's text followed by everything after it.
#[verifier::rlimit(100)]
proof fn lemma_serialize_shape(m: UiEventModel)
    ensures
        crate::codec::spec_serialize(m) == "{\"event_type\":\""@ + (
        crate::codec::spec_event_type_name(m.event_type) + "\",\"timestamp\":"@ + (
        crate::codec::spec_int(m.timestamp) + (",\"application\":"@ + (
        crate::codec::spec_ser_opt_application(m.application) + (",\"window\":"@ + (
        crate::codec::spec_ser_opt_window(m.window) + (",\"element\":"@ + (
        crate::codec::spec_ser_opt_element(m.element) + (",\"event_specific_data\":"@ + (
        crate::codec::spec_ser_opt_json(m.event_specific_data) + ("}"@
            + Seq::<char>::empty()))))))))))),
{
    let ghost_empty = Seq::<char>::empty();
    let p1 = "{\"event_type\":\""@;
    let p2 = crate::codec::spec_event_type_name(m.event_type);
    let p3 = "\",\"timestamp\":"@;
    let p4 = crate::codec::spec_int(m.timestamp);
    let p5 = ",\"application\":"@;
    let p6 = crate::codec::spec_ser_opt_application(m.application);
    let p7 = ",\"window\":"@;
    let p8 = crate::codec::spec_ser_opt_window(m.window);
    let p9 = ",\"element\":"@;
    let p10 = crate::codec::spec_ser_opt_element(m.element);
    let p11 = ",\"event_specific_data\":"@;
    let p12 = crate::codec::spec_ser_opt_json(m.event_specific_data);
    let p13 = "}"@;
    let r13 = p13 + ghost_empty;
    let r12 = p12 + r13;
    let r11 = p11 + r12;
    let r10 = p10 + r11;
    let r9 = p9 + r10;
    let r8 = p8 + r9;
    let r7 = p7 + r8;
    let r6 = p6 + r7;
    let r5 = p5 + r6;
    let r4 = p4 + r5;
    let r3 = p3 + r4;
    let r2 = p2 + r3;
    let r1 = p1 + r2;
    let l1 = p1;
    let l2 = l1 + p2;
    let l3 = l2 + p3;
    let l4 = l3 + p4;
    let l5 = l4 + p5;
    let l6 = l5 + p6;
    let l7 = l6 + p7;
    let l8 = l7 + p8;
    let l9 = l8 + p9;
    let l10 = l9 + p10;
    let l11 = l10 + p11;
    let l12 = l11 + p12;
    let l13 = l12 + p13;
    assert(crate::codec::spec_serialize(m) == l13);
    assert(p13 + ghost_empty =~= p13);
    assert(l13 == l12 + r13);
    assert(l12 + r13 =~= l11 + (p12 + r13));
    assert(l11 + r12 =~= l10 + (p11 + r12));
    assert(l10 + r11 =~= l9 + (p10 + r11));
    assert(l9 + r10 =~= l8 + (p9 + r10));
    assert(l8 + r9 =~= l7 + (p8 + r9));
    assert(l7 + r8 =~= l6 + (p7 + r8));
    assert(l6 + r7 =~= l5 + (p6 + r7));
    assert(l5 + r6 =~= l4 + (p5 + r6));
    assert(l4 + r5 =~= l3 + (p4 + r5));
    assert(l3 + r4 =~= l2 + (p3 + r4));
    assert(l2 + r3 =~= l1 + (p2 + r3));
    assert(l1 + r2 == r1);
    assert(crate::codec::spec_serialize(m) == r1);
}

/// Parsing a canonically serialized event gives back exactly that event.
#[verifier::rlimit(100)]
pub proof fn lemma_deserialize_of_serialize(m: UiEventModel)
    requires
        crate::event::wf_event(m),
        canonical_event(m),
    ensures
        spec_deserialize(crate::codec::spec_serialize(m)) == Option::Some(m),
{
    let s = crate::codec::spec_serialize(m);
    let r_end = Seq::<char>::empty();
    let s11 = "}"@ + r_end;
    let s10 = crate::codec::spec_ser_opt_json(m.event_specific_data) + s11;
    let s9 = ",\"event_specific_data\":"@ + s10;
    let s8 = crate::codec::spec_ser_opt_element(m.element) + s9;
    let s7 = ",\"element\":"@ + s8;
    let s6 = crate::codec::spec_ser_opt_window(m.window) + s7;
    let s5 = ",\"window\":"@ + s6;
    let s4 = crate::codec::spec_ser_opt_application(m.application) + s5;
    let s3 = ",\"application\":"@ + s4;
    let s2 = crate::codec::spec_int(m.timestamp) + s3;
    let s1 = crate::codec::spec_event_type_name(m.event_type) + "\",\"timestamp\":"@ + s2;
    lemma_serialize_shape(m);
    assert(s == "{\"event_type\":\""@ + s1);
    lemma_expect_prefix("{\"event_type\":\""@, s1);
    lemma_parse_event_type_of(m.event_type, s2);
    reveal_strlit(",\"application\":");
    assert(s3[0] == ',');
    assert(!is_digit_char(','));
    lemma_parse_int_of(m.timestamp, s3);
    lemma_expect_prefix(",\"application\":"@, s4);
    lemma_parse_opt_application_of(m.application, s5);
    lemma_expect_prefix(",\"window\":"@, s6);
    lemma_parse_opt_window_of(m.window, s7);
    lemma_expect_prefix(",\"element\":"@, s8);
    lemma_parse_opt_element_of(m.element, s9);
    lemma_expect_prefix(",\"event_specific_data\":"@, s10);
    reveal_strlit("}");
    assert(s11[0] == '}');
    assert(!is_digit_char('}'));
    lemma_parse_opt_json_of(m.event_specific_data, s11);
    lemma_expect_prefix("}"@, r_end);
    assert(spec_deserialize(s) == Option::Some(
        UiEventModel {
            event_type: m.event_type,
            timestamp: m.timestamp,
            application: m.application,
            window: m.window,
            element: m.element,
            event_specific_data: m.event_specific_data,
        },
    ));
}

/// The canonical representative of an event: the same event with any
/// present-but-`null` scalar written as absence.
pub open spec fn canon_event(m: UiEventModel) -> UiEventModel {
    UiEventModel {
        event_type: m.event_type,
        timestamp: m.timestamp,
        application: m.application,
        window: m.window,
        element: match m.element {
            Option::None => Option::None,
            Option::Some(d) => Option::Some(
                ElementDetailsModel {
                    role: d.role,
                    identifier: d.identifier,
                    value: if d.value == Option::Some(JsonValueModel::Null) {
                        Option::None
                    } else {
                        d.value
                    },
                    position: d.position,
                    size: d.size,
                },
            ),
        },
        event_specific_data: if m.event_specific_data == Option::Some(JsonValueModel::Null) {
            Option::None
        } else {
            m.event_specific_data
        },
    }
}

/// An event and its canonical representative read identically on the wire.
proof fn lemma_serialize_canon(m: UiEventModel)
    ensures
        crate::codec::spec_serialize(canon_event(m)) == crate::codec::spec_serialize(m),
{
    let c = canon_event(m);
    assert(crate::codec::spec_ser_opt_json(c.event_specific_data)
        == crate::codec::spec_ser_opt_json(m.event_specific_data));
    match m.element {
        Option::None => {},
        Option::Some(d) => {
            let d2 = c.element.unwrap();
            assert(crate::codec::spec_ser_opt_json(d2.value) == crate::codec::spec_ser_opt_json(
                d.value,
            ));
            assert(crate::codec::spec_ser_element(d2) == crate::codec::spec_ser_element(d));
        },
    }
}

/// Round-trip stability: serializing an event, parsing the text back and
/// serializing again reproduces the first text character for character,
/// and every absent optional field stays absent through the trip.
pub proof fn lemma_round_trip(m: UiEventModel)
    requires
        crate::event::wf_event(m),
    ensures
        spec_deserialize(crate::codec::spec_serialize(m)) is Some,
        crate::codec::spec_serialize(spec_deserialize(crate::codec::spec_serialize(m)).unwrap())
            == crate::codec::spec_serialize(m),
{
    lemma_serialize_canon(m);
    lemma_deserialize_of_serialize(canon_event(m));
}


/// Folding digits never shrinks a non-negative accumulator.
proof fn lemma_parse_digits_monotone(s: Seq<char>, a: int)
    requires
        a >= 0,
    ensures
        spec_parse_digits(s, a).0 >= a,
    decreases s.len(),
{
    if s.len() > 0 && is_digit_char(s[0]) {
        lemma_parse_digits_monotone(s.drop_first(), a * 10 + digit_val(s[0]));
    }
}

/// Matches an exact literal at position `i`, reporting the position after
/// it.
fn p_lit(s: &str, i: usize, lit: &str) -> (r: Option<usize>)
    requires
        i <= s@.len(),
    ensures
        match r {
            Option::Some(j) => i <= j <= s@.len() && spec_expect(s@.skip(i as int), lit@)
                == Option::Some(s@.skip(j as int)),
            Option::None => spec_expect(s@.skip(i as int), lit@) is None,
        },
{
    let llen = lit.unicode_len();
    let slen = s.unicode_len();
    if llen > slen - i {
        return Option::None;
    }
    let mut k: usize = 0;
    while k < llen
        invariant
            i <= s@.len(),
            llen == lit@.len(),
            slen == s@.len(),
            llen <= slen - i,
            k <= llen,
            forall|q: int| 0 <= q < k ==> s@[i + q] == lit@[q],
        decreases llen - k,
    {
        let sc = s.get_char(i + k);
        let lc = lit.get_char(k);
        if sc != lc {
            proof {
                let sk = s@.skip(i as int);
                if lit@.len() <= sk.len() && sk.take(lit@.len() as int) == lit@ {
                    assert(sk.take(lit@.len() as int)[k as int] == sk[k as int]);
                    assert(sk[k as int] == s@[i + k]);
                }
            }
            return Option::None;
        }
        k = k + 1;
    }
    proof {
        assert(s@.skip(i as int).take(llen as int) =~= lit@);
        assert(s@.skip(i as int).skip(llen as int) =~= s@.skip(i as int + llen as int));
    }
    Option::Some(i + llen)
}

/// Reads the rest of a JSON string after its opening quote, undoing the
/// canonical escapes, and reports the position after the closing quote.
fn p_string_body(s: &str, i: usize) -> (r: Option<(String, usize)>)
    requires
        i <= s@.len(),
    ensures
        match r {
            Option::Some((t, j)) => i <= j <= s@.len() && spec_parse_string_body(
                s@.skip(i as int),
            ) == Option::Some((t@, s@.skip(j as int))),
            Option::None => spec_parse_string_body(s@.skip(i as int)) is None,
        },
    decreases s@.len() - i,
{
    let slen = s.unicode_len();
    if i == slen {
        return Option::None;
    }
    let c = s.get_char(i);
    proof {
        assert(s@.skip(i as int)[0] == s@[i as int]);
    }
    if c == '"' {
        proof {
            assert(s@.skip(i as int).drop_first() =~= s@.skip(i as int + 1));
        }
        return Option::Some((String::new(), i + 1));
    }
    if c == '\\' {
        if i + 1 < slen {
            let c1 = s.get_char(i + 1);
            proof {
                assert(s@.skip(i as int)[1] == s@[i as int + 1]);
            }
            if c1 == '"' || c1 == '\\' {
                proof {
                    assert(s@.skip(i as int).skip(2) =~= s@.skip(i as int + 2));
                }
                match p_string_body(s, i + 2) {
                    Option::Some((t2, j)) => {
                        let mut out = String::new();
                        crate::codec::push_char(&mut out, c1);
                        out.append(t2.as_str());
                        proof {
                            assert(out@ =~= seq![s@.skip(i as int)[1]] + t2@);
                        }
                        return Option::Some((out, j));
                    },
                    Option::None => {
                        return Option::None;
                    },
                }
            } else if c1 == 'u' && slen - i >= 6 {
                let c2 = s.get_char(i + 2);
                let c3 = s.get_char(i + 3);
                let c4 = s.get_char(i + 4);
                let c5 = s.get_char(i + 5);
                proof {
                    assert(s@.skip(i as int)[2] == s@[i as int + 2]);
                    assert(s@.skip(i as int)[3] == s@[i as int + 3]);
                    assert(s@.skip(i as int)[4] == s@[i as int + 4]);
                    assert(s@.skip(i as int)[5] == s@[i as int + 5]);
                }
                if c2 != '0' || c3 != '0' {
                    return Option::None;
                }
                let h1 = match hex_digit_value(c4) {
                    Option::Some(v) => v,
                    Option::None => {
                        return Option::None;
                    },
                };
                let h2 = match hex_digit_value(c5) {
                    Option::Some(v) => v,
                    Option::None => {
                        return Option::None;
                    },
                };
                let code = h1 * 16 + h2;
                if code >= 32 {
                    return Option::None;
                }
                let decoded = (code as u8) as char;
                proof {
                    assert(s@.skip(i as int).skip(6) =~= s@.skip(i as int + 6));
                }
                match p_string_body(s, i + 6) {
                    Option::Some((t2, j)) => {
                        let mut out = String::new();
                        crate::codec::push_char(&mut out, decoded);
                        out.append(t2.as_str());
                        proof {
                            let sk = s@.skip(i as int);
                            assert(out@ =~= seq![
                                (((hex_val(sk[4]) * 16 + hex_val(sk[5])) as u8) as char),
                            ] + t2@);
                        }
                        return Option::Some((out, j));
                    },
                    Option::None => {
                        return Option::None;
                    },
                }
            } else {
                return Option::None;
            }
        } else {
            return Option::None;
        }
    }
    proof {
        assert(s@.skip(i as int).drop_first() =~= s@.skip(i as int + 1));
    }
    match p_string_body(s, i + 1) {
        Option::Some((t2, j)) => {
            let mut out = String::new();
            crate::codec::push_char(&mut out, c);
            out.append(t2.as_str());
            proof {
                assert(out@ =~= seq![s@.skip(i as int)[0]] + t2@);
            }
            Option::Some((out, j))
        },
        Option::None => Option::None,
    }
}

/// The value of one lower-case hexadecimal digit.
fn hex_digit_value(c: char) -> (r: Option<u32>)
    ensures
        match r {
            Option::Some(v) => is_hex_char(c) && v as int == hex_val(c) && v < 16,
            Option::None => !is_hex_char(c),
        },
{
    let v = c as u32;
    if 48 <= v && v <= 57 {
        Option::Some(v - 48)
    } else if 97 <= v && v <= 102 {
        Option::Some(v - 87)
    } else {
        Option::None
    }
}

/// Consumes a digit run, folding it onto `acc`, or fails when the value
/// outgrows the machine word.
fn p_digits(s: &str, i: usize, acc: u64) -> (r: Option<(u64, usize)>)
    requires
        i <= s@.len(),
    ensures
        match r {
            Option::Some((v, j)) => i <= j <= s@.len() && spec_parse_digits(
                s@.skip(i as int),
                acc as int,
            ) == (v as int, s@.skip(j as int)),
            Option::None => spec_parse_digits(s@.skip(i as int), acc as int).0 > u64::MAX,
        },
    decreases s@.len() - i,
{
    let slen = s.unicode_len();
    if i == slen {
        return Option::Some((acc, i));
    }
    let c = s.get_char(i);
    proof {
        assert(s@.skip(i as int)[0] == s@[i as int]);
    }
    let v = c as u32;
    if 48 <= v && v <= 57 {
        let d = (v - 48) as u64;
        proof {
            assert(digit_val(s@.skip(i as int)[0]) == d as int);
        }
        if acc > (u64::MAX - d) / 10 {
            proof {
                let q = ((u64::MAX - d) / 10) as int;
                vstd::arithmetic::div_mod::lemma_fundamental_div_mod((u64::MAX - d) as int, 10);
                assert((acc as int) * 10 >= (q + 1) * 10) by (nonlinear_arith)
                    requires acc as int >= q + 1,
                ;
                assert((acc as int) * 10 + d as int > u64::MAX as int);
                assert(s@.skip(i as int).drop_first() =~= s@.skip(i as int + 1));
                lemma_parse_digits_monotone(
                    s@.skip(i as int + 1),
                    (acc as int) * 10 + d as int,
                );
            }
            return Option::None;
        }
        proof {
            let q = ((u64::MAX - d) / 10) as int;
            vstd::arithmetic::div_mod::lemma_fundamental_div_mod((u64::MAX - d) as int, 10);
            assert((acc as int) * 10 <= q * 10) by (nonlinear_arith)
                requires acc as int <= q,
            ;
            assert((acc as int) * 10 + d as int <= u64::MAX as int);
        }
        let acc2 = acc * 10 + d;
        proof {
            assert(s@.skip(i as int).drop_first() =~= s@.skip(i as int + 1));
        }
        p_digits(s, i + 1, acc2)
    } else {
        Option::Some((acc, i))
    }
}

/// A non-empty digit run as a machine word.
fn p_uint(s: &str, i: usize) -> (r: Option<(u64, usize)>)
    requires
        i <= s@.len(),
    ensures
        match r {
            Option::Some((v, j)) => i <= j <= s@.len() && spec_parse_uint(s@.skip(i as int))
                == Option::Some((v as int, s@.skip(j as int))),
            Option::None => spec_parse_uint(s@.skip(i as int)) is None || (spec_parse_uint(
                s@.skip(i as int),
            ) matches Option::Some((n, _)) && n > u64::MAX),
        },
{
    let slen = s.unicode_len();
    if i == slen {
        return Option::None;
    }
    let c = s.get_char(i);
    proof {
        assert(s@.skip(i as int)[0] == s@[i as int]);
    }
    let v = c as u32;
    if v < 48 || v > 57 {
        return Option::None;
    }
    p_digits(s, i, 0)
}

/// A signed base-ten integer that fits a 64-bit word.
fn p_i64(s: &str, i: usize) -> (r: Option<(i64, usize)>)
    requires
        i <= s@.len(),
    ensures
        match r {
            Option::Some((v, j)) => i <= j <= s@.len() && spec_parse_int(s@.skip(i as int))
                == Option::Some((v as int, s@.skip(j as int))),
            Option::None => spec_parse_int(s@.skip(i as int)) is None || (spec_parse_int(
                s@.skip(i as int),
            ) matches Option::Some((n, _)) && !i64_range(n)),
        },
{
    let slen = s.unicode_len();
    if i == slen {
        return Option::None;
    }
    let c = s.get_char(i);
    proof {
        assert(s@.skip(i as int)[0] == s@[i as int]);
    }
    if c == '-' {
        proof {
            assert(s@.skip(i as int).drop_first() =~= s@.skip(i as int + 1));
        }
        match p_uint(s, i + 1) {
            Option::Some((mag, j)) => {
                if mag <= 9223372036854775807u64 {
                    Option::Some((-(mag as i64), j))
                } else if mag == 9223372036854775808u64 {
                    Option::Some((i64::MIN, j))
                } else {
                    Option::None
                }
            },
            Option::None => Option::None,
        }
    } else {
        match p_uint(s, i) {
            Option::Some((mag, j)) => {
                if mag <= 9223372036854775807u64 {
                    Option::Some((mag as i64, j))
                } else {
                    Option::None
                }
            },
            Option::None => Option::None,
        }
    }
}


/// An optional string field at position `i`.
fn p_opt_str(s: &str, i: usize) -> (r: Option<(Option<String>, usize)>)
    requires
        i <= s@.len(),
    ensures
        match r {
            Option::Some((o, j)) => i <= j <= s@.len() && spec_parse_opt_str(s@.skip(i as int))
                == Option::Some((view_opt_string(o), s@.skip(j as int))),
            Option::None => spec_parse_opt_str(s@.skip(i as int)) is None,
        },
{
    let slen = s.unicode_len();
    if i < slen && s.get_char(i) == 'n' {
        proof {
            assert(s@.skip(i as int)[0] == s@[i as int]);
        }
        match p_lit(s, i, "null") {
            Option::Some(j) => Option::Some((Option::None, j)),
            Option::None => Option::None,
        }
    } else {
        proof {
            if i < slen {
                assert(s@.skip(i as int)[0] == s@[i as int]);
            }
        }
        if i < slen && s.get_char(i) == '"' {
            proof {
                assert(s@.skip(i as int).drop_first() =~= s@.skip(i as int + 1));
            }
            match p_string_body(s, i + 1) {
                Option::Some((t, j)) => Option::Some((Option::Some(t), j)),
                Option::None => Option::None,
            }
        } else {
            Option::None
        }
    }
}

/// An optional process-id field at position `i`.
fn p_opt_pid(s: &str, i: usize) -> (r: Option<(Option<i32>, usize)>)
    requires
        i <= s@.len(),
    ensures
        match r {
            Option::Some((o, j)) => i <= j <= s@.len() && spec_parse_opt_bounded_int(
                s@.skip(i as int),
                i32::MIN as int,
                i32::MAX as int,
            ) == Option::Some(
                (
                    match o {
                        Option::None => Option::None,
                        Option::Some(p) => Option::Some(p as int),
                    },
                    s@.skip(j as int),
                ),
            ),
            Option::None => spec_parse_opt_bounded_int(
                s@.skip(i as int),
                i32::MIN as int,
                i32::MAX as int,
            ) is None,
        },
{
    let slen = s.unicode_len();
    if i < slen && s.get_char(i) == 'n' {
        proof {
            assert(s@.skip(i as int)[0] == s@[i as int]);
        }
        match p_lit(s, i, "null") {
            Option::Some(j) => Option::Some((Option::None, j)),
            Option::None => Option::None,
        }
    } else {
        proof {
            if i < slen {
                assert(s@.skip(i as int)[0] == s@[i as int]);
            }
        }
        match p_i64(s, i) {
            Option::Some((v, j)) => {
                if -2147483648i64 <= v && v <= 2147483647i64 {
                    Option::Some((Option::Some(v as i32), j))
                } else {
                    Option::None
                }
            },
            Option::None => Option::None,
        }
    }
}

/// A bounded signed integer field at position `i`, within the 64-bit wire
/// range.
fn p_i64_checked(s: &str, i: usize) -> (r: Option<(i64, usize)>)
    requires
        i <= s@.len(),
    ensures
        match r {
            Option::Some((v, j)) => i <= j <= s@.len() && spec_parse_int(s@.skip(i as int))
                == Option::Some((v as int, s@.skip(j as int))) && i64_range(v as int),
            Option::None => match spec_parse_int(s@.skip(i as int)) {
                Option::None => true,
                Option::Some((n, _)) => !i64_range(n),
            },
        },
{
    p_i64(s, i)
}

/// A JSON scalar at position `i`.
fn p_json(s: &str, i: usize) -> (r: Option<(JsonValue, usize)>)
    requires
        i <= s@.len(),
    ensures
        match r {
            Option::Some((v, j)) => i <= j <= s@.len() && spec_parse_json(s@.skip(i as int))
                == Option::Some((v@, s@.skip(j as int))),
            Option::None => spec_parse_json(s@.skip(i as int)) is None,
        },
{
    let slen = s.unicode_len();
    if i == slen {
        return Option::None;
    }
    let c = s.get_char(i);
    proof {
        assert(s@.skip(i as int)[0] == s@[i as int]);
    }
    if c == 'n' {
        match p_lit(s, i, "null") {
            Option::Some(j) => Option::Some((JsonValue::Null, j)),
            Option::None => Option::None,
        }
    } else if c == 't' {
        match p_lit(s, i, "true") {
            Option::Some(j) => Option::Some((JsonValue::Bool(true), j)),
            Option::None => Option::None,
        }
    } else if c == 'f' {
        match p_lit(s, i, "false") {
            Option::Some(j) => Option::Some((JsonValue::Bool(false), j)),
            Option::None => Option::None,
        }
    } else if c == '"' {
        proof {
            assert(s@.skip(i as int).drop_first() =~= s@.skip(i as int + 1));
        }
        match p_string_body(s, i + 1) {
            Option::Some((t, j)) => Option::Some((JsonValue::Str(t), j)),
            Option::None => Option::None,
        }
    } else {
        match p_i64_checked(s, i) {
            Option::Some((v, j)) => Option::Some((JsonValue::Int(v), j)),
            Option::None => Option::None,
        }
    }
}

/// An optional JSON scalar field at position `i`. `null` reads back as
/// absence.
fn p_opt_json(s: &str, i: usize) -> (r: Option<(Option<JsonValue>, usize)>)
    requires
        i <= s@.len(),
    ensures
        match r {
            Option::Some((o, j)) => i <= j <= s@.len() && spec_parse_opt_json(s@.skip(i as int))
                == Option::Some(
                (
                    match o {
                        Option::None => Option::None,
                        Option::Some(v) => Option::Some(v@),
                    },
                    s@.skip(j as int),
                ),
            ),
            Option::None => spec_parse_opt_json(s@.skip(i as int)) is None,
        },
{
    let slen = s.unicode_len();
    if i < slen && s.get_char(i) == 'n' {
        proof {
            assert(s@.skip(i as int)[0] == s@[i as int]);
        }
        match p_lit(s, i, "null") {
            Option::Some(j) => Option::Some((Option::None, j)),
            Option::None => Option::None,
        }
    } else {
        proof {
            if i < slen {
                assert(s@.skip(i as int)[0] == s@[i as int]);
            }
        }
        match p_json(s, i) {
            Option::Some((v, j)) => Option::Some((Option::Some(v), j)),
            Option::None => Option::None,
        }
    }
}

/// The application object at position `i`.
fn p_application(s: &str, i: usize) -> (r: Option<(ApplicationInfo, usize)>)
    requires
        i <= s@.len(),
    ensures
        match r {
            Option::Some((a, j)) => i <= j <= s@.len() && spec_parse_application(
                s@.skip(i as int),
            ) == Option::Some((a@, s@.skip(j as int))),
            Option::None => spec_parse_application(s@.skip(i as int)) is None,
        },
{
    let j1 = match p_lit(s, i, "{\"name\":") {
        Option::Some(j) => j,
        Option::None => {
            return Option::None;
        },
    };
    let (name, j2) = match p_opt_str(s, j1) {
        Option::Some(x) => x,
        Option::None => {
            return Option::None;
        },
    };
    let j3 = match p_lit(s, j2, ",\"pid\":") {
        Option::Some(j) => j,
        Option::None => {
            return Option::None;
        },
    };
    let (pid, j4) = match p_opt_pid(s, j3) {
        Option::Some(x) => x,
        Option::None => {
            return Option::None;
        },
    };
    let j5 = match p_lit(s, j4, "}") {
        Option::Some(j) => j,
        Option::None => {
            return Option::None;
        },
    };
    Option::Some((ApplicationInfo { name, pid }, j5))
}

/// The window object at position `i`.
fn p_window(s: &str, i: usize) -> (r: Option<(WindowInfo, usize)>)
    requires
        i <= s@.len(),
    ensures
        match r {
            Option::Some((w, j)) => i <= j <= s@.len() && spec_parse_window(s@.skip(i as int))
                == Option::Some((w@, s@.skip(j as int))),
            Option::None => spec_parse_window(s@.skip(i as int)) is None,
        },
{
    let j1 = match p_lit(s, i, "{\"title\":") {
        Option::Some(j) => j,
        Option::None => {
            return Option::None;
        },
    };
    let (title, j2) = match p_opt_str(s, j1) {
        Option::Some(x) => x,
        Option::None => {
            return Option::None;
        },
    };
    let j3 = match p_lit(s, j2, ",\"id\":") {
        Option::Some(j) => j,
        Option::None => {
            return Option::None;
        },
    };
    let (id, j4) = match p_opt_str(s, j3) {
        Option::Some(x) => x,
        Option::None => {
            return Option::None;
        },
    };
    let j5 = match p_lit(s, j4, "}") {
        Option::Some(j) => j,
        Option::None => {
            return Option::None;
        },
    };
    Option::Some((WindowInfo { title, id }, j5))
}

/// The position object at position `i`.
fn p_position(s: &str, i: usize) -> (r: Option<(Position, usize)>)
    requires
        i <= s@.len(),
    ensures
        match r {
            Option::Some((pz, j)) => i <= j <= s@.len() && spec_parse_position(s@.skip(i as int))
                == Option::Some((pz@, s@.skip(j as int))),
            Option::None => spec_parse_position(s@.skip(i as int)) is None,
        },
{
    let j1 = match p_lit(s, i, "{\"x\":") {
        Option::Some(j) => j,
        Option::None => {
            return Option::None;
        },
    };
    let (x, j2) = match p_i64_checked(s, j1) {
        Option::Some(v) => v,
        Option::None => {
            return Option::None;
        },
    };
    let j3 = match p_lit(s, j2, ",\"y\":") {
        Option::Some(j) => j,
        Option::None => {
            return Option::None;
        },
    };
    let (y, j4) = match p_i64_checked(s, j3) {
        Option::Some(v) => v,
        Option::None => {
            return Option::None;
        },
    };
    let j5 = match p_lit(s, j4, "}") {
        Option::Some(j) => j,
        Option::None => {
            return Option::None;
        },
    };
    Option::Some((Position { x, y }, j5))
}

/// The size object at position `i`.
fn p_size(s: &str, i: usize) -> (r: Option<(Size, usize)>)
    requires
        i <= s@.len(),
    ensures
        match r {
            Option::Some((z, j)) => i <= j <= s@.len() && spec_parse_size(s@.skip(i as int))
                == Option::Some((z@, s@.skip(j as int))),
            Option::None => spec_parse_size(s@.skip(i as int)) is None,
        },
{
    let j1 = match p_lit(s, i, "{\"width\":") {
        Option::Some(j) => j,
        Option::None => {
            return Option::None;
        },
    };
    let (width, j2) = match p_i64_checked(s, j1) {
        Option::Some(v) => v,
        Option::None => {
            return Option::None;
        },
    };
    let j3 = match p_lit(s, j2, ",\"height\":") {
        Option::Some(j) => j,
        Option::None => {
            return Option::None;
        },
    };
    let (height, j4) = match p_i64_checked(s, j3) {
        Option::Some(v) => v,
        Option::None => {
            return Option::None;
        },
    };
    let j5 = match p_lit(s, j4, "}") {
        Option::Some(j) => j,
        Option::None => {
            return Option::None;
        },
    };
    Option::Some((Size { width, height }, j5))
}


/// An optional object field at position `i`, dispatching on `null`.
fn p_opt_application(s: &str, i: usize) -> (r: Option<(Option<ApplicationInfo>, usize)>)
    requires
        i <= s@.len(),
    ensures
        match r {
            Option::Some((o, j)) => i <= j <= s@.len() && spec_parse_opt_application(
                s@.skip(i as int),
            ) == Option::Some(
                (
                    match o {
                        Option::None => Option::None,
                        Option::Some(a) => Option::Some(a@),
                    },
                    s@.skip(j as int),
                ),
            ),
            Option::None => spec_parse_opt_application(s@.skip(i as int)) is None,
        },
{
    let slen = s.unicode_len();
    if i < slen && s.get_char(i) == 'n' {
        proof {
            assert(s@.skip(i as int)[0] == s@[i as int]);
        }
        match p_lit(s, i, "null") {
            Option::Some(j) => Option::Some((Option::None, j)),
            Option::None => Option::None,
        }
    } else {
        proof {
            if i < slen {
                assert(s@.skip(i as int)[0] == s@[i as int]);
            }
        }
        match p_application(s, i) {
            Option::Some((a, j)) => Option::Some((Option::Some(a), j)),
            Option::None => Option::None,
        }
    }
}

/// An optional window field at position `i`.
fn p_opt_window(s: &str, i: usize) -> (r: Option<(Option<WindowInfo>, usize)>)
    requires
        i <= s@.len(),
    ensures
        match r {
            Option::Some((o, j)) => i <= j <= s@.len() && spec_parse_opt_window(
                s@.skip(i as int),
            ) == Option::Some(
                (
                    match o {
                        Option::None => Option::None,
                        Option::Some(w) => Option::Some(w@),
                    },
                    s@.skip(j as int),
                ),
            ),
            Option::None => spec_parse_opt_window(s@.skip(i as int)) is None,
        },
{
    let slen = s.unicode_len();
    if i < slen && s.get_char(i) == 'n' {
        proof {
            assert(s@.skip(i as int)[0] == s@[i as int]);
        }
        match p_lit(s, i, "null") {
            Option::Some(j) => Option::Some((Option::None, j)),
            Option::None => Option::None,
        }
    } else {
        proof {
            if i < slen {
                assert(s@.skip(i as int)[0] == s@[i as int]);
            }
        }
        match p_window(s, i) {
            Option::Some((w, j)) => Option::Some((Option::Some(w), j)),
            Option::None => Option::None,
        }
    }
}

/// An optional position field at position `i`.
fn p_opt_position(s: &str, i: usize) -> (r: Option<(Option<Position>, usize)>)
    requires
        i <= s@.len(),
    ensures
        match r {
            Option::Some((o, j)) => i <= j <= s@.len() && spec_parse_opt_position(
                s@.skip(i as int),
            ) == Option::Some(
                (
                    match o {
                        Option::None => Option::None,
                        Option::Some(pz) => Option::Some(pz@),
                    },
                    s@.skip(j as int),
                ),
            ),
            Option::None => spec_parse_opt_position(s@.skip(i as int)) is None,
        },
{
    let slen = s.unicode_len();
    if i < slen && s.get_char(i) == 'n' {
        proof {
            assert(s@.skip(i as int)[0] == s@[i as int]);
        }
        match p_lit(s, i, "null") {
            Option::Some(j) => Option::Some((Option::None, j)),
            Option::None => Option::None,
        }
    } else {
        proof {
            if i < slen {
                assert(s@.skip(i as int)[0] == s@[i as int]);
            }
        }
        match p_position(s, i) {
            Option::Some((pz, j)) => Option::Some((Option::Some(pz), j)),
            Option::None => Option::None,
        }
    }
}

/// An optional size field at position `i`.
fn p_opt_size(s: &str, i: usize) -> (r: Option<(Option<Size>, usize)>)
    requires
        i <= s@.len(),
    ensures
        match r {
            Option::Some((o, j)) => i <= j <= s@.len() && spec_parse_opt_size(s@.skip(i as int))
                == Option::Some(
                (
                    match o {
                        Option::None => Option::None,
                        Option::Some(z) => Option::Some(z@),
                    },
                    s@.skip(j as int),
                ),
            ),
            Option::None => spec_parse_opt_size(s@.skip(i as int)) is None,
        },
{
    let slen = s.unicode_len();
    if i < slen && s.get_char(i) == 'n' {
        proof {
            assert(s@.skip(i as int)[0] == s@[i as int]);
        }
        match p_lit(s, i, "null") {
            Option::Some(j) => Option::Some((Option::None, j)),
            Option::None => Option::None,
        }
    } else {
        proof {
            if i < slen {
                assert(s@.skip(i as int)[0] == s@[i as int]);
            }
        }
        match p_size(s, i) {
            Option::Some((z, j)) => Option::Some((Option::Some(z), j)),
            Option::None => Option::None,
        }
    }
}

/// The element object at position `i`.
#[verifier::rlimit(50)]
fn p_element(s: &str, i: usize) -> (r: Option<(ElementDetails, usize)>)
    requires
        i <= s@.len(),
    ensures
        match r {
            Option::Some((e, j)) => i <= j <= s@.len() && spec_parse_element(s@.skip(i as int))
                == Option::Some((e@, s@.skip(j as int))),
            Option::None => spec_parse_element(s@.skip(i as int)) is None,
        },
{
    proof {
        reveal(spec_parse_element);
    }
    let j1 = match p_lit(s, i, "{\"role\":") {
        Option::Some(j) => j,
        Option::None => {
            return Option::None;
        },
    };
    let (role, j2) = match p_opt_str(s, j1) {
        Option::Some(x) => x,
        Option::None => {
            return Option::None;
        },
    };
    let j3 = match p_lit(s, j2, ",\"identifier\":") {
        Option::Some(j) => j,
        Option::None => {
            return Option::None;
        },
    };
    let (identifier, j4) = match p_opt_str(s, j3) {
        Option::Some(x) => x,
        Option::None => {
            return Option::None;
        },
    };
    let j5 = match p_lit(s, j4, ",\"value\":") {
        Option::Some(j) => j,
        Option::None => {
            return Option::None;
        },
    };
    let (value, j6) = match p_opt_json(s, j5) {
        Option::Some(x) => x,
        Option::None => {
            return Option::None;
        },
    };
    let j7 = match p_lit(s, j6, ",\"position\":") {
        Option::Some(j) => j,
        Option::None => {
            return Option::None;
        },
    };
    let (position, j8) = match p_opt_position(s, j7) {
        Option::Some(x) => x,
        Option::None => {
            return Option::None;
        },
    };
    let j9 = match p_lit(s, j8, ",\"size\":") {
        Option::Some(j) => j,
        Option::None => {
            return Option::None;
        },
    };
    let (size, j10) = match p_opt_size(s, j9) {
        Option::Some(x) => x,
        Option::None => {
            return Option::None;
        },
    };
    let j11 = match p_lit(s, j10, "}") {
        Option::Some(j) => j,
        Option::None => {
            return Option::None;
        },
    };
    Option::Some((ElementDetails { role, identifier, value, position, size }, j11))
}

/// An optional element field at position `i`.
fn p_opt_element(s: &str, i: usize) -> (r: Option<(Option<ElementDetails>, usize)>)
    requires
        i <= s@.len(),
    ensures
        match r {
            Option::Some((o, j)) => i <= j <= s@.len() && spec_parse_opt_element(
                s@.skip(i as int),
            ) == Option::Some(
                (
                    match o {
                        Option::None => Option::None,
                        Option::Some(e) => Option::Some(e@),
                    },
                    s@.skip(j as int),
                ),
            ),
            Option::None => spec_parse_opt_element(s@.skip(i as int)) is None,
        },
{
    let slen = s.unicode_len();
    if i < slen && s.get_char(i) == 'n' {
        proof {
            assert(s@.skip(i as int)[0] == s@[i as int]);
        }
        match p_lit(s, i, "null") {
            Option::Some(j) => Option::Some((Option::None, j)),
            Option::None => Option::None,
        }
    } else {
        proof {
            if i < slen {
                assert(s@.skip(i as int)[0] == s@[i as int]);
            }
        }
        match p_element(s, i) {
            Option::Some((e, j)) => Option::Some((Option::Some(e), j)),
            Option::None => Option::None,
        }
    }
}

/// The quoted event-type name at position `i`, together with the separator
/// that follows it.
#[verifier::rlimit(50)]
fn p_event_type(s: &str, i: usize) -> (r: Option<(EventType, usize)>)
    requires
        i <= s@.len(),
    ensures
        match r {
            Option::Some((t, j)) => i <= j <= s@.len() && spec_parse_event_type(
                s@.skip(i as int),
            ) == Option::Some((t, s@.skip(j as int))),
            Option::None => spec_parse_event_type(s@.skip(i as int)) is None,
        },
{
    proof {
        reveal(spec_parse_event_type);
    }
    match p_lit(s, i, "ApplicationActivated\",\"timestamp\":") {
        Option::Some(j) => {
            return Option::Some((EventType::ApplicationActivated, j));
        },
        Option::None => {},
    }
    match p_lit(s, i, "ApplicationDeactivated\",\"timestamp\":") {
        Option::Some(j) => {
            return Option::Some((EventType::ApplicationDeactivated, j));
        },
        Option::None => {},
    }
    match p_lit(s, i, "WindowFocused\",\"timestamp\":") {
        Option::Some(j) => {
            return Option::Some((EventType::WindowFocused, j));
        },
        Option::None => {},
    }
    match p_lit(s, i, "WindowCreated\",\"timestamp\":") {
        Option::Some(j) => {
            return Option::Some((EventType::WindowCreated, j));
        },
        Option::None => {},
    }
    match p_lit(s, i, "WindowMoved\",\"timestamp\":") {
        Option::Some(j) => {
            return Option::Some((EventType::WindowMoved, j));
        },
        Option::None => {},
    }
    match p_lit(s, i, "WindowResized\",\"timestamp\":") {
        Option::Some(j) => {
            return Option::Some((EventType::WindowResized, j));
        },
        Option::None => {},
    }
    match p_lit(s, i, "ElementFocused\",\"timestamp\":") {
        Option::Some(j) => {
            return Option::Some((EventType::ElementFocused, j));
        },
        Option::None => {},
    }
    match p_lit(s, i, "ValueChanged\",\"timestamp\":") {
        Option::Some(j) => {
            return Option::Some((EventType::ValueChanged, j));
        },
        Option::None => {},
    }
    match p_lit(s, i, "ElementDestroyed\",\"timestamp\":") {
        Option::Some(j) => {
            return Option::Some((EventType::ElementDestroyed, j));
        },
        Option::None => {},
    }
    match p_lit(s, i, "MenuOpened\",\"timestamp\":") {
        Option::Some(j) => {
            return Option::Some((EventType::MenuOpened, j));
        },
        Option::None => {},
    }
    match p_lit(s, i, "MenuClosed\",\"timestamp\":") {
        Option::Some(j) => {
            return Option::Some((EventType::MenuClosed, j));
        },
        Option::None => {},
    }
    match p_lit(s, i, "MenuItemSelected\",\"timestamp\":") {
        Option::Some(j) => {
            return Option::Some((EventType::MenuItemSelected, j));
        },
        Option::None => {},
    }
    match p_lit(s, i, "SelectionChanged\",\"timestamp\":") {
        Option::Some(j) => {
            return Option::Some((EventType::SelectionChanged, j));
        },
        Option::None => {},
    }
    match p_lit(s, i, "SelectedTextChanged\",\"timestamp\":") {
        Option::Some(j) => {
            return Option::Some((EventType::SelectedTextChanged, j));
        },
        Option::None => {},
    }
    match p_lit(s, i, "TitleChanged\",\"timestamp\":") {
        Option::Some(j) => {
            return Option::Some((EventType::TitleChanged, j));
        },
        Option::None => {},
    }
    Option::None
}

/// Parses one canonical JSON text frame back into the event it encodes.
/// Exactly the frames the serializer produces are accepted; anything else
/// is rejected rather than guessed at.
#[verifier::rlimit(50)]
pub fn deserialize(s: &str) -> (r: Option<UiEvent>)
    ensures
        match r {
            Option::Some(e) => spec_deserialize(s@) == Option::Some(e@),
            Option::None => spec_deserialize(s@) is None,
        },
{
    proof {
        assert(s@.skip(0) =~= s@);
    }
    let slen = s.unicode_len();
    let j1 = match p_lit(s, 0, "{\"event_type\":\"") {
        Option::Some(j) => j,
        Option::None => {
            return Option::None;
        },
    };
    let (event_type, j2) = match p_event_type(s, j1) {
        Option::Some(x) => x,
        Option::None => {
            return Option::None;
        },
    };
    let (timestamp, j3) = match p_i64_checked(s, j2) {
        Option::Some(x) => x,
        Option::None => {
            return Option::None;
        },
    };
    let j4 = match p_lit(s, j3, ",\"application\":") {
        Option::Some(j) => j,
        Option::None => {
            return Option::None;
        },
    };
    let (application, j5) = match p_opt_application(s, j4) {
        Option::Some(x) => x,
        Option::None => {
            return Option::None;
        },
    };
    let j6 = match p_lit(s, j5, ",\"window\":") {
        Option::Some(j) => j,
        Option::None => {
            return Option::None;
        },
    };
    let (window, j7) = match p_opt_window(s, j6) {
        Option::Some(x) => x,
        Option::None => {
            return Option::None;
        },
    };
    let j8 = match p_lit(s, j7, ",\"element\":") {
        Option::Some(j) => j,
        Option::None => {
            return Option::None;
        },
    };
    let (element, j9) = match p_opt_element(s, j8) {
        Option::Some(x) => x,
        Option::None => {
            return Option::None;
        },
    };
    let j10 = match p_lit(s, j9, ",\"event_specific_data\":") {
        Option::Some(j) => j,
        Option::None => {
            return Option::None;
        },
    };
    let (event_specific_data, j11) = match p_opt_json(s, j10) {
        Option::Some(x) => x,
        Option::None => {
            return Option::None;
        },
    };
    let j12 = match p_lit(s, j11, "}") {
        Option::Some(j) => j,
        Option::None => {
            return Option::None;
        },
    };
    if j12 != slen {
        return Option::None;
    }
    proof {
        assert(s@.skip(j12 as int).len() == 0);
    }
    Option::Some(
        UiEvent { event_type, timestamp, application, window, element, event_specific_data },
    )
}


/// Round-trip stability holds for every executable event with no side
/// condition: any `UiEvent` value's view is well formed, so serializing
/// it, parsing the text back and serializing again reproduces the first
/// text character for character.
pub proof fn lemma_round_trip_event(e: &UiEvent)
    ensures
        spec_deserialize(crate::codec::spec_serialize(e@)) is Some,
        crate::codec::spec_serialize(spec_deserialize(crate::codec::spec_serialize(e@)).unwrap())
            == crate::codec::spec_serialize(e@),
{
    crate::event::lemma_view_wf(e);
    lemma_round_trip(e@);
}

} // verus!

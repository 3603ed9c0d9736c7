//! The output configuration: how the controller state is handed on, and how
//! often.

use vstd::prelude::*;
use vstd::string::StringExecFns;
use crate::text::str_eq;
use crate::text::text_view;

verus! {

/// How often the output loop pushes the state.
#[derive(Clone, Copy, Debug, PartialEq, Eq, Structural)]
pub enum PollingRate {
    Sixty,
    Hundred,
    TwoHundredFifty,
    FiveHundred,
    Thousand,
}

/// Key maps of the keyboard output.
#[derive(Clone, Copy, Debug, PartialEq, Eq, Structural)]
pub enum KeyboardLayout {
    Tasoller,
    Yuancon,
    Deemo,
    Voltex,
    Neardayo,
}

/// Button maps of the gamepad output.
#[derive(Clone, Copy, Debug, PartialEq, Eq, Structural)]
pub enum GamepadLayout {
    Voltex,
    Neardayo,
}

/// Where the controller state goes.
#[allow(inconsistent_fields)]
#[derive(Clone, Debug, PartialEq, Eq)]
pub enum OutputMode {
    /// No output at all (the setting `none`).
    Disabled,
    Keyboard { layout: KeyboardLayout, polling: PollingRate, sensitivity: u8 },
    Gamepad { layout: GamepadLayout, polling: PollingRate, sensitivity: u8 },
    Websocket { url: String, polling: PollingRate },
}

/// An output mode with its text as a sequence of characters.
#[allow(inconsistent_fields)]
pub enum OutputModeView {
    Disabled,
    Keyboard { layout: KeyboardLayout, polling: PollingRate, sensitivity: u8 },
    Gamepad { layout: GamepadLayout, polling: PollingRate, sensitivity: u8 },
    Websocket { url: Seq<char>, polling: PollingRate },
}

impl View for OutputMode {
    type V = OutputModeView;

    open spec fn view(&self) -> OutputModeView {
        match *self {
            OutputMode::Disabled => OutputModeView::Disabled,
            OutputMode::Keyboard { layout, polling, sensitivity } => OutputModeView::Keyboard {
                layout,
                polling,
                sensitivity,
            },
            OutputMode::Gamepad { layout, polling, sensitivity } => OutputModeView::Gamepad {
                layout,
                polling,
                sensitivity,
            },
            OutputMode::Websocket { url, polling } => OutputModeView::Websocket {
                url: url@,
                polling,
            },
        }
    }
}

/// A JSON value of `serde_json`, whose inside is not modelled here.
#[verifier::external_type_specification]
#[verifier::external_body]
pub struct ExValue(serde_json::Value);

/// The member that a JSON value holds under a key.
pub uninterp spec fn json_member(v: serde_json::Value, key: Seq<char>) -> serde_json::Value;

/// The text of a JSON value, if it is a string.
pub uninterp spec fn json_text(v: serde_json::Value) -> Option<Seq<char>>;

/// The number of a JSON value, if it is an integer that fits `i64`.
pub uninterp spec fn json_integer(v: serde_json::Value) -> Option<i64>;

/// Indexing of `serde_json::Value` by a string key. The result is named as
/// the member under that key; for a value that is no object, or that lacks
/// the key, the outside code hands out a null value and does not fail.
#[verifier::external_body]
fn member<'a>(v: &'a serde_json::Value, key: &str) -> (found: &'a serde_json::Value)
    ensures
        *found == json_member(*v, key@),
{
    &v[key]
}

/// `serde_json::Value::as_str`: the text of a value, where it is a string.
/// The result is named as the value's text.
#[verifier::external_body]
fn as_text<'a>(v: &'a serde_json::Value) -> (text: Option<&'a str>)
    ensures
        text_view(text) == json_text(*v),
{
    v.as_str()
}

/// `serde_json::Value::as_i64`: the number of a value, where it is an
/// integer within `i64`. The result is named as the value's integer.
#[verifier::external_body]
fn as_integer(v: &serde_json::Value) -> (number: Option<i64>)
    ensures
        number == json_integer(*v),
{
    v.as_i64()
}

/// The text that a JSON value holds under a key, if it holds a string there.
pub open spec fn text_setting(v: serde_json::Value, key: Seq<char>) -> Option<Seq<char>> {
    json_text(json_member(v, key))
}

/// The integer that a JSON value holds under a key, if it holds one there.
pub open spec fn integer_setting(v: serde_json::Value, key: Seq<char>) -> Option<i64> {
    json_integer(json_member(v, key))
}

/// The polling rate that a setting names, if it names one.
pub open spec fn polling_of(s: Seq<char>) -> Option<PollingRate> {
    if s == "60"@ {
        Some(PollingRate::Sixty)
    } else if s == "100"@ {
        Some(PollingRate::Hundred)
    } else if s == "250"@ {
        Some(PollingRate::TwoHundredFifty)
    } else if s == "500"@ {
        Some(PollingRate::FiveHundred)
    } else if s == "1000"@ {
        Some(PollingRate::Thousand)
    } else {
        None
    }
}

/// The iterations per second of a polling rate.
pub open spec fn hertz(rate: PollingRate) -> int {
    match rate {
        PollingRate::Sixty => 60,
        PollingRate::Hundred => 100,
        PollingRate::TwoHundredFifty => 250,
        PollingRate::FiveHundred => 500,
        PollingRate::Thousand => 1000,
    }
}

/// The loop period of a polling rate: the whole microseconds of one
/// iteration.
pub open spec fn period_micros(rate: PollingRate) -> int {
    1_000_000int / hertz(rate)
}

/// The keyboard layout that an output mode's name selects, if any.
pub open spec fn keyboard_layout_of(mode: Seq<char>) -> Option<KeyboardLayout> {
    if mode == "kb-32-tasoller"@ {
        Some(KeyboardLayout::Tasoller)
    } else if mode == "kb-32-yuancon"@ {
        Some(KeyboardLayout::Yuancon)
    } else if mode == "kb-8-deemo"@ {
        Some(KeyboardLayout::Deemo)
    } else if mode == "kb-voltex"@ {
        Some(KeyboardLayout::Voltex)
    } else if mode == "kb-neardayo"@ {
        Some(KeyboardLayout::Neardayo)
    } else {
        None
    }
}

/// The gamepad layout that an output mode's name selects, if any.
pub open spec fn gamepad_layout_of(mode: Seq<char>) -> Option<GamepadLayout> {
    if mode == "gamepad-voltex"@ {
        Some(GamepadLayout::Voltex)
    } else if mode == "gamepad-neardayo"@ {
        Some(GamepadLayout::Neardayo)
    } else {
        None
    }
}

/// A sensitivity setting as a byte, if it fits one.
pub open spec fn sensitivity_of(raw: i64) -> Option<u8> {
    if 0 <= raw <= 255 {
        Some(raw as u8)
    } else {
        None
    }
}

/// The polling rate of an optional setting.
pub open spec fn polling_setting(polling: Option<Seq<char>>) -> Option<PollingRate> {
    match polling {
        Some(s) => polling_of(s),
        None => None,
    }
}

/// The sensitivity of an optional setting.
pub open spec fn sensitivity_setting(sensitivity: Option<i64>) -> Option<u8> {
    match sensitivity {
        Some(raw) => sensitivity_of(raw),
        None => None,
    }
}

/// The output mode that four settings describe: the mode's name, the polling
/// rate, the sensitivity and the relay's address. A setting that the named
/// mode needs and that is absent or malformed leaves no mode at all.
pub open spec fn output_mode_of(
    mode: Option<Seq<char>>,
    polling: Option<Seq<char>>,
    sensitivity: Option<i64>,
    url: Option<Seq<char>>,
) -> Option<OutputModeView> {
    match mode {
        None => None,
        Some(name) => {
            if name == "none"@ {
                Some(OutputModeView::Disabled)
            } else if keyboard_layout_of(name) is Some {
                match (polling_setting(polling), sensitivity_setting(sensitivity)) {
                    (Some(rate), Some(level)) => Some(
                        OutputModeView::Keyboard {
                            layout: keyboard_layout_of(name)->0,
                            polling: rate,
                            sensitivity: level,
                        },
                    ),
                    _ => None,
                }
            } else if gamepad_layout_of(name) is Some {
                match (polling_setting(polling), sensitivity_setting(sensitivity)) {
                    (Some(rate), Some(level)) => Some(
                        OutputModeView::Gamepad {
                            layout: gamepad_layout_of(name)->0,
                            polling: rate,
                            sensitivity: level,
                        },
                    ),
                    _ => None,
                }
            } else if name == "websocket"@ {
                match (url, polling_setting(polling)) {
                    (Some(address), Some(rate)) => Some(
                        OutputModeView::Websocket { url: address, polling: rate },
                    ),
                    _ => None,
                }
            } else {
                None
            }
        },
    }
}

/// The view of an optional output mode.
pub open spec fn mode_view(mode: Option<OutputMode>) -> Option<OutputModeView> {
    match mode {
        Some(m) => Some(m@),
        None => None,
    }
}

impl PollingRate {
    /// Reads a polling rate from its setting: one of `60`, `100`, `250`,
    /// `500` and `1000`.
    pub fn from_str(s: &str) -> (rate: Option<PollingRate>)
        ensures
            rate == polling_of(s@),
    {
        if str_eq(s, "60") {
            Some(PollingRate::Sixty)
        } else if str_eq(s, "100") {
            Some(PollingRate::Hundred)
        } else if str_eq(s, "250") {
            Some(PollingRate::TwoHundredFifty)
        } else if str_eq(s, "500") {
            Some(PollingRate::FiveHundred)
        } else if str_eq(s, "1000") {
            Some(PollingRate::Thousand)
        } else {
            None
        }
    }

    /// The loop period in microseconds.
    pub fn to_t_u64(&self) -> (micros: u64)
        ensures
            micros == period_micros(*self),
    {
        match self {
            PollingRate::Sixty => 16666,
            PollingRate::Hundred => 10000,
            PollingRate::TwoHundredFifty => 4000,
            PollingRate::FiveHundred => 2000,
            PollingRate::Thousand => 1000,
        }
    }
}

impl KeyboardLayout {
    /// The keyboard layout that an output mode's name selects.
    pub fn from_mode(name: &str) -> (layout: Option<KeyboardLayout>)
        ensures
            layout == keyboard_layout_of(name@),
    {
        if str_eq(name, "kb-32-tasoller") {
            Some(KeyboardLayout::Tasoller)
        } else if str_eq(name, "kb-32-yuancon") {
            Some(KeyboardLayout::Yuancon)
        } else if str_eq(name, "kb-8-deemo") {
            Some(KeyboardLayout::Deemo)
        } else if str_eq(name, "kb-voltex") {
            Some(KeyboardLayout::Voltex)
        } else if str_eq(name, "kb-neardayo") {
            Some(KeyboardLayout::Neardayo)
        } else {
            None
        }
    }
}

impl GamepadLayout {
    /// The gamepad layout that an output mode's name selects.
    pub fn from_mode(name: &str) -> (layout: Option<GamepadLayout>)
        ensures
            layout == gamepad_layout_of(name@),
    {
        if str_eq(name, "gamepad-voltex") {
            Some(GamepadLayout::Voltex)
        } else if str_eq(name, "gamepad-neardayo") {
            Some(GamepadLayout::Neardayo)
        } else {
            None
        }
    }
}

/// Reads an optional polling setting.
fn read_polling(polling: Option<&str>) -> (rate: Option<PollingRate>)
    ensures
        rate == polling_setting(text_view(polling)),
{
    match polling {
        Some(s) => PollingRate::from_str(s),
        None => None,
    }
}

/// Reads an optional sensitivity setting.
fn read_sensitivity(sensitivity: Option<i64>) -> (level: Option<u8>)
    ensures
        level == sensitivity_setting(sensitivity),
{
    match sensitivity {
        Some(raw) => if 0 <= raw && raw <= 255 {
            Some(raw as u8)
        } else {
            None
        },
        None => None,
    }
}

impl OutputMode {
    /// Builds the output mode from its four settings, each absent or given:
    /// the mode's name, the polling rate, the sensitivity and the relay's
    /// address. Gives nothing where the name is absent or unknown, or where a
    /// setting that the mode needs is absent or malformed.
    pub fn from_settings(
        mode: Option<&str>,
        polling: Option<&str>,
        sensitivity: Option<i64>,
        url: Option<&str>,
    ) -> (selected: Option<OutputMode>)
        ensures
            mode_view(selected) == output_mode_of(
                text_view(mode),
                text_view(polling),
                sensitivity,
                text_view(url),
            ),
    {
        let name: &str = match mode {
            Some(name) => name,
            None => {
                return None;
            },
        };
        if str_eq(name, "none") {
            return Some(OutputMode::Disabled);
        }
        let rate = read_polling(polling);
        let level = read_sensitivity(sensitivity);
        if let Some(layout) = KeyboardLayout::from_mode(name) {
            return match (rate, level) {
                (Some(polling), Some(sensitivity)) => Some(
                    OutputMode::Keyboard { layout, polling, sensitivity },
                ),
                _ => None,
            };
        }
        if let Some(layout) = GamepadLayout::from_mode(name) {
            return match (rate, level) {
                (Some(polling), Some(sensitivity)) => Some(
                    OutputMode::Gamepad { layout, polling, sensitivity },
                ),
                _ => None,
            };
        }
        if str_eq(name, "websocket") {
            return match (url, rate) {
                (Some(address), Some(polling)) => Some(
                    OutputMode::Websocket { url: String::from_str(address), polling },
                ),
                _ => None,
            };
        }
        None
    }

    /// Reads the output mode from a JSON configuration: the members
    /// `outputMode`, `outputPolling`, `keyboardSensitivity` and
    /// `outputWebsocketUrl`, combined as `from_settings` says. A member that
    /// is absent or of another type counts as an absent setting.
    pub fn from_serde_value(v: &serde_json::Value) -> (selected: Option<OutputMode>)
        ensures
            mode_view(selected) == output_mode_of(
                text_setting(*v, "outputMode"@),
                text_setting(*v, "outputPolling"@),
                integer_setting(*v, "keyboardSensitivity"@),
                text_setting(*v, "outputWebsocketUrl"@),
            ),
    {
        let mode = as_text(member(v, "outputMode"));
        let polling = as_text(member(v, "outputPolling"));
        let sensitivity = as_integer(member(v, "keyboardSensitivity"));
        let url = as_text(member(v, "outputWebsocketUrl"));
        OutputMode::from_settings(mode, polling, sensitivity, url)
    }
}

} // verus!

//! The action codec: what a physical button does, as the daemon reports it
//! and as a person reads it.
//!
//! The daemon describes a button by a type code and a payload value. The
//! payload is dynamically typed on the wire; [`Payload`] keeps of it exactly
//! what the codec looks at.

use crate::text::{decimal, push_decimal};
use vstd::prelude::*;
use vstd::string::*;

verus! {

/// The shape of a dynamically typed value received from or sent to the daemon.
#[derive(Debug, PartialEq, Eq)]
pub enum Payload {
    /// An unsigned 32-bit number.
    U32(u32),
    /// A value inside one generic-value envelope.
    Wrapped(Box<Payload>),
    /// A value of any other shape.
    Other,
}

/// What a physical button does.
#[derive(Debug, Clone, Copy, PartialEq, Eq, Structural)]
pub enum ButtonAction {
    /// The button does nothing.
    NoAction,
    /// The button acts as the mouse button with this number.
    Button(u32),
    /// The button triggers the special function with this code.
    Special(u32),
    /// The button sends the key with this code.
    Key(u32),
    /// The daemon reported something this codec does not understand.
    Unknown,
}

/// The payload with one envelope taken off, if it has one.
pub open spec fn unwrapped(payload: Payload) -> Payload {
    match payload {
        Payload::Wrapped(inner) => *inner,
        other => other,
    }
}

/// Whether the payload is a number inside exactly one envelope.
pub open spec fn is_wrapped_number(payload: Payload) -> bool {
    match payload {
        Payload::Wrapped(inner) => *inner is U32,
        _ => false,
    }
}

/// The number a payload carries, directly or inside exactly one envelope.
pub open spec fn carried_number(payload: Payload) -> Option<u32> {
    match unwrapped(payload) {
        Payload::U32(n) => Some(n),
        _ => None,
    }
}

/// The resolution that a value stands for: the number it carries, directly
/// or inside one envelope, and zero where it carries none.
pub open spec fn decode_dpi(value: Payload) -> u32 {
    match carried_number(value) {
        Some(number) => number,
        None => 0,
    }
}

/// The value that a resolution is written as: the number inside one
/// envelope.
pub open spec fn encode_dpi(dpi: u32) -> Payload {
    Payload::Wrapped(Box::new(Payload::U32(dpi)))
}

/// The action that a type code and a payload stand for. Every pair stands
/// for exactly one action; what is not understood stands for `Unknown`.
pub open spec fn decode(type_code: u32, payload: Payload) -> ButtonAction {
    if type_code == 0 {
        ButtonAction::NoAction
    } else if type_code == 1 {
        match carried_number(payload) {
            Some(n) => ButtonAction::Button(n),
            None => ButtonAction::Unknown,
        }
    } else if type_code == 2 {
        match carried_number(payload) {
            Some(n) => ButtonAction::Special(n),
            None => ButtonAction::Unknown,
        }
    } else if type_code == 3 {
        match carried_number(payload) {
            Some(n) => ButtonAction::Key(n),
            None => ButtonAction::Unknown,
        }
    } else {
        ButtonAction::Unknown
    }
}

/// The type code and payload that an action is written as. `Unknown` cannot
/// be written.
pub open spec fn encode(action: ButtonAction) -> Option<(u32, Payload)> {
    match action {
        ButtonAction::NoAction => Some((0u32, Payload::U32(0))),
        ButtonAction::Button(n) => Some((1u32, Payload::U32(n))),
        ButtonAction::Special(n) => Some((2u32, Payload::U32(n))),
        ButtonAction::Key(n) => Some((3u32, Payload::U32(n))),
        ButtonAction::Unknown => None,
    }
}

/// The text shown for an action. Mouse buttons one to eight have names of
/// their own; everything else is shown by kind and number.
pub open spec fn label_text(action: ButtonAction) -> Seq<char> {
    match action {
        ButtonAction::NoAction => "None"@,
        ButtonAction::Button(n) => if n == 1 {
            "Left Click"@
        } else if n == 2 {
            "Right Click"@
        } else if n == 3 {
            "Middle Click"@
        } else if n == 4 {
            "Back"@
        } else if n == 5 {
            "Forward"@
        } else if n == 6 {
            "Side Left"@
        } else if n == 7 {
            "Side Right"@
        } else if n == 8 {
            "Side Middle"@
        } else {
            "Button "@ + decimal(n as nat)
        },
        ButtonAction::Special(n) => "Special "@ + decimal(n as nat),
        ButtonAction::Key(n) => "Key "@ + decimal(n as nat),
        ButtonAction::Unknown => "Unknown"@,
    }
}

impl Payload {
    /// Reads the number a payload carries, looking through one envelope.
    pub fn number(&self) -> (n: Option<u32>)
        ensures
            n == carried_number(*self),
    {
        let inner: &Payload = match self {
            Payload::Wrapped(boxed) => &**boxed,
            other => other,
        };
        match inner {
            Payload::U32(n) => Some(*n),
            _ => None,
        }
    }

    /// Reads a resolution from the value of a resolution object.
    pub fn to_dpi(&self) -> (dpi: u32)
        ensures
            dpi == decode_dpi(*self),
    {
        match self.number() {
            Some(number) => number,
            None => 0,
        }
    }

    /// The value to write to a resolution object for a resolution.
    pub fn from_dpi(dpi: u32) -> (value: Payload)
        ensures
            value == encode_dpi(dpi),
    {
        Payload::Wrapped(Box::new(Payload::U32(dpi)))
    }
}

impl ButtonAction {
    /// Decodes a button mapping as reported by the daemon.
    pub fn from_mapping(action_type: u32, value: &Payload) -> (action: ButtonAction)
        ensures
            action == decode(action_type, *value),
    {
        if action_type == 0 {
            return ButtonAction::NoAction;
        }
        if action_type > 3 {
            return ButtonAction::Unknown;
        }
        match value.number() {
            Some(n) => if action_type == 1 {
                ButtonAction::Button(n)
            } else if action_type == 2 {
                ButtonAction::Special(n)
            } else {
                ButtonAction::Key(n)
            },
            None => ButtonAction::Unknown,
        }
    }

    /// Encodes the action as the mapping to write to the daemon, or `None`
    /// for `Unknown`, which has no written form.
    pub fn to_mapping(&self) -> (mapping: Option<(u32, Payload)>)
        ensures
            mapping == encode(*self),
    {
        match self {
            ButtonAction::NoAction => Some((0u32, Payload::U32(0))),
            ButtonAction::Button(n) => Some((1u32, Payload::U32(*n))),
            ButtonAction::Special(n) => Some((2u32, Payload::U32(*n))),
            ButtonAction::Key(n) => Some((3u32, Payload::U32(*n))),
            ButtonAction::Unknown => None,
        }
    }

    /// The text shown for the action.
    pub fn label(&self) -> (text: String)
        ensures
            text@ == label_text(*self),
    {
        match self {
            ButtonAction::NoAction => String::from_str("None"),
            ButtonAction::Button(n) => {
                let n: u32 = *n;
                if n == 1 {
                    String::from_str("Left Click")
                } else if n == 2 {
                    String::from_str("Right Click")
                } else if n == 3 {
                    String::from_str("Middle Click")
                } else if n == 4 {
                    String::from_str("Back")
                } else if n == 5 {
                    String::from_str("Forward")
                } else if n == 6 {
                    String::from_str("Side Left")
                } else if n == 7 {
                    String::from_str("Side Right")
                } else if n == 8 {
                    String::from_str("Side Middle")
                } else {
                    let mut text = String::from_str("Button ");
                    push_decimal(&mut text, n as u64);
                    text
                }
            },
            ButtonAction::Special(n) => {
                let mut text = String::from_str("Special ");
                push_decimal(&mut text, *n as u64);
                text
            },
            ButtonAction::Key(n) => {
                let mut text = String::from_str("Key ");
                push_decimal(&mut text, *n as u64);
                text
            },
            ButtonAction::Unknown => String::from_str("Unknown"),
        }
    }
}

/// Writing a decoded mapping gives the mapping back: for the three type
/// codes that carry a number, and a payload that is that plain number,
/// encoding what was decoded yields the same type code and payload.
pub proof fn lemma_encode_inverts_decode(type_code: u32, n: u32)
    requires
        1 <= type_code <= 3,
    ensures
        encode(decode(type_code, Payload::U32(n))) == Some((type_code, Payload::U32(n))),
{
}

/// Reading a written action gives the action back, for every action that
/// can be written.
pub proof fn lemma_decode_inverts_encode(action: ButtonAction)
    requires
        action != ButtonAction::Unknown,
    ensures
        encode(action) matches Some(mapping) && decode(mapping.0, mapping.1) == action,
{
}

/// Reading a resolution that was written gives the resolution back.
pub proof fn lemma_decode_dpi_inverts_encode(dpi: u32)
    ensures
        decode_dpi(encode_dpi(dpi)) == dpi,
{
}

/// One more envelope around a payload does not change what it decodes to.
/// The one exception is left out: a payload that already is a number in an
/// envelope, under a type code that carries a number. The decoder looks
/// through one envelope only, so the number then is out of its sight.
pub proof fn lemma_decode_ignores_envelope(type_code: u32, payload: Payload)
    requires
        !(1 <= type_code <= 3 && is_wrapped_number(payload)),
    ensures
        decode(type_code, Payload::Wrapped(Box::new(payload))) == decode(type_code, payload),
{
}

} // verus!

//! Types used in commands.

pub mod flags;
pub mod id;

use vstd::prelude::*;
use crate::format::instructions::FromNumber;

verus! {

#[derive(Debug, Copy, Clone, PartialEq, Eq, Hash, Structural)]
pub enum LayerType {
    Null,
    Tile,
    Picture,
    Bustup,
    Animation,
    Effect,
    Movie,
    FocusLine,
    Rain,
    Quiz,
}

impl LayerType {
    /// The layer type that a number stands for, if it stands for one.
    pub open spec fn spec_from_i32(number: i32) -> Option<LayerType> {
        match number {
            0 => Some(LayerType::Null),
            1 => Some(LayerType::Tile),
            2 => Some(LayerType::Picture),
            3 => Some(LayerType::Bustup),
            4 => Some(LayerType::Animation),
            5 => Some(LayerType::Effect),
            6 => Some(LayerType::Movie),
            7 => Some(LayerType::FocusLine),
            8 => Some(LayerType::Rain),
            9 => Some(LayerType::Quiz),
            _ => None,
        }
    }

    #[verifier::when_used_as_spec(spec_from_i32)]
    pub fn from_i32(number: i32) -> (layer_type: Option<LayerType>)
        ensures
            layer_type == LayerType::spec_from_i32(number),
            layer_type is Some <==> 0 <= number <= 9,
    {
        match number {
            0 => Some(LayerType::Null),
            1 => Some(LayerType::Tile),
            2 => Some(LayerType::Picture),
            3 => Some(LayerType::Bustup),
            4 => Some(LayerType::Animation),
            5 => Some(LayerType::Effect),
            6 => Some(LayerType::Movie),
            7 => Some(LayerType::FocusLine),
            8 => Some(LayerType::Rain),
            9 => Some(LayerType::Quiz),
            _ => None,
        }
    }
}

impl FromNumber for LayerType {
    open spec fn is_number(number: i32) -> bool {
        0 <= number <= 9
    }

    open spec fn of_number(number: i32) -> LayerType {
        LayerType::spec_from_i32(number).unwrap()
    }

    fn from_number(number: i32) -> (value: LayerType) {
        match LayerType::from_i32(number) {
            Some(value) => value,
            None => vstd::pervasive::unreached(),
        }
    }
}

#[derive(Debug, Copy, Clone, PartialEq, Eq, Hash, Structural)]
pub enum WiperType {
    Default,
    Mask,
    Scroll,
    Zoom,
    Turn,
    Wave,
    Scanline,
    Ripple,
    Whirl,
    Glass,
}

impl WiperType {
    /// The wiper type that a number stands for, if it stands for one.
    pub open spec fn spec_from_i32(number: i32) -> Option<WiperType> {
        match number {
            0 => Some(WiperType::Default),
            1 => Some(WiperType::Mask),
            2 => Some(WiperType::Scroll),
            3 => Some(WiperType::Zoom),
            4 => Some(WiperType::Turn),
            5 => Some(WiperType::Wave),
            6 => Some(WiperType::Scanline),
            7 => Some(WiperType::Ripple),
            8 => Some(WiperType::Whirl),
            9 => Some(WiperType::Glass),
            _ => None,
        }
    }

    #[verifier::when_used_as_spec(spec_from_i32)]
    pub fn from_i32(number: i32) -> (wiper_type: Option<WiperType>)
        ensures
            wiper_type == WiperType::spec_from_i32(number),
            wiper_type is Some <==> 0 <= number <= 9,
    {
        match number {
            0 => Some(WiperType::Default),
            1 => Some(WiperType::Mask),
            2 => Some(WiperType::Scroll),
            3 => Some(WiperType::Zoom),
            4 => Some(WiperType::Turn),
            5 => Some(WiperType::Wave),
            6 => Some(WiperType::Scanline),
            7 => Some(WiperType::Ripple),
            8 => Some(WiperType::Whirl),
            9 => Some(WiperType::Glass),
            _ => None,
        }
    }
}

impl FromNumber for WiperType {
    open spec fn is_number(number: i32) -> bool {
        0 <= number <= 9
    }

    open spec fn of_number(number: i32) -> WiperType {
        WiperType::spec_from_i32(number).unwrap()
    }

    fn from_number(number: i32) -> (value: WiperType) {
        match WiperType::from_i32(number) {
            Some(value) => value,
            None => vstd::pervasive::unreached(),
        }
    }
}

#[derive(Debug, Clone, Copy, PartialEq, Eq, Hash, Structural)]
pub enum MessageboxType {
    Neutral,
    WitchSpace,
    Ushiromiya,
    Transparent,
    Novel,
    NoText,
}

impl MessageboxType {
    /// The kind of message box that a number stands for, if it stands for one.
    pub open spec fn spec_from_i32(number: i32) -> Option<MessageboxType> {
        match number {
            0 => Some(MessageboxType::Neutral),
            1 => Some(MessageboxType::WitchSpace),
            2 => Some(MessageboxType::Ushiromiya),
            3 => Some(MessageboxType::Transparent),
            4 => Some(MessageboxType::Novel),
            5 => Some(MessageboxType::NoText),
            _ => None,
        }
    }

    #[verifier::when_used_as_spec(spec_from_i32)]
    pub fn from_i32(number: i32) -> (messagebox_type: Option<MessageboxType>)
        ensures
            messagebox_type == MessageboxType::spec_from_i32(number),
            messagebox_type is Some <==> 0 <= number <= 5,
    {
        match number {
            0 => Some(MessageboxType::Neutral),
            1 => Some(MessageboxType::WitchSpace),
            2 => Some(MessageboxType::Ushiromiya),
            3 => Some(MessageboxType::Transparent),
            4 => Some(MessageboxType::Novel),
            5 => Some(MessageboxType::NoText),
            _ => None,
        }
    }
}

#[derive(Debug, Clone, Copy, PartialEq, Eq, Hash, Structural)]
pub enum MessageTextLayout {
    Justify,
    Left,
    Center,
    Right,
}

impl MessageTextLayout {
    /// The layout that a number stands for, if it stands for one.
    pub open spec fn spec_from_i32(number: i32) -> Option<MessageTextLayout> {
        match number {
            0 => Some(MessageTextLayout::Justify),
            1 => Some(MessageTextLayout::Left),
            2 => Some(MessageTextLayout::Center),
            3 => Some(MessageTextLayout::Right),
            _ => None,
        }
    }

    #[verifier::when_used_as_spec(spec_from_i32)]
    pub fn from_i32(number: i32) -> (layout: Option<MessageTextLayout>)
        ensures
            layout == MessageTextLayout::spec_from_i32(number),
            layout is Some <==> 0 <= number <= 3,
    {
        match number {
            0 => Some(MessageTextLayout::Justify),
            1 => Some(MessageTextLayout::Left),
            2 => Some(MessageTextLayout::Center),
            3 => Some(MessageTextLayout::Right),
            _ => None,
        }
    }
}

#[derive(Debug, Clone, Copy, PartialEq, Eq, Hash, Structural)]
pub struct MessageboxStyle {
    pub messagebox_type: MessageboxType,
    pub text_layout: MessageTextLayout,
}

impl Default for MessageboxStyle {
    fn default() -> (style: MessageboxStyle)
        ensures
            style.messagebox_type == MessageboxType::Neutral,
            style.text_layout == MessageTextLayout::Justify,
    {
        Self { messagebox_type: MessageboxType::Neutral, text_layout: MessageTextLayout::Justify }
    }
}

/// The four bits of `number` that say which message box it is.
pub open spec fn messagebox_type_bits(number: i32) -> i32 {
    number & 0xf
}

/// The four bits of `number` that say how the text is laid out.
pub open spec fn text_layout_bits(number: i32) -> i32 {
    (number >> 4) & 0xf
}

/// The style is packed into one number: the message box in the lowest four
/// bits, the layout of the text in the four bits above.
impl FromNumber for MessageboxStyle {
    open spec fn is_number(number: i32) -> bool {
        &&& number >= 0
        &&& MessageboxType::spec_from_i32(messagebox_type_bits(number)) is Some
        &&& MessageTextLayout::spec_from_i32(text_layout_bits(number)) is Some
    }

    open spec fn of_number(number: i32) -> MessageboxStyle {
        MessageboxStyle {
            messagebox_type: MessageboxType::spec_from_i32(messagebox_type_bits(number)).unwrap(),
            text_layout: MessageTextLayout::spec_from_i32(text_layout_bits(number)).unwrap(),
        }
    }

    fn from_number(number: i32) -> (value: MessageboxStyle) {
        let msgbox_type = number & 0xf;
        let text_layout = (number >> 4) & 0xf;
        Self {
            messagebox_type: match MessageboxType::from_i32(msgbox_type) {
                Some(messagebox_type) => messagebox_type,
                None => vstd::pervasive::unreached(),
            },
            text_layout: match MessageTextLayout::from_i32(text_layout) {
                Some(text_layout) => text_layout,
                None => vstd::pervasive::unreached(),
            },
        }
    }
}

/// A span of time of the virtual machine, in ticks; a second has sixty.
#[derive(Debug, Clone, Copy, PartialEq, Eq, Hash, Structural)]
pub struct Ticks(pub i32);

impl FromNumber for Ticks {
    open spec fn is_number(number: i32) -> bool {
        true
    }

    open spec fn of_number(number: i32) -> Ticks {
        Ticks(number)
    }

    fn from_number(number: i32) -> (value: Ticks) {
        Ticks(number)
    }
}

/// `value` kept between `low` and `high`.
pub open spec fn clamped(value: i32, low: i32, high: i32) -> i32 {
    if value < low {
        low
    } else if value > high {
        high
    } else {
        value
    }
}

fn clamp(value: i32, low: i32, high: i32) -> (kept: i32)
    requires
        low <= high,
    ensures
        kept == clamped(value, low, high),
        low <= kept <= high,
{
    if value < low {
        low
    } else if value > high {
        high
    } else {
        value
    }
}

/// A volume value, in the range [0.0, 1.0], kept in thousandths.
#[derive(Debug, Copy, Clone, PartialEq, Eq, Hash, Structural)]
pub struct Volume(pub i32);

impl Default for Volume {
    fn default() -> (volume: Volume)
        ensures
            volume == Volume(1000),
    {
        Self(1000)
    }
}

impl FromNumber for Volume {
    open spec fn is_number(number: i32) -> bool {
        true
    }

    open spec fn of_number(number: i32) -> Volume {
        Volume(clamped(number, 0, 1000))
    }

    fn from_number(number: i32) -> (value: Volume) {
        Self(clamp(number, 0, 1000))
    }
}

/// Defines a pan value in the range [-1.0, 1.0], kept in thousandths, where
/// `0` is the center, `-1000` is the hard left and `1000` is the hard right.
#[derive(Debug, Copy, Clone, PartialEq, Eq, Hash, Structural)]
pub struct Pan(pub i32);

impl Default for Pan {
    fn default() -> (pan: Pan)
        ensures
            pan == Pan(0),
    {
        Self(0)
    }
}

impl FromNumber for Pan {
    open spec fn is_number(number: i32) -> bool {
        true
    }

    open spec fn of_number(number: i32) -> Pan {
        Pan(clamped(number, -1000i32, 1000))
    }

    fn from_number(number: i32) -> (value: Pan) {
        Self(clamp(number, -1000, 1000))
    }
}

/// A parameter of a mask in the range [0.001, 1.0], kept in thousandths.
#[derive(Debug, Copy, Clone, PartialEq, Eq, Hash, Structural)]
pub struct MaskParam(pub i32);

impl Default for MaskParam {
    fn default() -> (param: MaskParam)
        ensures
            param == MaskParam(0),
    {
        Self(0)
    }
}

impl FromNumber for MaskParam {
    open spec fn is_number(number: i32) -> bool {
        true
    }

    open spec fn of_number(number: i32) -> MaskParam {
        if number == 0 {
            MaskParam(1000)
        } else {
            MaskParam(clamped(number, 1, 1000))
        }
    }

    fn from_number(number: i32) -> (value: MaskParam) {
        if number == 0 {
            return Self(1000);
        }
        Self(clamp(number, 1, 1000))
    }
}

/// A property of a layer, by its number.
#[derive(Debug, Copy, Clone, PartialEq, Eq, Hash, Structural)]
pub struct LayerProperty(pub i32);

impl FromNumber for LayerProperty {
    open spec fn is_number(number: i32) -> bool {
        true
    }

    open spec fn of_number(number: i32) -> LayerProperty {
        LayerProperty(number)
    }

    fn from_number(number: i32) -> (value: LayerProperty) {
        LayerProperty(number)
    }
}

} // verus!

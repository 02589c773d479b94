//! Values that a write carries, and the bytes that stand for them.
//!
//! A value of one of these types is always one the device accepts: where a
//! number has a range, the range is checked when the value is made, and
//! nothing is checked again when it is encoded.

use crate::bta30::registry::ParameterType;
use crate::bta30::CommandBuilderError;
use vstd::prelude::*;

verus! {

/// The highest volume the device accepts.
pub const MAX_VOLUME: u8 = 60;

/// The highest balance amount the device accepts.
pub const MAX_OUTPUT_BALANCE_AMOUNT: u8 = 12;

/// A value that a write can carry.
pub trait Parameter {
    /// The entry of the registry that this type stands for.
    spec fn parameter_type() -> ParameterType;

    /// The bytes that stand for this value on the wire.
    spec fn encoding(&self) -> Seq<u8>;

    /// Every value of a type takes the number of bytes that the registry
    /// gives for the type.
    proof fn lemma_encoding_len(&self)
        ensures
            self.encoding().len() == Self::parameter_type().encoded_len(),
    ;

    /// Encodes the value.
    fn value(&self) -> (bytes: Vec<u8>)
        ensures
            bytes@ == self.encoding(),
    ;
}

/// Whether a setting is switched on.
#[derive(Clone, Copy, Debug, PartialEq, Eq, Structural)]
pub enum StateParameter {
    Off,
    On,
}

impl StateParameter {
    /// The byte that stands for this value.
    pub open spec fn spec_byte(self) -> u8 {
        match self {
            StateParameter::Off => 0x00,
            StateParameter::On => 0x01,
        }
    }

    /// The byte that stands for this value.
    #[verifier::when_used_as_spec(spec_byte)]
    pub fn byte(self) -> (b: u8)
        ensures
            b == self.spec_byte(),
    {
        match self {
            StateParameter::Off => 0x00,
            StateParameter::On => 0x01,
        }
    }
}

impl Parameter for StateParameter {
    open spec fn parameter_type() -> ParameterType {
        ParameterType::State
    }

    open spec fn encoding(&self) -> Seq<u8> {
        seq![self.spec_byte()]
    }

    proof fn lemma_encoding_len(&self) {
    }

    fn value(&self) -> (bytes: Vec<u8>) {
        vec![self.byte()]
    }
}

/// The colours in which the indicator blinks.
#[derive(Clone, Copy, Debug, PartialEq, Eq, Structural)]
pub enum LedPatternParameter {
    RedGreen,
    RedBlue,
}

impl LedPatternParameter {
    /// The byte that stands for this value.
    pub open spec fn spec_byte(self) -> u8 {
        match self {
            LedPatternParameter::RedGreen => 0x00,
            LedPatternParameter::RedBlue => 0x01,
        }
    }

    /// The byte that stands for this value.
    #[verifier::when_used_as_spec(spec_byte)]
    pub fn byte(self) -> (b: u8)
        ensures
            b == self.spec_byte(),
    {
        match self {
            LedPatternParameter::RedGreen => 0x00,
            LedPatternParameter::RedBlue => 0x01,
        }
    }
}

impl Parameter for LedPatternParameter {
    open spec fn parameter_type() -> ParameterType {
        ParameterType::LedPattern
    }

    open spec fn encoding(&self) -> Seq<u8> {
        seq![self.spec_byte()]
    }

    proof fn lemma_encoding_len(&self) {
    }

    fn value(&self) -> (bytes: Vec<u8>) {
        vec![self.byte()]
    }
}

/// What the LDAC encoder favours when the device transmits.
#[derive(Clone, Copy, Debug, PartialEq, Eq, Structural)]
pub enum TxLdacQualitySettingParameter {
    AudioQualityFirst,
    Standard,
    ConnectionFirst,
    Adaptive,
}

impl TxLdacQualitySettingParameter {
    /// The byte that stands for this value.
    pub open spec fn spec_byte(self) -> u8 {
        match self {
            TxLdacQualitySettingParameter::AudioQualityFirst => 0x01,
            TxLdacQualitySettingParameter::Standard => 0x02,
            TxLdacQualitySettingParameter::ConnectionFirst => 0x03,
            TxLdacQualitySettingParameter::Adaptive => 0x04,
        }
    }

    /// The byte that stands for this value.
    #[verifier::when_used_as_spec(spec_byte)]
    pub fn byte(self) -> (b: u8)
        ensures
            b == self.spec_byte(),
    {
        match self {
            TxLdacQualitySettingParameter::AudioQualityFirst => 0x01,
            TxLdacQualitySettingParameter::Standard => 0x02,
            TxLdacQualitySettingParameter::ConnectionFirst => 0x03,
            TxLdacQualitySettingParameter::Adaptive => 0x04,
        }
    }
}

impl Parameter for TxLdacQualitySettingParameter {
    open spec fn parameter_type() -> ParameterType {
        ParameterType::TxLdacQuality
    }

    open spec fn encoding(&self) -> Seq<u8> {
        seq![self.spec_byte()]
    }

    proof fn lemma_encoding_len(&self) {
    }

    fn value(&self) -> (bytes: Vec<u8>) {
        vec![self.byte()]
    }
}

/// A volume between 0 and 60.
#[derive(Clone, Copy, Debug, PartialEq, Eq, Structural)]
pub struct VolumeSettingParameter(u8);

impl View for VolumeSettingParameter {
    type V = u8;

    /// The volume.
    closed spec fn view(&self) -> u8 {
        self.0
    }
}

impl VolumeSettingParameter {
    #[verifier::type_invariant]
    spec fn in_range(self) -> bool {
        self.0 <= MAX_VOLUME
    }

    /// A volume that the device accepts. Fails above 60, and never clamps.
    pub fn new(volume: u8) -> (r: Result<Self, CommandBuilderError>)
        ensures
            volume <= MAX_VOLUME ==> r is Ok && r->Ok_0@ == volume && r->Ok_0.encoding()
                == seq![volume],
            volume > MAX_VOLUME ==> r == Err::<Self, CommandBuilderError>(
                CommandBuilderError::IncorrectVolumeValue,
            ),
    {
        if volume > MAX_VOLUME {
            return Err(CommandBuilderError::IncorrectVolumeValue);
        }
        return Ok(Self(volume));
    }

    /// The volume, which is at most 60.
    pub fn volume(&self) -> (volume: u8)
        ensures
            volume == self@,
            volume <= MAX_VOLUME,
    {
        proof {
            use_type_invariant(self);
        }
        self.0
    }
}

impl Parameter for VolumeSettingParameter {
    open spec fn parameter_type() -> ParameterType {
        ParameterType::Volume
    }

    open spec fn encoding(&self) -> Seq<u8> {
        seq![self@]
    }

    proof fn lemma_encoding_len(&self) {
    }

    fn value(&self) -> (bytes: Vec<u8>) {
        vec![self.0]
    }
}

/// The low-pass filter of the converter.
#[derive(Clone, Copy, Debug, PartialEq, Eq, Structural)]
pub enum DacLowpassSettingParametter {
    SharpRollOffFilter,
    SlowRollOffFilter,
    ShortDelaySharpRollOffFilter,
    ShortDelaySlowRollOffFilter,
}

impl DacLowpassSettingParametter {
    /// The byte that stands for this value.
    pub open spec fn spec_byte(self) -> u8 {
        match self {
            DacLowpassSettingParametter::SharpRollOffFilter => 0x00,
            DacLowpassSettingParametter::SlowRollOffFilter => 0x01,
            DacLowpassSettingParametter::ShortDelaySharpRollOffFilter => 0x02,
            DacLowpassSettingParametter::ShortDelaySlowRollOffFilter => 0x03,
        }
    }

    /// The byte that stands for this value.
    #[verifier::when_used_as_spec(spec_byte)]
    pub fn byte(self) -> (b: u8)
        ensures
            b == self.spec_byte(),
    {
        match self {
            DacLowpassSettingParametter::SharpRollOffFilter => 0x00,
            DacLowpassSettingParametter::SlowRollOffFilter => 0x01,
            DacLowpassSettingParametter::ShortDelaySharpRollOffFilter => 0x02,
            DacLowpassSettingParametter::ShortDelaySlowRollOffFilter => 0x03,
        }
    }
}

impl Parameter for DacLowpassSettingParametter {
    open spec fn parameter_type() -> ParameterType {
        ParameterType::DacLowpass
    }

    open spec fn encoding(&self) -> Seq<u8> {
        seq![self.spec_byte()]
    }

    proof fn lemma_encoding_len(&self) {
    }

    fn value(&self) -> (bytes: Vec<u8>) {
        vec![self.byte()]
    }
}

/// The side towards which the output is shifted.
#[derive(Clone, Copy, Debug, PartialEq, Eq, Structural)]
pub enum OutputBalancePosition {
    Left,
    Right,
}

impl OutputBalancePosition {
    /// The byte that stands for this side.
    pub open spec fn spec_byte(self) -> u8 {
        match self {
            OutputBalancePosition::Left => 0x01,
            OutputBalancePosition::Right => 0x02,
        }
    }

    /// The byte that stands for this side.
    #[verifier::when_used_as_spec(spec_byte)]
    pub fn byte(self) -> (b: u8)
        ensures
            b == self.spec_byte(),
    {
        match self {
            OutputBalancePosition::Left => 0x01,
            OutputBalancePosition::Right => 0x02,
        }
    }
}

/// How far the output is shifted to one side: between 0 and 12.
#[derive(Clone, Copy, Debug, PartialEq, Eq, Structural)]
pub struct OutputBalanceAmout(u8);

impl View for OutputBalanceAmout {
    type V = u8;

    /// The amount.
    closed spec fn view(&self) -> u8 {
        self.0
    }
}

impl OutputBalanceAmout {
    #[verifier::type_invariant]
    spec fn in_range(self) -> bool {
        self.0 <= MAX_OUTPUT_BALANCE_AMOUNT
    }

    /// An amount that the device accepts. Fails above 12, and never clamps.
    pub fn new(amount: u8) -> (r: Result<Self, CommandBuilderError>)
        ensures
            amount <= MAX_OUTPUT_BALANCE_AMOUNT ==> r is Ok && r->Ok_0@ == amount,
            amount > MAX_OUTPUT_BALANCE_AMOUNT ==> r == Err::<Self, CommandBuilderError>(
                CommandBuilderError::IncorrectOutputBalanceAmount,
            ),
    {
        if amount > MAX_OUTPUT_BALANCE_AMOUNT {
            return Err(CommandBuilderError::IncorrectOutputBalanceAmount);
        }
        return Ok(Self(amount));
    }

    /// The amount, which is at most 12.
    pub fn amount(&self) -> (amount: u8)
        ensures
            amount == self@,
            amount <= MAX_OUTPUT_BALANCE_AMOUNT,
    {
        proof {
            use_type_invariant(self);
        }
        self.0
    }
}

/// The balance between the two output channels.
#[derive(Clone, Copy, Debug, PartialEq, Eq, Structural)]
pub enum OutputBalanceParameter {
    /// Both channels at the same level.
    Balanced,
    /// The output shifted to one side by an amount.
    Unbalanced(OutputBalancePosition, OutputBalanceAmout),
}

impl Parameter for OutputBalanceParameter {
    open spec fn parameter_type() -> ParameterType {
        ParameterType::OutputBalance
    }

    /// `02 00` when balanced; else the side, then the amount.
    open spec fn encoding(&self) -> Seq<u8> {
        match self {
            OutputBalanceParameter::Balanced => seq![0x02, 0x00],
            OutputBalanceParameter::Unbalanced(position, amount) => seq![
                position.spec_byte(),
                amount@,
            ],
        }
    }

    proof fn lemma_encoding_len(&self) {
    }

    fn value(&self) -> (bytes: Vec<u8>) {
        match self {
            OutputBalanceParameter::Balanced => vec![0x02, 0x00],
            OutputBalanceParameter::Unbalanced(position, amount) => vec![
                position.byte(),
                amount.amount(),
            ],
        }
    }
}

/// The inputs from which the device takes audio.
#[derive(Clone, Copy, Debug, PartialEq, Eq, Structural)]
pub enum InputSourcesParameter {
    Usb,
    Coax,
    UsbAndCoax,
}

impl InputSourcesParameter {
    /// The byte that stands for this value.
    pub open spec fn spec_byte(self) -> u8 {
        match self {
            InputSourcesParameter::Usb => 0x01,
            InputSourcesParameter::Coax => 0x02,
            InputSourcesParameter::UsbAndCoax => 0x03,
        }
    }

    /// The byte that stands for this value.
    #[verifier::when_used_as_spec(spec_byte)]
    pub fn byte(self) -> (b: u8)
        ensures
            b == self.spec_byte(),
    {
        match self {
            InputSourcesParameter::Usb => 0x01,
            InputSourcesParameter::Coax => 0x02,
            InputSourcesParameter::UsbAndCoax => 0x03,
        }
    }
}

impl Parameter for InputSourcesParameter {
    open spec fn parameter_type() -> ParameterType {
        ParameterType::InputSources
    }

    open spec fn encoding(&self) -> Seq<u8> {
        seq![self.spec_byte()]
    }

    proof fn lemma_encoding_len(&self) {
    }

    fn value(&self) -> (bytes: Vec<u8>) {
        vec![self.byte()]
    }
}

/// Whether the volume can be adjusted, or the fixed level it is held at.
#[derive(Clone, Copy, Debug, PartialEq, Eq, Structural)]
pub enum VolumeModeParameter {
    Adjustable,
    ThirtyPercent,
    FiftyPercent,
    SeventyPercent,
    HundredPercent,
}

impl VolumeModeParameter {
    /// The byte that stands for this value.
    pub open spec fn spec_byte(self) -> u8 {
        match self {
            VolumeModeParameter::Adjustable => 0x01,
            VolumeModeParameter::ThirtyPercent => 0x02,
            VolumeModeParameter::FiftyPercent => 0x03,
            VolumeModeParameter::SeventyPercent => 0x04,
            VolumeModeParameter::HundredPercent => 0x05,
        }
    }

    /// The byte that stands for this value.
    #[verifier::when_used_as_spec(spec_byte)]
    pub fn byte(self) -> (b: u8)
        ensures
            b == self.spec_byte(),
    {
        match self {
            VolumeModeParameter::Adjustable => 0x01,
            VolumeModeParameter::ThirtyPercent => 0x02,
            VolumeModeParameter::FiftyPercent => 0x03,
            VolumeModeParameter::SeventyPercent => 0x04,
            VolumeModeParameter::HundredPercent => 0x05,
        }
    }
}

impl Parameter for VolumeModeParameter {
    open spec fn parameter_type() -> ParameterType {
        ParameterType::VolumeMode
    }

    open spec fn encoding(&self) -> Seq<u8> {
        seq![self.spec_byte()]
    }

    proof fn lemma_encoding_len(&self) {
    }

    fn value(&self) -> (bytes: Vec<u8>) {
        vec![self.byte()]
    }
}

/// On the wire, balanced is a shift to the right by nothing: the two are
/// written with the same bytes, and the device cannot tell them apart.
pub proof fn lemma_balanced_is_right_by_nothing(amount: OutputBalanceAmout)
    requires
        amount@ == 0,
    ensures
        OutputBalanceParameter::Unbalanced(OutputBalancePosition::Right, amount).encoding()
            == OutputBalanceParameter::Balanced.encoding(),
        OutputBalanceParameter::Balanced.encoding() == seq![0x02u8, 0x00],
{
}

} // verus!

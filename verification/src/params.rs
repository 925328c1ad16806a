//! The plugin's parameters: what each one is called, its range and default,
//! how it is stored, smoothed, skewed and shown.
//!
//! Values are given in tenths of their display unit (tenths of a decibel for
//! the gain and threshold parameters, tenths of a millisecond for the time
//! constants), which holds every range bound and default exactly.
use vstd::prelude::*;

verus! {

/// Every parameter of the plugin, in the order in which it is declared and
/// exposed to the host.
#[derive(Clone, Copy, Debug, PartialEq, Eq, Structural)]
pub enum ParamId {
    InputGain,
    GateEnabled,
    GateThreshold,
    GateAttack,
    GateRelease,
    GateDecay,
    OutputGain,
}

/// How a value given in the display unit is stored in the parameter.
#[derive(Clone, Copy, Debug, PartialEq, Eq, Structural)]
pub enum ValueScale {
    /// Given in decibels, stored as the linear gain factor.
    DecibelsAsGain,
    /// Stored as given.
    Plain,
}

/// How the range is skewed so that the slider feels even.
#[derive(Clone, Copy, Debug, PartialEq, Eq, Structural)]
pub enum RangeSkew {
    /// The gain skew factor computed from the range's bounds in decibels, so that
    /// the range appears linear when shown in decibels.
    GainOverRange,
    /// A skew factor computed from this exponent, in tenths.
    Exponent { tenths: i32 },
}

/// The smoother that follows changes of the parameter.
#[derive(Clone, Copy, Debug, PartialEq, Eq, Structural)]
pub enum Smoothing {
    Logarithmic,
    Linear,
}

/// How the value is turned into text and text back into a value.
#[derive(Clone, Copy, Debug, PartialEq, Eq, Structural)]
pub enum ValueText {
    /// Shown as the gain in decibels, parsed from decibels back to a gain.
    GainAsDecibels,
    /// Shown rounded, parsed as a plain number.
    Rounded,
}

/// A continuous parameter.
#[derive(Clone, Copy, Debug)]
pub struct FloatParamSpec {
    pub name: &'static str,
    pub unit: &'static str,
    pub min_tenths: i32,
    pub max_tenths: i32,
    pub default_tenths: i32,
    pub scale: ValueScale,
    pub skew: RangeSkew,
    pub smoothing: Smoothing,
    pub smoothing_ms: u32,
    pub text: ValueText,
    pub text_digits: u32,
}

/// An on/off parameter.
#[derive(Clone, Copy, Debug)]
pub struct BoolParamSpec {
    pub name: &'static str,
    pub default: bool,
}

/// The description of one parameter.
#[derive(Clone, Copy, Debug)]
pub enum ParamSpec {
    Float(FloatParamSpec),
    Bool(BoolParamSpec),
}

/// A continuous parameter as a mathematical value.
pub struct FloatParamModel {
    pub name: Seq<char>,
    pub unit: Seq<char>,
    pub min: int,
    pub max: int,
    pub default: int,
    pub scale: ValueScale,
    pub skew: RangeSkew,
    pub smoothing: Smoothing,
    pub smoothing_ms: nat,
    pub text: ValueText,
    pub text_digits: nat,
}

/// An on/off parameter as a mathematical value.
pub struct BoolParamModel {
    pub name: Seq<char>,
    pub default: bool,
}

/// One parameter as a mathematical value.
pub enum ParamModel {
    Float(FloatParamModel),
    Bool(BoolParamModel),
}

impl View for FloatParamSpec {
    type V = FloatParamModel;

    open spec fn view(&self) -> FloatParamModel {
        FloatParamModel {
            name: self.name@,
            unit: self.unit@,
            min: self.min_tenths as int,
            max: self.max_tenths as int,
            default: self.default_tenths as int,
            scale: self.scale,
            skew: self.skew,
            smoothing: self.smoothing,
            smoothing_ms: self.smoothing_ms as nat,
            text: self.text,
            text_digits: self.text_digits as nat,
        }
    }
}

impl View for BoolParamSpec {
    type V = BoolParamModel;

    open spec fn view(&self) -> BoolParamModel {
        BoolParamModel { name: self.name@, default: self.default }
    }
}

impl View for ParamSpec {
    type V = ParamModel;

    open spec fn view(&self) -> ParamModel {
        match self {
            ParamSpec::Float(f) => ParamModel::Float(f@),
            ParamSpec::Bool(b) => ParamModel::Bool(b@),
        }
    }
}

/// A gain parameter in decibels: stored as a linear gain, skewed so that it
/// looks linear in decibels, smoothed logarithmically over 50 ms, shown in
/// decibels with one digit.
pub open spec fn gain_model(name: Seq<char>, min: int, max: int, default: int) -> FloatParamModel {
    FloatParamModel {
        name,
        unit: " dB"@,
        min,
        max,
        default,
        scale: ValueScale::DecibelsAsGain,
        skew: RangeSkew::GainOverRange,
        smoothing: Smoothing::Logarithmic,
        smoothing_ms: 50,
        text: ValueText::GainAsDecibels,
        text_digits: 1,
    }
}

/// A time constant in milliseconds: stored as is, skewed with exponent one
/// half, smoothed linearly over 50 ms, shown rounded to one digit.
pub open spec fn time_model(name: Seq<char>, min: int, max: int, default: int) -> FloatParamModel {
    FloatParamModel {
        name,
        unit: " ms"@,
        min,
        max,
        default,
        scale: ValueScale::Plain,
        skew: RangeSkew::Exponent { tenths: 5 },
        smoothing: Smoothing::Linear,
        smoothing_ms: 50,
        text: ValueText::Rounded,
        text_digits: 1,
    }
}

/// What each parameter is.
pub open spec fn param_model(id: ParamId) -> ParamModel {
    match id {
        ParamId::InputGain => ParamModel::Float(gain_model("Input Gain"@, -300, 300, 0)),
        ParamId::GateEnabled => ParamModel::Bool(BoolParamModel { name: "Enable Gate"@, default: true }),
        ParamId::GateThreshold => ParamModel::Float(gain_model("Gate Threshold"@, -800, 0, -400)),
        ParamId::GateAttack => ParamModel::Float(time_model("Gate Attack"@, 1, 500, 20)),
        ParamId::GateRelease => ParamModel::Float(time_model("Gate Release"@, 500, 5000, 2000)),
        ParamId::GateDecay => ParamModel::Float(time_model("Gate Decay"@, 10, 500, 100)),
        ParamId::OutputGain => ParamModel::Float(gain_model("Output Gain"@, -300, 300, 0)),
    }
}

fn gain_param(name: &'static str, min_tenths: i32, max_tenths: i32, default_tenths: i32) -> (p: ParamSpec)
    ensures
        p@ == ParamModel::Float(gain_model(name@, min_tenths as int, max_tenths as int, default_tenths as int)),
{
    ParamSpec::Float(FloatParamSpec {
        name,
        unit: " dB",
        min_tenths,
        max_tenths,
        default_tenths,
        scale: ValueScale::DecibelsAsGain,
        skew: RangeSkew::GainOverRange,
        smoothing: Smoothing::Logarithmic,
        smoothing_ms: 50,
        text: ValueText::GainAsDecibels,
        text_digits: 1,
    })
}

fn time_param(name: &'static str, min_tenths: i32, max_tenths: i32, default_tenths: i32) -> (p: ParamSpec)
    ensures
        p@ == ParamModel::Float(time_model(name@, min_tenths as int, max_tenths as int, default_tenths as int)),
{
    ParamSpec::Float(FloatParamSpec {
        name,
        unit: " ms",
        min_tenths,
        max_tenths,
        default_tenths,
        scale: ValueScale::Plain,
        skew: RangeSkew::Exponent { tenths: 5 },
        smoothing: Smoothing::Linear,
        smoothing_ms: 50,
        text: ValueText::Rounded,
        text_digits: 1,
    })
}

/// The description of a parameter.
pub fn param_spec(id: ParamId) -> (p: ParamSpec)
    ensures
        p@ == param_model(id),
{
    match id {
        ParamId::InputGain => gain_param("Input Gain", -300, 300, 0),
        ParamId::GateEnabled => ParamSpec::Bool(BoolParamSpec { name: "Enable Gate", default: true }),
        ParamId::GateThreshold => gain_param("Gate Threshold", -800, 0, -400),
        ParamId::GateAttack => time_param("Gate Attack", 1, 500, 20),
        ParamId::GateRelease => time_param("Gate Release", 500, 5000, 2000),
        ParamId::GateDecay => time_param("Gate Decay", 10, 500, 100),
        ParamId::OutputGain => gain_param("Output Gain", -300, 300, 0),
    }
}

/// Every continuous parameter has a non-empty range that holds its default.
pub proof fn lemma_defaults_in_range(id: ParamId)
    ensures
        param_model(id) matches ParamModel::Float(m) ==> m.min < m.max && m.min <= m.default <= m.max,
{
}

/// Every time constant is positive over its whole range, so the per-sample
/// pole that the noise gate derives from it is always defined.
pub proof fn lemma_time_constants_positive(id: ParamId)
    ensures
        param_model(id) matches ParamModel::Float(m) ==> (m.scale == ValueScale::Plain ==> 0 < m.min),
{
}

/// The gain parameters are the input gain, the noise gate's threshold and the
/// output gain; the time constants are the attack, release and RMS decay.
pub open spec fn is_gain_param(id: ParamId) -> bool {
    id == ParamId::InputGain || id == ParamId::GateThreshold || id == ParamId::OutputGain
}

pub open spec fn is_time_param(id: ParamId) -> bool {
    id == ParamId::GateAttack || id == ParamId::GateRelease || id == ParamId::GateDecay
}

/// Every gain parameter is given in decibels and stored as a linear gain; since
/// it is stored as a gain it is smoothed logarithmically, its range is skewed so
/// that the slider is linear in decibels, it is labelled " dB", and it is shown
/// in decibels with one digit and parsed from decibels. Only the noise gate's switch is
/// an on/off parameter.
pub proof fn lemma_gain_params_in_decibels(id: ParamId)
    ensures
        (param_model(id) is Bool) <==> id == ParamId::GateEnabled,
        param_model(id) matches ParamModel::Float(m) ==> {
            &&& (m.scale == ValueScale::DecibelsAsGain <==> is_gain_param(id))
            &&& (m.scale == ValueScale::DecibelsAsGain ==> {
                &&& m.unit == " dB"@
                &&& m.skew == RangeSkew::GainOverRange
                &&& m.smoothing == Smoothing::Logarithmic
                &&& m.text == ValueText::GainAsDecibels
            })
        },
{
}

pub open spec fn param_name(id: ParamId) -> Seq<char> {
    match param_model(id) {
        ParamModel::Float(m) => m.name,
        ParamModel::Bool(b) => b.name,
    }
}

/// The input and output gains are neutral by default (0 dB) and range
/// symmetrically around it; the noise gate's threshold never lies above 0 dB.
pub proof fn lemma_gain_ranges(id: ParamId)
    ensures
        param_model(id) matches ParamModel::Float(m) ==> {
            &&& (id == ParamId::InputGain || id == ParamId::OutputGain) ==> m.default == 0 && m.min == -m.max
            &&& id == ParamId::GateThreshold ==> m.max <= 0
        },
{
}

/// No two parameters carry the same name.
pub proof fn lemma_names_distinct(a: ParamId, b: ParamId)
    ensures
        a != b ==> param_name(a) != param_name(b),
{
    reveal_strlit("Input Gain");
    reveal_strlit("Enable Gate");
    reveal_strlit("Gate Threshold");
    reveal_strlit("Gate Attack");
    reveal_strlit("Gate Release");
    reveal_strlit("Gate Decay");
    reveal_strlit("Output Gain");
    if a != b {
        let (x, y) = (param_name(a), param_name(b));
        if x.len() == y.len() {
            assert(x[5] != y[5] || x[0] != y[0]);
        }
    }
}

/// Every time constant is given and stored in milliseconds; it is smoothed
/// linearly, skewed with exponent one half, labelled " ms", and shown rounded.
/// Every continuous parameter is smoothed over 50 ms and shown with one digit.
pub proof fn lemma_time_params_in_milliseconds(id: ParamId)
    ensures
        param_model(id) matches ParamModel::Float(m) ==> {
            &&& (m.scale == ValueScale::Plain <==> is_time_param(id))
            &&& (m.scale == ValueScale::Plain ==> {
                &&& m.unit == " ms"@
                &&& m.skew == (RangeSkew::Exponent { tenths: 5 })
                &&& m.smoothing == Smoothing::Linear
                &&& m.text == ValueText::Rounded
            })
            &&& m.smoothing_ms == 50
            &&& m.text_digits == 1
        },
{
}

} // verus!

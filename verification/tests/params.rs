use rust_nam::params::{
    param_spec, BoolParamSpec, FloatParamSpec, ParamId, ParamSpec, RangeSkew, Smoothing,
    ValueScale, ValueText,
};

fn float_spec(id: ParamId) -> FloatParamSpec {
    match param_spec(id) {
        ParamSpec::Float(f) => f,
        ParamSpec::Bool(_) => panic!("expected a continuous parameter"),
    }
}

fn bool_spec(id: ParamId) -> BoolParamSpec {
    match param_spec(id) {
        ParamSpec::Bool(b) => b,
        ParamSpec::Float(_) => panic!("expected an on/off parameter"),
    }
}

const ALL: [ParamId; 7] = [
    ParamId::InputGain,
    ParamId::GateEnabled,
    ParamId::GateThreshold,
    ParamId::GateAttack,
    ParamId::GateRelease,
    ParamId::GateDecay,
    ParamId::OutputGain,
];

#[test]
fn input_gain_is_a_decibel_gain_from_minus_to_plus_thirty() {
    let p = float_spec(ParamId::InputGain);
    assert_eq!(p.name, "Input Gain");
    assert_eq!(p.unit, " dB");
    assert_eq!((p.min_tenths, p.max_tenths, p.default_tenths), (-300, 300, 0));
    assert_eq!(p.scale, ValueScale::DecibelsAsGain);
    assert_eq!(p.skew, RangeSkew::GainOverRange);
    assert_eq!(p.smoothing, Smoothing::Logarithmic);
    assert_eq!(p.smoothing_ms, 50);
    assert_eq!(p.text, ValueText::GainAsDecibels);
    assert_eq!(p.text_digits, 1);
}

#[test]
fn output_gain_matches_input_gain_range() {
    let p = float_spec(ParamId::OutputGain);
    assert_eq!(p.name, "Output Gain");
    assert_eq!((p.min_tenths, p.max_tenths, p.default_tenths), (-300, 300, 0));
    assert_eq!(p.scale, ValueScale::DecibelsAsGain);
}

#[test]
fn gate_threshold_defaults_to_minus_forty_decibels() {
    let p = float_spec(ParamId::GateThreshold);
    assert_eq!(p.name, "Gate Threshold");
    assert_eq!(p.unit, " dB");
    assert_eq!((p.min_tenths, p.max_tenths, p.default_tenths), (-800, 0, -400));
    assert_eq!(p.skew, RangeSkew::GainOverRange);
}

#[test]
fn gate_time_constants_are_in_milliseconds() {
    let a = float_spec(ParamId::GateAttack);
    assert_eq!(a.name, "Gate Attack");
    assert_eq!((a.min_tenths, a.max_tenths, a.default_tenths), (1, 500, 20));
    let r = float_spec(ParamId::GateRelease);
    assert_eq!(r.name, "Gate Release");
    assert_eq!((r.min_tenths, r.max_tenths, r.default_tenths), (500, 5000, 2000));
    let d = float_spec(ParamId::GateDecay);
    assert_eq!(d.name, "Gate Decay");
    assert_eq!((d.min_tenths, d.max_tenths, d.default_tenths), (10, 500, 100));
    for p in [a, r, d] {
        assert_eq!(p.unit, " ms");
        assert_eq!(p.scale, ValueScale::Plain);
        assert_eq!(p.skew, RangeSkew::Exponent { tenths: 5 });
        assert_eq!(p.smoothing, Smoothing::Linear);
        assert_eq!(p.smoothing_ms, 50);
        assert_eq!(p.text, ValueText::Rounded);
        assert_eq!(p.text_digits, 1);
    }
}

#[test]
fn gate_is_enabled_by_default() {
    let b = bool_spec(ParamId::GateEnabled);
    assert_eq!(b.name, "Enable Gate");
    assert!(b.default);
}

#[test]
fn every_default_lies_in_its_range() {
    for id in ALL {
        if let ParamSpec::Float(p) = param_spec(id) {
            assert!(p.min_tenths < p.max_tenths);
            assert!(p.min_tenths <= p.default_tenths && p.default_tenths <= p.max_tenths);
        }
    }
}

#[test]
fn every_time_constant_is_positive() {
    for id in ALL {
        if let ParamSpec::Float(p) = param_spec(id) {
            if p.scale == ValueScale::Plain {
                assert!(p.min_tenths > 0);
            }
        }
    }
}

#[test]
fn only_the_gate_switch_is_on_off() {
    for id in ALL {
        let is_bool = matches!(param_spec(id), ParamSpec::Bool(_));
        assert_eq!(is_bool, id == ParamId::GateEnabled);
    }
}

use rust_nam::gate::{gate_pole, gate_target, GatePole, GateTarget};

#[test]
fn gate_opens_at_or_above_threshold() {
    assert_eq!(gate_target(true), GateTarget::Open);
    assert_eq!(gate_target(false), GateTarget::Closed);
}

#[test]
fn opening_gate_uses_attack() {
    assert_eq!(gate_pole(GateTarget::Open, true, false), GatePole::Attack);
}

#[test]
fn fully_open_gate_uses_release() {
    assert_eq!(gate_pole(GateTarget::Open, false, false), GatePole::Release);
}

#[test]
fn closing_gate_uses_release() {
    assert_eq!(gate_pole(GateTarget::Closed, true, false), GatePole::Release);
    assert_eq!(gate_pole(GateTarget::Closed, false, false), GatePole::Release);
}

#[test]
fn negative_openness_rises_towards_closed() {
    assert_eq!(gate_pole(GateTarget::Closed, true, true), GatePole::Attack);
}

#[test]
fn gate_decisions_from_float_comparisons() {
    // One step of the noise gate as the plugin takes it, with the comparisons made on floats.
    let threshold = 0.01f32;
    let openness = 0.25f32;
    for (rms, expected) in [(0.5f32, GatePole::Attack), (0.001f32, GatePole::Release)] {
        let target = gate_target(rms >= threshold);
        let pole = gate_pole(target, openness < 1.0, openness < 0.0);
        assert_eq!(pole, expected);
    }
}

//! The decisions of the plugin's editor: which sliders stand where, what the
//! host is told while a slider is dragged or the noise gate is switched, how the
//! settings window is opened and closed, and how a slider's handle is shaded.
use vstd::prelude::*;
use crate::params::{param_model, ParamId, ParamModel};

verus! {

/// One step of a parameter gesture as the host sees it: the gesture begins,
/// the value is set, the gesture ends.
#[derive(Clone, Copy, Debug, PartialEq, Eq, Structural)]
pub enum GestureStep {
    Begin,
    SetValue,
    End,
}

/// What the pointer did to a slider in one frame.
#[derive(Clone, Copy, Debug, PartialEq, Eq, Structural)]
pub struct DragFlags {
    pub started: bool,
    pub dragged: bool,
    pub stopped: bool,
}

/// The state the editor keeps between frames.
#[derive(Clone, Copy, Debug, PartialEq, Eq, Structural)]
pub struct EditorState {
    pub settings_open: bool,
}

/// The gray level of the shading.
#[derive(Clone, Copy, Debug, PartialEq, Eq, Structural)]
pub struct Gray {
    pub level: u8,
}

pub open spec fn step_if(cond: bool, step: GestureStep) -> Seq<GestureStep> {
    if cond {
        seq![step]
    } else {
        Seq::empty()
    }
}

/// The steps one frame of a slider sends: the gesture begins when the drag
/// starts, the value is set while it is dragged, the gesture ends when the
/// drag stops, in this order.
pub open spec fn drag_steps(f: DragFlags) -> Seq<GestureStep> {
    step_if(f.started, GestureStep::Begin) + step_if(f.dragged, GestureStep::SetValue) + step_if(
        f.stopped,
        GestureStep::End,
    )
}

/// The steps a sequence of frames sends, frame after frame.
pub open spec fn frames_steps(frames: Seq<DragFlags>) -> Seq<GestureStep>
    decreases frames.len(),
{
    if frames.len() == 0 {
        Seq::empty()
    } else {
        frames_steps(frames.drop_last()) + drag_steps(frames.last())
    }
}

/// One drag as the pointer does it: it starts in the first frame, stops in
/// the last, and starts or stops in no other frame.
pub open spec fn is_drag(frames: Seq<DragFlags>) -> bool {
    &&& frames.len() >= 1
    &&& frames[0].started
    &&& frames.last().stopped
    &&& forall|i: int| 0 < i < frames.len() ==> !(#[trigger] frames[i]).started
    &&& forall|i: int| 0 <= i < frames.len() - 1 ==> !(#[trigger] frames[i]).stopped
}

/// A gesture that has begun and not yet ended: a begin, then only sets.
pub open spec fn is_open_gesture(s: Seq<GestureStep>) -> bool {
    &&& s.len() >= 1
    &&& s[0] == GestureStep::Begin
    &&& forall|i: int| 0 < i < s.len() ==> s[i] == GestureStep::SetValue
}

/// A complete gesture: a begin, sets, and an end.
pub open spec fn is_complete_gesture(s: Seq<GestureStep>) -> bool {
    &&& s.len() >= 2
    &&& s[0] == GestureStep::Begin
    &&& s.last() == GestureStep::End
    &&& forall|i: int| 0 < i < s.len() - 1 ==> s[i] == GestureStep::SetValue
}

/// The steps a slider sends to the host for one frame.
pub fn drag_gesture_steps(f: DragFlags) -> (steps: Vec<GestureStep>)
    ensures
        steps@ == drag_steps(f),
{
    let mut steps: Vec<GestureStep> = Vec::new();
    if f.started {
        steps.push(GestureStep::Begin);
    }
    if f.dragged {
        steps.push(GestureStep::SetValue);
    }
    if f.stopped {
        steps.push(GestureStep::End);
    }
    assert(steps@ =~= drag_steps(f));
    steps
}

/// The steps sent when the noise gate's checkbox is clicked in a frame: a whole
/// gesture that sets the new value, or nothing when it did not change.
pub fn checkbox_gesture_steps(changed: bool) -> (steps: Vec<GestureStep>)
    ensures
        changed ==> steps@ == seq![GestureStep::Begin, GestureStep::SetValue, GestureStep::End],
        changed ==> is_complete_gesture(steps@),
        !changed ==> steps@.len() == 0,
{
    let mut steps: Vec<GestureStep> = Vec::new();
    if changed {
        steps.push(GestureStep::Begin);
        steps.push(GestureStep::SetValue);
        steps.push(GestureStep::End);
    }
    steps
}

/// The shading of a slider's handle: lightest while it is dragged, lighter
/// while the pointer is over it, darker otherwise.
pub fn handle_gray(dragged: bool, hovered: bool) -> (g: Gray)
    ensures
        g.level == (if dragged { 210u8 } else if hovered { 175u8 } else { 140u8 }),
{
    if dragged {
        Gray { level: 210 }
    } else if hovered {
        Gray { level: 175 }
    } else {
        Gray { level: 140 }
    }
}

/// The state after the settings button was pressed: the window flips between open and closed.
pub open spec fn after_settings_press(s: EditorState) -> EditorState {
    EditorState { settings_open: !s.settings_open }
}

pub open spec fn main_panel_layout() -> Seq<ParamId> {
    seq![ParamId::InputGain, ParamId::OutputGain]
}

pub open spec fn gate_settings_layout() -> Seq<ParamId> {
    seq![ParamId::GateThreshold, ParamId::GateAttack, ParamId::GateRelease, ParamId::GateDecay]
}

/// The sliders of the main panel, top to bottom.
pub fn main_panel_sliders() -> (ids: Vec<ParamId>)
    ensures
        ids@ == main_panel_layout(),
{
    let mut ids: Vec<ParamId> = Vec::new();
    ids.push(ParamId::InputGain);
    ids.push(ParamId::OutputGain);
    assert(ids@ =~= main_panel_layout());
    ids
}

/// The sliders of the noise gate's settings window, top to bottom.
pub fn gate_settings_sliders() -> (ids: Vec<ParamId>)
    ensures
        ids@ == gate_settings_layout(),
{
    let mut ids: Vec<ParamId> = Vec::new();
    ids.push(ParamId::GateThreshold);
    ids.push(ParamId::GateAttack);
    ids.push(ParamId::GateRelease);
    ids.push(ParamId::GateDecay);
    assert(ids@ =~= gate_settings_layout());
    ids
}

impl EditorState {
    /// The editor opens with the settings window closed.
    pub fn new() -> (s: EditorState)
        ensures
            !s.settings_open,
    {
        EditorState { settings_open: false }
    }

    /// The settings button opens the window when it is closed and closes it when it is open.
    pub fn press_settings(&mut self)
        ensures
            *final(self) == after_settings_press(*old(self)),
    {
        self.settings_open = !self.settings_open;
    }
}

/// The steps of the frames before a drag's last one form a gesture that has begun.
proof fn lemma_drag_prefix_open(frames: Seq<DragFlags>)
    requires
        frames.len() >= 1,
        frames[0].started,
        forall|i: int| 0 < i < frames.len() ==> !(#[trigger] frames[i]).started,
        forall|i: int| 0 <= i < frames.len() ==> !(#[trigger] frames[i]).stopped,
    ensures
        is_open_gesture(frames_steps(frames)),
    decreases frames.len(),
{
    let prefix = frames.drop_last();
    let last = frames.last();
    if frames.len() == 1 {
        assert(prefix.len() == 0);
        assert(frames_steps(prefix) =~= Seq::<GestureStep>::empty());
        assert(last == frames[0]);
        let s = frames_steps(frames);
        assert(s =~= drag_steps(last));
    } else {
        assert forall|i: int| 0 < i < prefix.len() implies !(#[trigger] prefix[i]).started by {
            assert(prefix[i] == frames[i]);
        }
        assert forall|i: int| 0 <= i < prefix.len() implies !(#[trigger] prefix[i]).stopped by {
            assert(prefix[i] == frames[i]);
        }
        assert(prefix[0] == frames[0]);
        lemma_drag_prefix_open(prefix);
        assert(!last.started);
        assert(!last.stopped);
        let p = frames_steps(prefix);
        let s = frames_steps(frames);
        assert(s == p + drag_steps(last));
        assert forall|i: int| 0 < i < s.len() implies s[i] == GestureStep::SetValue by {
            if i < p.len() {
                assert(s[i] == p[i]);
            } else {
                assert(drag_steps(last) =~= step_if(last.dragged, GestureStep::SetValue));
            }
        }
    }
}

/// Every drag of a slider, whatever its length, sends the host one complete
/// gesture: the gesture begins first, ends last, and in between the value is
/// only set.
pub proof fn lemma_drag_is_complete_gesture(frames: Seq<DragFlags>)
    requires
        is_drag(frames),
    ensures
        is_complete_gesture(frames_steps(frames)),
{
    let prefix = frames.drop_last();
    let last = frames.last();
    let s = frames_steps(frames);
    let d = drag_steps(last);
    assert(s == frames_steps(prefix) + d);
    if frames.len() == 1 {
        assert(frames_steps(prefix) =~= Seq::<GestureStep>::empty());
        assert(last == frames[0]);
        assert(s =~= d);
    } else {
        assert forall|i: int| 0 < i < prefix.len() implies !(#[trigger] prefix[i]).started by {
            assert(prefix[i] == frames[i]);
        }
        assert forall|i: int| 0 <= i < prefix.len() implies !(#[trigger] prefix[i]).stopped by {
            assert(prefix[i] == frames[i]);
        }
        assert(prefix[0] == frames[0]);
        lemma_drag_prefix_open(prefix);
        assert(!last.started);
        let p = frames_steps(prefix);
        assert(d =~= step_if(last.dragged, GestureStep::SetValue) + seq![GestureStep::End]);
        assert forall|i: int| 0 < i < s.len() - 1 implies s[i] == GestureStep::SetValue by {
            if i < p.len() {
                assert(s[i] == p[i]);
            }
        }
    }
}

/// Pressing the settings button twice leaves the window as it was.
pub proof fn lemma_settings_press_twice(s: EditorState)
    ensures
        after_settings_press(after_settings_press(s)) == s,
{
}

/// Each continuous parameter has exactly one slider, either in the main panel
/// or in the noise gate's settings window, and the on/off parameter has none.
pub proof fn lemma_each_float_param_has_one_slider(id: ParamId)
    ensures
        (param_model(id) is Float) <==> (main_panel_layout().contains(id) != gate_settings_layout().contains(id)),
        !(main_panel_layout().contains(id) && gate_settings_layout().contains(id)),
        main_panel_layout().no_duplicates(),
        gate_settings_layout().no_duplicates(),
{
    let m = main_panel_layout();
    let g = gate_settings_layout();
    assert(m[0] == ParamId::InputGain && m[1] == ParamId::OutputGain);
    assert(g[0] == ParamId::GateThreshold && g[1] == ParamId::GateAttack);
    assert(g[2] == ParamId::GateRelease && g[3] == ParamId::GateDecay);
}

} // verus!

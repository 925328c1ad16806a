//! The verified core of a mono guitar-amp plugin with a noise gate: its
//! parameters, the decisions of its noise gate and the gestures of its editor.
pub mod params;
pub mod gate;
pub mod editor;

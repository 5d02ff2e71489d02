//! A retained-mode interactive-widget runtime.
//!
//! Five widget kinds (toggle switch, dropdown select, slider, progress bar,
//! tab group) share one per-tick pipeline: an interaction router applies
//! state transitions and emits change events, an animation integrator moves
//! a displayed value toward its target, and a dirty-driven visual sync pass
//! recomputes every derived visual attribute.  All quantities are fixed-point
//! integers with six decimal places, so every rule is exact and proved.

use vstd::prelude::*;

pub mod color;
pub mod dropdown;
pub mod easing;
pub mod fixed;
pub mod progress;
pub mod registry;
pub mod slider;
pub mod spring;
pub mod tabs;
pub mod text;
pub mod toggle;
pub mod zorder;

verus! {

/// Opaque handle of a widget root or sub-node in the host's hierarchy.
pub type WidgetId = u64;

/// The per-node interaction signal the input collaborator delivers, fired
/// only when it changes.
#[derive(Debug, Clone, Copy, PartialEq, Eq, Structural)]
pub enum Interaction {
    Idle,
    Hovered,
    Pressed,
}

/// The raw keys the widget routers react to.
#[derive(Debug, Clone, Copy, PartialEq, Eq, Structural)]
pub enum Key {
    Space,
    Enter,
    Escape,
    ArrowLeft,
    ArrowRight,
    ArrowUp,
    ArrowDown,
}

} // verus!

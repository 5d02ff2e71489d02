//! The dropdown select: open/close state driven by button, backdrop, option
//! and Escape interactions, selection resolved through cached parent links,
//! a spring-animated list, focus handling, and the dirty-driven visual sync.

use vstd::prelude::*;

use crate::{Key, WidgetId};
use crate::fixed::{abs_int, lemma_mul_div_bound, mul_div, tdiv, SCALE, VAL_MAX};
use crate::registry::{DropdownOptionId, DropdownOptionRegistry};
use crate::spring::{spring_step, spring_step_spec, SpringParams, SpringState, PROG_MAX};
use crate::zorder::{overlay_z_spec, overlay_z_pass, UiZIndexAllocator};

verus! {

/// The spring parameters a dropdown animates its list with.
pub type AnimationConfig = SpringParams;

/// The spring state of the list animation: progress 0 is closed, `SCALE`
/// fully open.
pub type DropdownAnimation = SpringState;

#[derive(Debug, Clone, Copy, PartialEq, Eq, Structural)]
pub enum DropdownDirection {
    Down,
    Up,
    Auto,
}

#[derive(Debug, Clone)]
pub struct Dropdown {
    pub option_ids: Vec<DropdownOptionId>,
    pub selected_id: Option<DropdownOptionId>,
    pub is_open: bool,
}

impl Dropdown {
    /// A selection, when present, is always one of the dropdown's own
    /// options.
    pub open spec fn wf(self) -> bool {
        match self.selected_id {
            Some(id) => self.option_ids@.contains(id),
            None => true,
        }
    }
}

#[derive(Debug, Clone)]
pub struct DropdownConfig {
    /// Full height of the open list, fixed-point pixels.
    pub max_height: i64,
    pub direction: DropdownDirection,
    pub searchable: bool,
    pub placeholder: String,
    pub animation_config: AnimationConfig,
}

impl DropdownConfig {
    pub open spec fn wf(self) -> bool {
        &&& 0 <= self.max_height <= VAL_MAX
        &&& self.animation_config.wf()
    }
}

impl Default for DropdownConfig {
    /// The stock dropdown: a 200-pixel list, automatic direction, the stock
    /// spring, and a generic placeholder.
    fn default() -> (r: DropdownConfig)
        ensures
            r.max_height == 200_000_000,
            r.direction == DropdownDirection::Auto,
            !r.searchable,
            r.placeholder@ == "Select an option..."@,
            r.animation_config == (SpringParams { stiffness: 170, damping: 26, precision: 10_000 }),
            r.wf(),
    {
        DropdownConfig {
            max_height: 200_000_000,
            direction: DropdownDirection::Auto,
            searchable: false,
            placeholder: "Select an option...".to_owned(),
            animation_config: SpringParams { stiffness: 170, damping: 26, precision: 10_000 },
        }
    }
}

#[derive(Debug, Clone, Copy, PartialEq, Eq, Structural)]
pub enum DropdownChangeKind {
    Opened,
    Closed,
    SelectionChanged,
    Cancelled,
}

#[derive(Debug, Clone)]
pub struct DropdownChangedEvent {
    pub dropdown_entity: WidgetId,
    pub kind: DropdownChangeKind,
    pub previous_id: Option<DropdownOptionId>,
    pub new_id: Option<DropdownOptionId>,
    pub previous_label: Option<String>,
    pub new_label: Option<String>,
}

/// A cached back-reference from a sub-node to its parent, populated at
/// construction so routing never walks the host hierarchy.
#[derive(Debug, Clone, Copy, PartialEq, Eq, Structural)]
pub struct ChildOf {
    pub parent: WidgetId,
}

impl ChildOf {
    pub open spec fn spec_parent(self) -> WidgetId {
        self.parent
    }

    pub fn new(parent: WidgetId) -> (r: ChildOf)
        ensures
            r.spec_parent() == parent,
    {
        ChildOf { parent }
    }

    pub fn parent(&self) -> (r: WidgetId)
        ensures
            r == self.spec_parent(),
    {
        self.parent
    }
}

/// The first parent a link table records for `node`.
pub open spec fn parent_of_spec(links: Seq<(WidgetId, ChildOf)>, node: WidgetId) -> Option<
    WidgetId,
>
    decreases links.len(),
{
    if links.len() == 0 {
        None
    } else if links[0].0 == node {
        Some(links[0].1.spec_parent())
    } else {
        parent_of_spec(links.drop_first(), node)
    }
}

/// Looks a node's cached parent up.
pub fn parent_of(links: &Vec<(WidgetId, ChildOf)>, node: WidgetId) -> (r: Option<WidgetId>)
    ensures
        r == parent_of_spec(links@, node),
{
    let mut i: usize = 0;
    proof {
        assert(links@.skip(0) =~= links@);
    }
    while i < links.len()
        invariant
            i <= links@.len(),
            parent_of_spec(links@, node) == parent_of_spec(links@.skip(i as int), node),
        decreases links@.len() - i,
    {
        let pair = links[i];
        proof {
            assert(links@.skip(i as int)[0] == links@[i as int]);
            assert(links@.skip(i as int).drop_first() =~= links@.skip(i + 1));
        }
        if pair.0 == node {
            return Some(pair.1.parent());
        }
        i = i + 1;
    }
    proof {
        assert(links@.skip(links@.len() as int) =~= Seq::<(WidgetId, ChildOf)>::empty());
    }
    None
}

/// Resolves an option sub-node to its owning dropdown through the two cached
/// hops: option to list, list to dropdown.  A broken hop resolves to nothing,
/// so the tick skips the widget instead of failing.
pub open spec fn resolve_option_owner_spec(
    links: Seq<(WidgetId, ChildOf)>,
    option_node: WidgetId,
) -> Option<WidgetId> {
    match parent_of_spec(links, option_node) {
        Some(list) => parent_of_spec(links, list),
        None => None,
    }
}

pub fn resolve_option_owner(links: &Vec<(WidgetId, ChildOf)>, option_node: WidgetId) -> (r: Option<
    WidgetId,
>)
    ensures
        r == resolve_option_owner_spec(links@, option_node),
{
    match parent_of(links, option_node) {
        Some(list) => parent_of(links, list),
        None => None,
    }
}

/// The derived visuals of a dropdown: the button label, and the list's
/// height, visibility and vertical offset.
#[derive(Debug, Clone)]
pub struct DropdownVisuals {
    pub button_label: String,
    pub list_height: i64,
    pub list_visible: bool,
    pub list_offset_y: i64,
}

/// A dropdown widget root with its state, config, spring animation, focus
/// flag, stacking index, dirty marker and derived visuals.
pub struct DropdownWidget {
    pub id: WidgetId,
    pub dropdown: Dropdown,
    pub config: DropdownConfig,
    pub animation: DropdownAnimation,
    pub needs_visual_update: bool,
    pub focused: bool,
    pub z_index: i32,
    pub visuals: DropdownVisuals,
}

/// The button label: the selected option's label resolved from the registry
/// at sync time (with the registry's fallback for an unknown id), or the
/// placeholder when nothing is selected.
pub open spec fn dropdown_label_spec(w: DropdownWidget, reg: DropdownOptionRegistry) -> Seq<char> {
    match w.dropdown.selected_id {
        Some(id) => reg.spec_label_of(id as int),
        None => w.config.placeholder@,
    }
}

/// The open list's height: the animation progress times the configured
/// maximum height.
pub open spec fn dropdown_list_height_spec(w: DropdownWidget) -> int {
    tdiv(w.animation.progress * w.config.max_height, SCALE as int)
}

/// The list is hidden exactly while the animation progress is at or below
/// the spring's precision.
pub open spec fn dropdown_list_visible_spec(w: DropdownWidget) -> bool {
    w.animation.progress > w.config.animation_config.precision
}

/// The list's vertical offset: an upward-opening list slides by the still
/// missing share of its height; other directions sit flush.
pub open spec fn dropdown_list_offset_spec(w: DropdownWidget) -> int {
    match w.config.direction {
        DropdownDirection::Up => -tdiv(
            dropdown_list_height_spec(w) * (SCALE - w.animation.progress),
            SCALE as int,
        ),
        _ => 0,
    }
}

impl DropdownWidget {
    pub open spec fn wf(self) -> bool {
        &&& self.dropdown.wf()
        &&& self.config.wf()
        &&& self.animation.wf()
        &&& self.z_index >= 0
    }

    /// Builds a dropdown root over already registered options: closed, at
    /// rest, unfocused, with the first sync requested.
    pub fn new(id: WidgetId, option_ids: Vec<DropdownOptionId>, config: DropdownConfig) -> (r:
        DropdownWidget)
        requires
            config.wf(),
        ensures
            r.id == id,
            r.dropdown.option_ids == option_ids,
            r.dropdown.selected_id.is_none(),
            !r.dropdown.is_open,
            r.config == config,
            r.animation.settled(),
            r.animation.progress == 0,
            r.needs_visual_update,
            !r.focused,
            r.z_index == 0,
            r.wf(),
    {
        DropdownWidget {
            id,
            dropdown: Dropdown { option_ids, selected_id: None, is_open: false },
            config,
            animation: SpringState { progress: 0, target: 0, velocity: 0 },
            needs_visual_update: true,
            focused: false,
            z_index: 0,
            visuals: DropdownVisuals {
                button_label: String::new(),
                list_height: 0,
                list_visible: false,
                list_offset_y: 0,
            },
        }
    }

    /// A press on the button sub-node: toggles the open state, emits exactly
    /// one Opened or Closed event, marks the widget dirty, and grants focus
    /// on open or revokes it on close.
    pub fn press_button(&mut self) -> (ev: DropdownChangedEvent)
        requires
            old(self).wf(),
        ensures
            final(self).wf(),
            final(self).dropdown.is_open == !old(self).dropdown.is_open,
            final(self).dropdown.selected_id == old(self).dropdown.selected_id,
            final(self).dropdown.option_ids == old(self).dropdown.option_ids,
            final(self).needs_visual_update,
            final(self).focused == final(self).dropdown.is_open,
            final(self).animation == old(self).animation,
            final(self).config == old(self).config,
            final(self).z_index == old(self).z_index,
            final(self).visuals == old(self).visuals,
            ev.dropdown_entity == old(self).id,
            ev.kind == if final(self).dropdown.is_open {
                DropdownChangeKind::Opened
            } else {
                DropdownChangeKind::Closed
            },
            ev.previous_id == old(self).dropdown.selected_id,
            ev.new_id == old(self).dropdown.selected_id,
            ev.previous_label.is_none() && ev.new_label.is_none(),
    {
        self.dropdown.is_open = !self.dropdown.is_open;
        self.needs_visual_update = true;
        self.focused = self.dropdown.is_open;
        DropdownChangedEvent {
            dropdown_entity: self.id,
            kind: if self.dropdown.is_open {
                DropdownChangeKind::Opened
            } else {
                DropdownChangeKind::Closed
            },
            previous_id: self.dropdown.selected_id,
            new_id: self.dropdown.selected_id,
            previous_label: None,
            new_label: None,
        }
    }

    /// A press on the backdrop sub-node, reachable only while open: forces
    /// the dropdown closed, emits exactly one Cancelled event, and revokes
    /// focus.  On a closed dropdown nothing happens.
    pub fn press_backdrop(&mut self) -> (ev: Option<DropdownChangedEvent>)
        requires
            old(self).wf(),
        ensures
            final(self).wf(),
            old(self).dropdown.is_open ==> {
                &&& !final(self).dropdown.is_open
                &&& final(self).dropdown.selected_id == old(self).dropdown.selected_id
                &&& final(self).dropdown.option_ids == old(self).dropdown.option_ids
                &&& final(self).needs_visual_update
                &&& !final(self).focused
                &&& final(self).animation == old(self).animation
                &&& ev.is_some()
                &&& ev.unwrap().kind == DropdownChangeKind::Cancelled
                &&& ev.unwrap().dropdown_entity == old(self).id
                &&& ev.unwrap().previous_id == old(self).dropdown.selected_id
                &&& ev.unwrap().new_id == old(self).dropdown.selected_id
            },
            !old(self).dropdown.is_open ==> ev.is_none() && *final(self) == *old(self),
    {
        if self.dropdown.is_open {
            self.dropdown.is_open = false;
            self.needs_visual_update = true;
            self.focused = false;
            Some(
                DropdownChangedEvent {
                    dropdown_entity: self.id,
                    kind: DropdownChangeKind::Cancelled,
                    previous_id: self.dropdown.selected_id,
                    new_id: self.dropdown.selected_id,
                    previous_label: None,
                    new_label: None,
                },
            )
        } else {
            None
        }
    }

    /// A press on one of the dropdown's own option sub-nodes while open:
    /// stores the selection, closes the list, revokes focus, marks dirty,
    /// and emits exactly one SelectionChanged event whose labels are
    /// resolved from the registry at selection time.  An option id the
    /// dropdown does not own, or a press while closed, is skipped silently.
    pub fn select_option(
        &mut self,
        option_id: DropdownOptionId,
        registry: &DropdownOptionRegistry,
    ) -> (ev: Option<DropdownChangedEvent>)
        requires
            old(self).wf(),
        ensures
            final(self).wf(),
            ({
                let acts = old(self).dropdown.is_open && old(self).dropdown.option_ids@.contains(
                    option_id,
                );
                if acts {
                    &&& final(self).dropdown.selected_id == Some(option_id)
                    &&& !final(self).dropdown.is_open
                    &&& final(self).dropdown.option_ids == old(self).dropdown.option_ids
                    &&& final(self).needs_visual_update
                    &&& !final(self).focused
                    &&& final(self).animation == old(self).animation
                    &&& ev.is_some()
                    &&& {
                        let e = ev.unwrap();
                        &&& e.dropdown_entity == old(self).id
                        &&& e.kind == DropdownChangeKind::SelectionChanged
                        &&& e.previous_id == old(self).dropdown.selected_id
                        &&& e.new_id == Some(option_id)
                        &&& (match old(self).dropdown.selected_id {
                            Some(p) => registry.spec_has(p as int) ==> e.previous_label.is_some()
                                && e.previous_label.unwrap()@ == registry.spec_label_of(p as int),
                            None => e.previous_label.is_none(),
                        })
                        &&& (registry.spec_has(option_id as int) ==> e.new_label.is_some()
                            && e.new_label.unwrap()@ == registry.spec_label_of(option_id as int))
                        &&& (!registry.spec_has(option_id as int) ==> e.new_label.is_none())
                    }
                } else {
                    ev.is_none() && *final(self) == *old(self)
                }
            }),
    {
        if !self.dropdown.is_open {
            return None;
        }
        if !contains_id(&self.dropdown.option_ids, option_id) {
            return None;
        }
        let previous_id = self.dropdown.selected_id;
        let previous_label = match previous_id {
            Some(p) => {
                if registry.has_option(p) {
                    Some(registry.label_of(p))
                } else {
                    None
                }
            },
            None => None,
        };
        let new_label = if registry.has_option(option_id) {
            Some(registry.label_of(option_id))
        } else {
            None
        };
        self.dropdown.selected_id = Some(option_id);
        self.dropdown.is_open = false;
        self.needs_visual_update = true;
        self.focused = false;
        Some(
            DropdownChangedEvent {
                dropdown_entity: self.id,
                kind: DropdownChangeKind::SelectionChanged,
                previous_id,
                new_id: Some(option_id),
                previous_label,
                new_label,
            },
        )
    }

    /// Escape while focused and open: closes the list and emits exactly one
    /// Cancelled event; the selection is untouched.
    pub fn on_key(&mut self, key: Key) -> (ev: Option<DropdownChangedEvent>)
        requires
            old(self).wf(),
        ensures
            final(self).wf(),
            ({
                let acts = old(self).focused && old(self).dropdown.is_open && key == Key::Escape;
                if acts {
                    &&& !final(self).dropdown.is_open
                    &&& final(self).dropdown.selected_id == old(self).dropdown.selected_id
                    &&& final(self).dropdown.option_ids == old(self).dropdown.option_ids
                    &&& final(self).needs_visual_update
                    &&& final(self).focused == old(self).focused
                    &&& ev.is_some()
                    &&& ev.unwrap().kind == DropdownChangeKind::Cancelled
                    &&& ev.unwrap().dropdown_entity == old(self).id
                    &&& ev.unwrap().previous_id == old(self).dropdown.selected_id
                    &&& ev.unwrap().new_id == old(self).dropdown.selected_id
                } else {
                    ev.is_none() && *final(self) == *old(self)
                }
            }),
    {
        if self.focused && self.dropdown.is_open && matches!(key, Key::Escape) {
            self.dropdown.is_open = false;
            self.needs_visual_update = true;
            Some(
                DropdownChangedEvent {
                    dropdown_entity: self.id,
                    kind: DropdownChangeKind::Cancelled,
                    previous_id: self.dropdown.selected_id,
                    new_id: self.dropdown.selected_id,
                    previous_label: None,
                    new_label: None,
                },
            )
        } else {
            None
        }
    }

    /// The direct programmatic open-state mutator: drives the same
    /// transition, event and focus handling as a button press, emitting
    /// exactly when the state actually moves.
    pub fn set_open(&mut self, open: bool) -> (ev: Option<DropdownChangedEvent>)
        requires
            old(self).wf(),
        ensures
            final(self).wf(),
            final(self).dropdown.is_open == open,
            open != old(self).dropdown.is_open ==> {
                &&& final(self).needs_visual_update
                &&& final(self).focused == open
                &&& ev.is_some()
                &&& ev.unwrap().kind == if open {
                    DropdownChangeKind::Opened
                } else {
                    DropdownChangeKind::Closed
                }
                &&& ev.unwrap().previous_id == old(self).dropdown.selected_id
                &&& ev.unwrap().new_id == old(self).dropdown.selected_id
            },
            open == old(self).dropdown.is_open ==> ev.is_none(),
            final(self).dropdown.selected_id == old(self).dropdown.selected_id,
    {
        if open != self.dropdown.is_open {
            Some(self.press_button())
        } else {
            None
        }
    }

    /// The direct programmatic selection mutator: stores an owned option id
    /// (selection is skipped for a foreign one), leaves the open state
    /// alone, and emits a SelectionChanged with labels resolved from the
    /// registry, exactly when the selection actually moves.
    pub fn set_selected(
        &mut self,
        option_id: DropdownOptionId,
        registry: &DropdownOptionRegistry,
    ) -> (ev: Option<DropdownChangedEvent>)
        requires
            old(self).wf(),
        ensures
            final(self).wf(),
            final(self).dropdown.is_open == old(self).dropdown.is_open,
            ({
                let acts = old(self).dropdown.option_ids@.contains(option_id) && old(
                    self,
                ).dropdown.selected_id != Some(option_id);
                if acts {
                    &&& final(self).dropdown.selected_id == Some(option_id)
                    &&& final(self).needs_visual_update
                    &&& ev.is_some()
                    &&& ev.unwrap().kind == DropdownChangeKind::SelectionChanged
                    &&& ev.unwrap().previous_id == old(self).dropdown.selected_id
                    &&& ev.unwrap().new_id == Some(option_id)
                } else {
                    ev.is_none() && final(self).dropdown.selected_id == old(
                        self,
                    ).dropdown.selected_id
                }
            }),
    {
        if !contains_id(&self.dropdown.option_ids, option_id) {
            return None;
        }
        let already = match self.dropdown.selected_id {
            Some(s) => s == option_id,
            None => false,
        };
        if already {
            return None;
        }
        let previous_id = self.dropdown.selected_id;
        let previous_label = match previous_id {
            Some(p) => {
                if registry.has_option(p) {
                    Some(registry.label_of(p))
                } else {
                    None
                }
            },
            None => None,
        };
        let new_label = if registry.has_option(option_id) {
            Some(registry.label_of(option_id))
        } else {
            None
        };
        self.dropdown.selected_id = Some(option_id);
        self.needs_visual_update = true;
        Some(
            DropdownChangedEvent {
                dropdown_entity: self.id,
                kind: DropdownChangeKind::SelectionChanged,
                previous_id,
                new_id: Some(option_id),
                previous_label,
                new_label,
            },
        )
    }

    /// One spring tick: the target follows the open state (fully open or
    /// fully closed) and the integrator advances by `dt`.
    pub fn animate(&mut self, dt: i64)
        requires
            old(self).wf(),
            0 <= dt <= crate::spring::DT_MAX,
        ensures
            final(self).wf(),
            ({
                let retargeted = SpringState {
                    target: if old(self).dropdown.is_open {
                        SCALE as i64
                    } else {
                        0
                    },
                    ..old(self).animation
                };
                final(self).animation == spring_step_spec(
                    retargeted,
                    old(self).config.animation_config,
                    dt as int,
                )
            }),
            final(self).dropdown.is_open == old(self).dropdown.is_open,
            final(self).dropdown.selected_id == old(self).dropdown.selected_id,
            final(self).needs_visual_update == old(self).needs_visual_update,
            final(self).focused == old(self).focused,
            final(self).visuals == old(self).visuals,
    {
        self.animation.target = if self.dropdown.is_open {
            SCALE
        } else {
            0
        };
        let params = self.config.animation_config;
        spring_step(&mut self.animation, &params, dt);
    }

    /// The dirty-driven visual pass: recomputes the button label and the
    /// list's height, visibility and offset from state and animation, then
    /// clears the dirty marker.  The marker is never re-set here.
    pub fn sync(&mut self, registry: &DropdownOptionRegistry)
        requires
            old(self).wf(),
        ensures
            final(self).wf(),
            !final(self).needs_visual_update,
            final(self).dropdown == old(self).dropdown,
            final(self).config == old(self).config,
            final(self).animation == old(self).animation,
            final(self).focused == old(self).focused,
            final(self).z_index == old(self).z_index,
            final(self).id == old(self).id,
            final(self).visuals.button_label@ == dropdown_label_spec(*old(self), *registry),
            final(self).visuals.list_height == dropdown_list_height_spec(*old(self)),
            final(self).visuals.list_visible == dropdown_list_visible_spec(*old(self)),
            final(self).visuals.list_offset_y == dropdown_list_offset_spec(*old(self)),
    {
        let label = match self.dropdown.selected_id {
            Some(id) => registry.label_of(id),
            None => self.config.placeholder.clone(),
        };
        proof {
            assert(abs_int(self.animation.progress as int) * abs_int(self.config.max_height as int)
                <= 1_000_000_000_000_000int * SCALE as int) by (nonlinear_arith)
                requires
                    abs_int(self.animation.progress as int) <= PROG_MAX as int,
                    abs_int(self.config.max_height as int) <= VAL_MAX as int,
            ;
            lemma_mul_div_bound(
                self.animation.progress as int,
                self.config.max_height as int,
                SCALE as int,
                1_000_000_000_000_000,
            );
        }
        let height = mul_div(self.animation.progress, self.config.max_height, SCALE);
        let visible = self.animation.progress > self.config.animation_config.precision;
        let offset = match self.config.direction {
            DropdownDirection::Up => {
                proof {
                    assert(abs_int(height as int) * abs_int(
                        SCALE as int - self.animation.progress as int,
                    ) <= (4_000_000_000_000_000_000int) * SCALE as int) by (nonlinear_arith)
                        requires
                            abs_int(height as int) <= 1_000_000_000_000_000int,
                            abs_int(SCALE as int - self.animation.progress as int) <= SCALE as int
                                + PROG_MAX as int,
                    ;
                    lemma_mul_div_bound(
                        height as int,
                        SCALE as int - self.animation.progress as int,
                        SCALE as int,
                        4_000_000_000_000_000_000,
                    );
                }
                -mul_div(height, SCALE - self.animation.progress, SCALE)
            },
            _ => 0,
        };
        self.visuals = DropdownVisuals {
            button_label: label,
            list_height: height,
            list_visible: visible,
            list_offset_y: offset,
        };
        self.needs_visual_update = false;
    }

    /// The focus-decay check, run every tick: focus is revoked once the list
    /// animation has decayed to the precision band, whatever path closed it.
    pub fn focus_decay(&mut self)
        requires
            old(self).wf(),
        ensures
            final(self).wf(),
            *final(self) == (DropdownWidget {
                focused: old(self).focused && old(self).animation.progress > old(
                    self,
                ).config.animation_config.precision,
                ..*old(self)
            }),
    {
        if self.animation.progress <= self.config.animation_config.precision {
            self.focused = false;
        }
    }

    /// The per-overlay stacking pass: a fresh index the first tick the list
    /// becomes visible, released once its animation has decayed.
    pub fn z_pass(&mut self, alloc: &mut UiZIndexAllocator)
        requires
            old(self).wf(),
            old(alloc).wf(),
        ensures
            final(self).wf(),
            final(alloc).wf(),
            (final(self).z_index as int, *final(alloc)) == overlay_z_spec(
                *old(alloc),
                old(self).z_index as int,
                old(self).animation.progress as int,
            ),
            *final(self) == (DropdownWidget { z_index: final(self).z_index, ..*old(self) }),
    {
        let z = overlay_z_pass(alloc, self.z_index, self.animation.progress);
        self.z_index = z;
    }
}

/// The visual sync pass is idempotent: it reads only the state, config and
/// animation, and leaves all three unchanged, so a second pass with no
/// intervening change derives the very same label, height, visibility and
/// offset, and the dirty marker is already gone after the first pass.
pub proof fn lemma_dropdown_sync_idempotent(
    a: DropdownWidget,
    b: DropdownWidget,
    reg: DropdownOptionRegistry,
)
    requires
        a.dropdown == b.dropdown,
        a.config == b.config,
        a.animation == b.animation,
    ensures
        dropdown_label_spec(a, reg) == dropdown_label_spec(b, reg),
        dropdown_list_height_spec(a) == dropdown_list_height_spec(b),
        dropdown_list_visible_spec(a) == dropdown_list_visible_spec(b),
        dropdown_list_offset_spec(a) == dropdown_list_offset_spec(b),
{
}

/// Whether a dropdown owns an option id.
fn contains_id(ids: &Vec<DropdownOptionId>, id: DropdownOptionId) -> (r: bool)
    ensures
        r == ids@.contains(id),
{
    let mut i: usize = 0;
    while i < ids.len()
        invariant
            i <= ids@.len(),
            forall|j: int| 0 <= j < i ==> ids@[j] != id,
        decreases ids@.len() - i,
    {
        if ids[i] == id {
            return true;
        }
        i = i + 1;
    }
    false
}

} // verus!

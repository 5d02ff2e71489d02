//! The tab group: a selected index switched by button presses or keys (with
//! wraparound), per-tab focus movement, content visibility derived from the
//! selection, and the continuous button colour blending that runs every tick.

use vstd::prelude::*;
use vstd::pervasive::VecAdditionalExecFns;

use crate::{Interaction, Key, WidgetId};
use crate::color::Color;
use crate::fixed::{clamp_spec, clamp64, SCALE, VAL_MAX};

verus! {

#[derive(Debug, Clone, Copy, PartialEq, Eq, Structural)]
pub struct TabGroup {
    pub selected_tab: usize,
}

/// The cached sub-node table of a tab group: names, content panes and
/// buttons, index-aligned.
#[derive(Debug, Clone)]
pub struct TabGroupMeta {
    pub tab_names: Vec<String>,
    pub content_entities: Vec<WidgetId>,
    pub button_entities: Vec<WidgetId>,
}

/// A tab button's back-reference to its group and position.
#[derive(Debug, Clone, Copy, PartialEq, Eq, Structural)]
pub struct TabButton {
    pub tab_index: usize,
    pub group_entity: WidgetId,
}

/// A content pane's back-reference to its group and position.
#[derive(Debug, Clone, Copy, PartialEq, Eq, Structural)]
pub struct TabContent {
    pub tab_index: usize,
    pub group_entity: WidgetId,
}

impl Default for TabContent {
    /// The first pane of a group still to be wired up.
    fn default() -> (r: TabContent)
        ensures
            r == (TabContent { tab_index: 0, group_entity: 0 }),
    {
        TabContent { tab_index: 0, group_entity: 0 }
    }
}

#[derive(Debug, Clone, Copy, PartialEq, Eq, Structural)]
pub enum TabStyle {
    Top,
    Bottom,
    Left,
    Right,
    Pill,
}

#[derive(Debug, Clone, Copy, PartialEq, Eq, Structural)]
pub enum ContentStrategy {
    Preloaded,
    LazyLoaded,
    Dynamic,
}

#[derive(Debug, Clone, Copy, PartialEq)]
pub struct TabGroupConfig {
    pub tab_style: TabStyle,
    /// Seconds a selection animation takes, fixed-point.
    pub animation_duration: i64,
    pub strategy: ContentStrategy,
    /// Gap between tab buttons, fixed-point pixels.
    pub tab_spacing: i64,
}

impl Default for TabGroupConfig {
    /// The stock group: tabs on top, preloaded content, a 0.2-second
    /// animation and four pixels of spacing.
    fn default() -> (r: TabGroupConfig)
        ensures
            r == (TabGroupConfig {
                tab_style: TabStyle::Top,
                animation_duration: 200_000,
                strategy: ContentStrategy::Preloaded,
                tab_spacing: 4_000_000,
            }),
    {
        TabGroupConfig {
            tab_style: TabStyle::Top,
            animation_duration: 200_000,
            strategy: ContentStrategy::Preloaded,
            tab_spacing: 4_000_000,
        }
    }
}

/// A selection-transition animation slot for a tab group.
#[derive(Debug, Clone, Copy, PartialEq)]
pub struct TabAnimation {
    pub progress: i64,
    pub target: i64,
    pub velocity: i64,
}

/// Edge-detection memory for a tab button's interaction signal.
#[derive(Debug, Clone, Copy, PartialEq, Eq, Structural)]
pub struct TabInteractionState {
    pub was_pressed: bool,
    pub was_hovered: bool,
}

#[derive(Debug, Clone, Copy, PartialEq, Eq, Structural)]
pub enum TabChangeKind {
    UserInteraction,
    Programmatic,
    Initialization,
}

#[derive(Debug, Clone, Copy, PartialEq)]
pub struct TabChangedEvent {
    pub group_entity: WidgetId,
    pub previous_tab: usize,
    pub new_tab: usize,
    pub change_kind: TabChangeKind,
}

/// The transient per-button interaction markers.
#[derive(Debug, Clone, Copy, PartialEq, Eq, Structural)]
pub struct TabButtonState {
    pub hovered: bool,
    pub pressed: bool,
}

/// A tab group widget root: the selection, the tab count, per-button
/// interaction markers, the focused tab, the dirty marker, and the per-tab
/// content visibility the sync pass derives.
pub struct TabGroupWidget {
    pub id: WidgetId,
    pub group: TabGroup,
    pub config: TabGroupConfig,
    pub tab_count: usize,
    pub buttons: Vec<TabButtonState>,
    pub focused_tab: Option<usize>,
    pub needs_visual_update: bool,
    pub content_visible: Vec<bool>,
}

impl TabGroupWidget {
    pub open spec fn wf(self) -> bool {
        &&& self.tab_count >= 1
        &&& (self.group.selected_tab as int) < self.tab_count as int
        &&& self.buttons@.len() == self.tab_count as int
        &&& self.content_visible@.len() == self.tab_count as int
        &&& match self.focused_tab {
            Some(i) => (i as int) < self.tab_count as int,
            None => true,
        }
    }

    /// Builds a group of `tab_count` tabs with `initial_tab` selected; the
    /// first sync is already requested.
    pub fn new(id: WidgetId, tab_count: usize, initial_tab: usize, config: TabGroupConfig) -> (r:
        TabGroupWidget)
        requires
            1 <= tab_count,
            initial_tab < tab_count,
        ensures
            r.id == id,
            r.group.selected_tab == initial_tab,
            r.tab_count == tab_count,
            r.config == config,
            r.focused_tab.is_none(),
            r.needs_visual_update,
            r.wf(),
    {
        let mut buttons: Vec<TabButtonState> = Vec::new();
        let mut visible: Vec<bool> = Vec::new();
        let mut i: usize = 0;
        while i < tab_count
            invariant
                i <= tab_count,
                buttons@.len() == i as int,
                visible@.len() == i as int,
            decreases tab_count - i,
        {
            buttons.push(TabButtonState { hovered: false, pressed: false });
            visible.push(false);
            i = i + 1;
        }
        TabGroupWidget {
            id,
            group: TabGroup { selected_tab: initial_tab },
            config,
            tab_count,
            buttons,
            focused_tab: None,
            needs_visual_update: true,
            content_visible: visible,
        }
    }

    /// Switches the selection to `new_tab` and reports the change; no event
    /// when the tab is already selected.
    fn switch_to(&mut self, new_tab: usize, kind: TabChangeKind) -> (ev: Option<TabChangedEvent>)
        requires
            old(self).wf(),
            (new_tab as int) < old(self).tab_count as int,
        ensures
            final(self).wf(),
            new_tab != old(self).group.selected_tab ==> {
                &&& final(self).group.selected_tab == new_tab
                &&& final(self).needs_visual_update
                &&& final(self).buttons == old(self).buttons
                &&& final(self).focused_tab == old(self).focused_tab
                &&& final(self).content_visible == old(self).content_visible
                &&& final(self).tab_count == old(self).tab_count
                &&& ev == Some(
                    TabChangedEvent {
                        group_entity: old(self).id,
                        previous_tab: old(self).group.selected_tab,
                        new_tab,
                        change_kind: kind,
                    },
                )
            },
            new_tab == old(self).group.selected_tab ==> ev.is_none() && *final(self) == *old(self),
    {
        if new_tab != self.group.selected_tab {
            let previous = self.group.selected_tab;
            self.group.selected_tab = new_tab;
            self.needs_visual_update = true;
            Some(
                TabChangedEvent {
                    group_entity: self.id,
                    previous_tab: previous,
                    new_tab,
                    change_kind: kind,
                },
            )
        } else {
            None
        }
    }

    /// Routes one interaction-state change on the button at `tab_index`: a
    /// press marks the button pressed and switches the selection if it
    /// differs; hovering marks it hovered; the signal falling back to idle
    /// clears both markers.  An index the group does not own is skipped.
    pub fn on_button_interaction(&mut self, tab_index: usize, interaction: Interaction) -> (ev:
        Option<TabChangedEvent>)
        requires
            old(self).wf(),
        ensures
            final(self).wf(),
            (tab_index as int) >= old(self).tab_count as int ==> ev.is_none() && final(self).group
                == old(self).group,
            (tab_index as int) < old(self).tab_count as int ==> {
                &&& (interaction == Interaction::Pressed ==> {
                    &&& final(self).buttons@[tab_index as int].pressed
                    &&& (tab_index != old(self).group.selected_tab ==> final(self).group.selected_tab == tab_index && final(self).needs_visual_update && ev
                        == Some(
                        TabChangedEvent {
                            group_entity: old(self).id,
                            previous_tab: old(self).group.selected_tab,
                            new_tab: tab_index,
                            change_kind: TabChangeKind::UserInteraction,
                        },
                    ))
                    &&& (tab_index == old(self).group.selected_tab ==> ev.is_none() && final(self).group == old(self).group)
                })
                &&& (interaction == Interaction::Hovered ==> final(self).buttons@[tab_index as int].hovered
                    && ev.is_none() && final(self).group == old(self).group)
                &&& (interaction == Interaction::Idle ==> final(self).buttons@[tab_index as int]
                    == (TabButtonState { hovered: false, pressed: false }) && ev.is_none() && final(self).group == old(self).group)
            },
    {
        if tab_index >= self.tab_count {
            return None;
        }
        match interaction {
            Interaction::Pressed => {
                let b = self.buttons[tab_index];
                self.buttons.set(tab_index, TabButtonState { pressed: true, ..b });
                self.switch_to(tab_index, TabChangeKind::UserInteraction)
            },
            Interaction::Hovered => {
                let b = self.buttons[tab_index];
                self.buttons.set(tab_index, TabButtonState { hovered: true, ..b });
                None
            },
            Interaction::Idle => {
                self.buttons.set(tab_index, TabButtonState { hovered: false, pressed: false });
                None
            },
        }
    }

    /// Routes one key press while some tab is focused: arrows move the
    /// selection with wraparound, Space or Enter selects the focused tab.
    pub fn on_key(&mut self, key: Key) -> (ev: Option<TabChangedEvent>)
        requires
            old(self).wf(),
        ensures
            final(self).wf(),
            old(self).focused_tab.is_none() ==> ev.is_none() && final(self).group == old(self).group,
            old(self).focused_tab.is_some() ==> {
                let n = old(self).tab_count as int;
                let sel = old(self).group.selected_tab as int;
                let target: int = match key {
                    Key::ArrowLeft | Key::ArrowUp => if sel == 0 {
                        n - 1
                    } else {
                        sel - 1
                    },
                    Key::ArrowRight | Key::ArrowDown => if sel + 1 == n {
                        0
                    } else {
                        sel + 1
                    },
                    Key::Space | Key::Enter => old(self).focused_tab.unwrap() as int,
                    _ => sel,
                };
                &&& (target != sel ==> final(self).group.selected_tab as int == target && final(self).needs_visual_update && ev == Some(
                    TabChangedEvent {
                        group_entity: old(self).id,
                        previous_tab: old(self).group.selected_tab,
                        new_tab: target as usize,
                        change_kind: TabChangeKind::UserInteraction,
                    },
                ))
                &&& (target == sel ==> ev.is_none() && final(self).group == old(self).group)
            },
    {
        let focused = match self.focused_tab {
            Some(i) => i,
            None => {
                return None;
            },
        };
        let sel = self.group.selected_tab;
        let n = self.tab_count;
        let target: usize = match key {
            Key::ArrowLeft | Key::ArrowUp => {
                if sel == 0 {
                    n - 1
                } else {
                    sel - 1
                }
            },
            Key::ArrowRight | Key::ArrowDown => {
                if sel + 1 == n {
                    0
                } else {
                    sel + 1
                }
            },
            Key::Space | Key::Enter => focused,
            _ => sel,
        };
        self.switch_to(target, TabChangeKind::UserInteraction)
    }

    /// Moves keyboard focus between tab buttons with wraparound; only the
    /// left and right arrows move focus, and only while a tab is focused.
    pub fn move_focus(&mut self, key: Key)
        requires
            old(self).wf(),
        ensures
            final(self).wf(),
            *final(self) == (TabGroupWidget { focused_tab: final(self).focused_tab, ..*old(self) }),
            match old(self).focused_tab {
                Some(i) => {
                    let n = old(self).tab_count as int;
                    match key {
                        Key::ArrowLeft => final(self).focused_tab == Some(
                            (if i == 0 {
                                n - 1
                            } else {
                                i - 1
                            }) as usize,
                        ),
                        Key::ArrowRight => final(self).focused_tab == Some(
                            (if i + 1 == n {
                                0int
                            } else {
                                i + 1
                            }) as usize,
                        ),
                        _ => final(self).focused_tab == old(self).focused_tab,
                    }
                },
                None => final(self).focused_tab.is_none(),
            },
    {
        let i = match self.focused_tab {
            Some(i) => i,
            None => {
                return ;
            },
        };
        let n = self.tab_count;
        match key {
            Key::ArrowLeft => {
                self.focused_tab = Some(
                    if i == 0 {
                        n - 1
                    } else {
                        i - 1
                    },
                );
            },
            Key::ArrowRight => {
                self.focused_tab = Some(
                    if i + 1 == n {
                        0
                    } else {
                        i + 1
                    },
                );
            },
            _ => {},
        }
    }

    /// The direct programmatic mutator: selects a tab through the same
    /// invariant checks and event emission as the user paths.
    pub fn set_selected(&mut self, tab: usize) -> (ev: Option<TabChangedEvent>)
        requires
            old(self).wf(),
            (tab as int) < old(self).tab_count as int,
        ensures
            final(self).wf(),
            final(self).group.selected_tab == tab,
            ev.is_some() <==> tab != old(self).group.selected_tab,
            ev.is_some() ==> ev == Some(
                TabChangedEvent {
                    group_entity: old(self).id,
                    previous_tab: old(self).group.selected_tab,
                    new_tab: tab,
                    change_kind: TabChangeKind::Programmatic,
                },
            ),
    {
        if tab != self.group.selected_tab {
            let previous = self.group.selected_tab;
            self.group.selected_tab = tab;
            self.needs_visual_update = true;
            Some(
                TabChangedEvent {
                    group_entity: self.id,
                    previous_tab: previous,
                    new_tab: tab,
                    change_kind: TabChangeKind::Programmatic,
                },
            )
        } else {
            None
        }
    }

    /// The dirty-driven visual pass: exactly the selected tab's content pane
    /// is visible, every other pane is hidden, and the dirty marker is
    /// cleared.  The marker is never re-set here.
    pub fn sync(&mut self)
        requires
            old(self).wf(),
        ensures
            final(self).wf(),
            !final(self).needs_visual_update,
            final(self).group == old(self).group,
            final(self).buttons == old(self).buttons,
            final(self).focused_tab == old(self).focused_tab,
            final(self).tab_count == old(self).tab_count,
            final(self).id == old(self).id,
            final(self).config == old(self).config,
            final(self).content_visible@.len() == old(self).tab_count as int,
            forall|i: int|
                0 <= i < final(self).content_visible@.len() ==> final(self).content_visible@[i] == (
                i == old(self).group.selected_tab as int),
    {
        let n = self.tab_count;
        let sel = self.group.selected_tab;
        let mut visible: Vec<bool> = Vec::new();
        let mut i: usize = 0;
        while i < n
            invariant
                i <= n,
                visible@.len() == i as int,
                forall|j: int| 0 <= j < i as int ==> visible@[j] == (j == sel as int),
            decreases n - i,
        {
            visible.push(i == sel);
            i = i + 1;
        }
        self.content_visible = visible;
        self.needs_visual_update = false;
    }
}

/// The colour a tab button heads toward, by priority: selected, then
/// pressed, then keyboard-focused, then hovered, then plain inactive.
pub open spec fn tab_target_color_spec(
    selected: bool,
    pressed: bool,
    focused: bool,
    hovered: bool,
) -> Color {
    if selected {
        Color { red: 900_000, green: 900_000, blue: 900_000, alpha: SCALE as i64 }
    } else if pressed {
        Color { red: 600_000, green: 600_000, blue: 600_000, alpha: SCALE as i64 }
    } else if focused {
        Color { red: 800_000, green: 800_000, blue: 900_000, alpha: SCALE as i64 }
    } else if hovered {
        Color { red: 750_000, green: 750_000, blue: 750_000, alpha: SCALE as i64 }
    } else {
        Color { red: 650_000, green: 650_000, blue: 650_000, alpha: SCALE as i64 }
    }
}

pub fn tab_target_color(selected: bool, pressed: bool, focused: bool, hovered: bool) -> (r: Color)
    ensures
        r == tab_target_color_spec(selected, pressed, focused, hovered),
        r.wf(),
{
    if selected {
        Color::rgb(900_000, 900_000, 900_000)
    } else if pressed {
        Color::rgb(600_000, 600_000, 600_000)
    } else if focused {
        Color::rgb(800_000, 800_000, 900_000)
    } else if hovered {
        Color::rgb(750_000, 750_000, 750_000)
    } else {
        Color::rgb(650_000, 650_000, 650_000)
    }
}

/// One step of the continuous colour blend that runs every tick without a
/// dirty marker (the explicit exception for decorative effects): the button
/// colour moves toward its target by a share of ten times the tick length,
/// saturating at a full step.
pub fn tab_color_blend(current: &Color, target: &Color, dt: i64) -> (r: Color)
    requires
        current.wf(),
        target.wf(),
        0 <= dt <= VAL_MAX,
    ensures
        r == current.mix_spec(*target, clamp_spec(10 * dt, 0, SCALE as int)),
        r.wf(),
        clamp_spec(10 * dt, 0, SCALE as int) == SCALE as int ==> r == *target,
{
    let share = clamp64(10 * dt, 0, SCALE);
    current.mix(target, share)
}

/// The scale a pressed button shrinks toward: 95 percent, otherwise full
/// size.
pub fn tab_target_scale(pressed: bool) -> (r: i64)
    ensures
        r == if pressed {
            950_000int
        } else {
            SCALE as int
        },
{
    if pressed {
        950_000
    } else {
        SCALE
    }
}

/// The sync pass derives content visibility from the selection alone, so
/// running it twice without an intervening change yields identical
/// visibility vectors, and the dirty marker is absent after the first pass.
pub proof fn lemma_tab_sync_visibility_deterministic(sel: int, n: int, a: Seq<bool>, b: Seq<bool>)
    requires
        a.len() == n,
        b.len() == n,
        forall|i: int| 0 <= i < n ==> a[i] == (i == sel),
        forall|i: int| 0 <= i < n ==> b[i] == (i == sel),
    ensures
        a =~= b,
{
}

} // verus!

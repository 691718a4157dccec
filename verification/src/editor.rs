//! The editor's dispatch state: activation, pointer and keyboard focus
//! bookkeeping, and the clone-on-change cache of window callback objects.
use crate::entity_map::EntityMap;
use crate::tabs::{dock_tabs, kept_tabs, missing_tabs, EditorTabs};
use vstd::prelude::*;

verus! {

/// What the editor announces to the host application.
#[derive(Clone, Copy, Debug, PartialEq, Eq, Structural)]
#[non_exhaustive]
pub enum EditorEvent {
    Toggle { now_active: bool },
    FocusSelected,
}

/// Which side an ongoing pointer press started on: the game viewport or
/// the editor's own widgets.
#[derive(Clone, Copy, Debug, PartialEq, Eq, Structural)]
pub enum ActiveEditorInteraction {
    Viewport,
    Editor,
}

/// The mode of the window the editor draws on.
#[derive(Clone, Copy, Debug, PartialEq, Eq, Structural)]
pub enum WindowMode {
    Windowed,
    BorderlessFullscreen,
}

/// The mode a double click on the menu bar switches the window to:
/// windowed becomes borderless fullscreen and anything else windowed.
pub fn next_window_mode(mode: WindowMode) -> (r: WindowMode)
    ensures
        mode == WindowMode::Windowed ==> r == WindowMode::BorderlessFullscreen,
        mode != WindowMode::Windowed ==> r == WindowMode::Windowed,
{
    match mode {
        WindowMode::Windowed => WindowMode::BorderlessFullscreen,
        WindowMode::BorderlessFullscreen => WindowMode::Windowed,
    }
}

/// The editor resource: which window entity it draws on, whether it is
/// active, what it knows about the pointer and keyboard, and a cache of
/// the window callback objects keyed by window entity id.
pub struct Editor<W> {
    pub on_window: u64,
    pub always_active: bool,
    pub active: bool,
    pub pointer_used: bool,
    pub active_editor_interaction: Option<ActiveEditorInteraction>,
    pub listening_for_text: bool,
    pub window_cache: EntityMap<W>,
}

impl<W> Editor<W> {
    /// The cache is well formed.
    pub open spec fn wf(&self) -> bool {
        self.window_cache.wf()
    }

    /// A fresh editor on window entity `on_window`; an always-active
    /// editor starts active, any other starts inactive.
    pub fn new(on_window: u64, always_active: bool) -> (r: Editor<W>)
        ensures
            r.wf(),
            r.on_window == on_window,
            r.always_active == always_active,
            r.active == always_active,
            !r.pointer_used,
            r.active_editor_interaction.is_none(),
            !r.listening_for_text,
            r.window_cache@ == Map::<u64, W>::empty(),
    {
        Editor {
            on_window,
            always_active,
            active: always_active,
            pointer_used: false,
            active_editor_interaction: None,
            listening_for_text: false,
            window_cache: EntityMap::new(),
        }
    }

    /// The window entity the editor draws on.
    pub fn window(&self) -> (r: u64)
        ensures
            r == self.on_window,
    {
        self.on_window
    }

    /// Whether the editor can never be deactivated.
    pub fn always_active(&self) -> (r: bool)
        ensures
            r == self.always_active,
    {
        self.always_active
    }

    /// Whether the editor is shown this frame.
    pub fn active(&self) -> (r: bool)
        ensures
            r == self.active,
    {
        self.active
    }

    /// Activates or deactivates the editor; everything else stays.
    pub fn set_active(&mut self, active: bool)
        ensures
            final(self).active == active,
            final(self).on_window == old(self).on_window,
            final(self).always_active == old(self).always_active,
            final(self).pointer_used == old(self).pointer_used,
            final(self).active_editor_interaction == old(self).active_editor_interaction,
            final(self).listening_for_text == old(self).listening_for_text,
            final(self).window_cache == old(self).window_cache,
    {
        self.active = active;
    }

    /// Flips activation from the menu bar's play/pause button and says
    /// which event to announce. An always-active editor has no such
    /// button.
    pub fn toggle(&mut self) -> (e: EditorEvent)
        requires
            !old(self).always_active,
        ensures
            final(self).active == !old(self).active,
            e == (EditorEvent::Toggle { now_active: final(self).active }),
            final(self).on_window == old(self).on_window,
            final(self).always_active == old(self).always_active,
            final(self).pointer_used == old(self).pointer_used,
            final(self).active_editor_interaction == old(self).active_editor_interaction,
            final(self).listening_for_text == old(self).listening_for_text,
            final(self).window_cache == old(self).window_cache,
    {
        self.active = !self.active;
        EditorEvent::Toggle { now_active: self.active }
    }

    /// Whether the pointer is over the editor's widgets, or a press that
    /// began on them is still going.
    pub fn pointer_used(&self) -> (r: bool)
        ensures
            r == (self.pointer_used || self.active_editor_interaction == Some(
                ActiveEditorInteraction::Editor,
            )),
    {
        self.pointer_used || matches!(
            self.active_editor_interaction,
            Some(ActiveEditorInteraction::Editor),
        )
    }

    /// Whether the editor wants the keyboard.
    pub fn listening_for_text(&self) -> (r: bool)
        ensures
            r == self.listening_for_text,
    {
        self.listening_for_text
    }

    /// Whether the game viewport should see pointer input: the pointer is
    /// free, or a press that began on the viewport is still going.
    pub fn viewport_interaction_active(&self) -> (r: bool)
        ensures
            r == (!self.pointer_used || self.active_editor_interaction == Some(
                ActiveEditorInteraction::Viewport,
            )),
    {
        !self.pointer_used || matches!(
            self.active_editor_interaction,
            Some(ActiveEditorInteraction::Viewport),
        )
    }

    /// Folds one frame's input summary into the state, after the UI drew.
    ///
    /// An inactive editor only records whether its menu bar wants the
    /// pointer. An active one records whether the pointer sits outside the
    /// viewport, whether the keyboard is wanted, and on which side a fresh
    /// press began; releasing the pointer forgets the side.
    pub fn finish_frame(
        &mut self,
        wants_pointer: bool,
        pointer_in_viewport: Option<bool>,
        wants_keyboard: bool,
        pointer_pressed: bool,
    )
        ensures
            final(self).on_window == old(self).on_window,
            final(self).always_active == old(self).always_active,
            final(self).active == old(self).active,
            final(self).window_cache == old(self).window_cache,
            !old(self).active ==> final(self).pointer_used == wants_pointer
                && final(self).listening_for_text == old(self).listening_for_text
                && final(self).active_editor_interaction == old(self).active_editor_interaction,
            old(self).active ==> {
                &&& final(self).pointer_used == (pointer_in_viewport == Some(false))
                &&& final(self).listening_for_text == wants_keyboard
                &&& final(self).active_editor_interaction == (if !pointer_pressed {
                    None::<ActiveEditorInteraction>
                } else if old(self).active_editor_interaction.is_some() {
                    old(self).active_editor_interaction
                } else if final(self).pointer_used {
                    Some(ActiveEditorInteraction::Editor)
                } else {
                    Some(ActiveEditorInteraction::Viewport)
                })
            },
    {
        if !self.active {
            self.pointer_used = wants_pointer;
            return;
        }
        self.pointer_used = match pointer_in_viewport {
            Some(in_viewport) => !in_viewport,
            None => false,
        };
        self.listening_for_text = wants_keyboard;
        if !pointer_pressed {
            self.active_editor_interaction = None;
        } else if self.active_editor_interaction.is_none() {
            self.active_editor_interaction = Some(
                if self.pointer_used {
                    ActiveEditorInteraction::Editor
                } else {
                    ActiveEditorInteraction::Viewport
                },
            );
        }
    }

    /// Whether the cache wants a fresh clone of the window object behind
    /// `entity`: it does when the host marked it changed, or when it is
    /// not cached yet.
    pub fn cache_needs_value(&self, entity: u64, changed: bool) -> (r: bool)
        requires
            self.wf(),
        ensures
            r == (changed || !self.window_cache@.contains_key(entity)),
    {
        changed || !self.window_cache.contains_key(entity)
    }

    /// Puts a freshly cloned window object into the cache.
    pub fn cache_store(&mut self, entity: u64, window: W)
        requires
            old(self).wf(),
        ensures
            final(self).wf(),
            final(self).window_cache@ == old(self).window_cache@.insert(entity, window),
            final(self).on_window == old(self).on_window,
            final(self).always_active == old(self).always_active,
            final(self).active == old(self).active,
            final(self).pointer_used == old(self).pointer_used,
            final(self).active_editor_interaction == old(self).active_editor_interaction,
            final(self).listening_for_text == old(self).listening_for_text,
    {
        self.window_cache.insert(entity, window);
    }

    /// The cached window object behind `entity`, if any.
    pub fn cached_window(&self, entity: u64) -> (r: Option<&W>)
        requires
            self.wf(),
        ensures
            match r {
                Some(w) => self.window_cache@.contains_key(entity) && *w
                    == self.window_cache@[entity],
                None => !self.window_cache@.contains_key(entity),
            },
    {
        self.window_cache.get(entity)
    }

    /// The per-frame reconciliation of the dispatch bookkeeping with the
    /// live window entities: dead windows lose their tab and their cache
    /// entry, and every live window without a tab gets one.
    pub fn sync_windows(&mut self, tabs: &mut EditorTabs, live: &Vec<u64>)
        requires
            old(self).wf(),
        ensures
            final(self).wf(),
            final(self).window_cache@ == old(self).window_cache@.restrict(live@.to_set()),
            dock_tabs(final(tabs).state).to_multiset() == kept_tabs(
                dock_tabs(old(tabs).state),
                live@,
            ).to_multiset().add(missing_tabs(live@, dock_tabs(old(tabs).state)).to_multiset()),
            final(self).on_window == old(self).on_window,
            final(self).always_active == old(self).always_active,
            final(self).active == old(self).active,
            final(self).pointer_used == old(self).pointer_used,
            final(self).active_editor_interaction == old(self).active_editor_interaction,
            final(self).listening_for_text == old(self).listening_for_text,
    {
        tabs.sync(live);
        self.prune_cache(live);
    }

    /// Drops every cached window whose entity is no longer live.
    pub fn prune_cache(&mut self, live: &Vec<u64>)
        requires
            old(self).wf(),
        ensures
            final(self).wf(),
            final(self).window_cache@ == old(self).window_cache@.restrict(live@.to_set()),
            final(self).on_window == old(self).on_window,
            final(self).always_active == old(self).always_active,
            final(self).active == old(self).active,
            final(self).pointer_used == old(self).pointer_used,
            final(self).active_editor_interaction == old(self).active_editor_interaction,
            final(self).listening_for_text == old(self).listening_for_text,
    {
        self.window_cache.retain_ids(live);
    }
}

} // verus!

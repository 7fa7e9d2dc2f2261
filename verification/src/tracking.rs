//! The window-tracking state: which application the overlay follows, where it
//! sits relative to that window, whether it should be topmost, the
//! attach-by-click selection, and the settings that are remembered on disk.
use vstd::prelude::*;
use std::path::PathBuf;
use crate::text::{
    chars_of, concat_text, eq_ignore_ascii_case, eq_ignore_ascii_case_spec, is_control, is_control_char,
    no_control_chars, trim, trim_bounds, utf8_len_at_most,
};
use crate::window::{NativeRect, WindowCandidate};

verus! {

#[verifier::external_type_specification]
#[verifier::external_body]
pub struct ExPathBuf(PathBuf);

/// The application the overlay looks for until it is told otherwise.
pub const DEFAULT_TARGET_PROCESS: &'static str = "L2.bin";

/// The largest settings file that is read back.
pub const MAX_TRACKING_SETTINGS_BYTES: u64 = 4096;

/// The longest process name, in UTF-8 bytes, that is accepted from the settings file.
pub const MAX_PROCESS_NAME_BYTES: usize = 260;

/// Whether the overlay should currently be topmost: only when "always on top"
/// is on, and, when it should hide while the game is unfocused, only while the
/// followed window has the focus.
pub open spec fn effective_topmost_spec(
    always_on_top: bool,
    hide_when_unfocused: bool,
    target_is_focused: bool,
) -> bool {
    always_on_top && (!hide_when_unfocused || target_is_focused)
}

pub fn effective_topmost(always_on_top: bool, hide_when_unfocused: bool, target_is_focused: bool) -> (r:
    bool)
    ensures
        r == effective_topmost_spec(always_on_top, hide_when_unfocused, target_is_focused),
        !always_on_top ==> !r,
        !hide_when_unfocused ==> r == always_on_top,
        always_on_top && target_is_focused ==> r,
        hide_when_unfocused && !target_is_focused ==> !r,
{
    always_on_top && (!hide_when_unfocused || target_is_focused)
}

/// A remembered process name must hold a non-whitespace character, fit in
/// `MAX_PROCESS_NAME_BYTES` bytes of UTF-8 and hold no control character.
pub open spec fn is_valid_process_name_spec(s: Seq<char>) -> bool {
    &&& trim(s).len() > 0
    &&& vstd::utf8::encode_utf8(s).len() <= MAX_PROCESS_NAME_BYTES
    &&& no_control_chars(s)
}

pub fn is_valid_process_name(process: &str) -> (r: bool)
    ensures
        r == is_valid_process_name_spec(process@),
{
    let chars = chars_of(process);
    let (start, end) = trim_bounds(&chars);
    if start == end {
        return false;
    }
    if !utf8_len_at_most(&chars, MAX_PROCESS_NAME_BYTES) {
        return false;
    }
    let mut i: usize = 0;
    while i < chars.len()
        invariant
            i <= chars.len(),
            chars@ == process@,
            forall|k: int| 0 <= k < i ==> !is_control_char(#[trigger] chars@[k]),
        decreases chars.len() - i,
    {
        if is_control(chars[i]) {
            return false;
        }
        i = i + 1;
    }
    assert(no_control_chars(process@));
    assert(trim(process@).len() > 0);
    true
}

/// Where the attach-by-click selection stands.
#[derive(Clone, Copy, PartialEq, Eq, Structural)]
pub enum SelectionState {
    /// No selection is under way.
    Idle,
    /// The prompt that explains the selection is open.
    PromptOpen,
    /// The next window that comes to the foreground is followed.
    Armed,
}

/// The window the overlay follows.
pub struct AttachedWindow {
    pub handle: isize,
    pub process_id: u32,
    /// The executable name of the window's process.
    pub process_name: String,
    /// The overlay's position minus the window's position.
    pub offset: (i32, i32),
    pub last_target_position: (i32, i32),
    pub last_overlay_position: (i32, i32),
}

impl AttachedWindow {
    /// The last recorded overlay position is the last recorded window
    /// position plus the offset.
    pub open spec fn keeps_offset(&self) -> bool {
        &&& self.last_overlay_position.0 == self.last_target_position.0 + self.offset.0
        &&& self.last_overlay_position.1 == self.last_target_position.1 + self.offset.1
    }
}

/// The settings that are remembered between runs.
pub struct PersistedWindowTracking {
    pub preferred_process: String,
    pub offset: Option<(i32, i32)>,
    pub exclude_from_capture: bool,
}

/// Everything the overlay knows about its window behavior.
pub struct WindowTrackingSettings {
    pub always_on_top: bool,
    pub hide_when_unfocused: bool,
    pub exclude_from_capture: bool,
    /// The executable name of the application to follow.
    pub preferred_process: String,
    /// The window being followed, with the name of its process.
    pub target: Option<AttachedWindow>,
    pub selection: SelectionState,
    /// The topmost state last applied to the overlay, if it is known.
    pub actual_topmost: Option<bool>,
    pub remembered_offset: Option<(i32, i32)>,
    pub persistence_path: Option<PathBuf>,
    pub background_mode: bool,
}

/// Whether `a - b` fits in an `i32`.
pub open spec fn difference_fits(a: i32, b: i32) -> bool {
    i32::MIN <= a - b <= i32::MAX
}

/// Whether `a + b` fits in an `i32`.
pub open spec fn sum_fits(a: i32, b: i32) -> bool {
    i32::MIN <= a + b <= i32::MAX
}

/// Whether the offset between the two rectangles' top-left corners can be computed.
pub open spec fn attach_fits(target_rect: Option<NativeRect>, own_rect: Option<NativeRect>) -> bool {
    match (target_rect, own_rect) {
        (Some(t), Some(o)) => difference_fits(o.left, t.left) && difference_fits(o.top, t.top),
        _ => true,
    }
}

pub fn attach_in_range(target_rect: Option<NativeRect>, own_rect: Option<NativeRect>) -> (r: bool)
    ensures
        r == attach_fits(target_rect, own_rect),
{
    match (target_rect, own_rect) {
        (Some(t), Some(o)) => {
            let dx = o.left as i64 - t.left as i64;
            let dy = o.top as i64 - t.top as i64;
            i32::MIN as i64 <= dx && dx <= i32::MAX as i64 && i32::MIN as i64 <= dy && dy
                <= i32::MAX as i64
        },
        _ => true,
    }
}

/// The new placement of the overlay after one tracking step.
#[derive(Clone, Copy)]
pub struct TrackedPlacement {
    pub offset: (i32, i32),
    pub target_position: (i32, i32),
    pub overlay_position: (i32, i32),
}

impl TrackedPlacement {
    pub open spec fn keeps_offset(&self) -> bool {
        &&& self.overlay_position.0 == self.target_position.0 + self.offset.0
        &&& self.overlay_position.1 == self.target_position.1 + self.offset.1
    }
}

/// Whether one tracking step can compute its positions: where the window
/// moved, the overlay's new position; where only the overlay moved, its new offset.
pub open spec fn tracking_step_fits(
    w: &AttachedWindow,
    target_position: (i32, i32),
    own_position: (i32, i32),
) -> bool {
    if target_position != w.last_target_position {
        sum_fits(target_position.0, w.offset.0) && sum_fits(target_position.1, w.offset.1)
    } else {
        difference_fits(own_position.0, target_position.0) && difference_fits(
            own_position.1,
            target_position.1,
        )
    }
}

pub fn tracking_step_in_range(
    w: &AttachedWindow,
    target_position: (i32, i32),
    own_position: (i32, i32),
) -> (r: bool)
    ensures
        r == tracking_step_fits(w, target_position, own_position),
{
    let (x, y) = if !same_position(target_position, w.last_target_position) {
        (
            target_position.0 as i64 + w.offset.0 as i64,
            target_position.1 as i64 + w.offset.1 as i64,
        )
    } else {
        (
            own_position.0 as i64 - target_position.0 as i64,
            own_position.1 as i64 - target_position.1 as i64,
        )
    };
    i32::MIN as i64 <= x && x <= i32::MAX as i64 && i32::MIN as i64 <= y && y <= i32::MAX as i64
}

/// Whether two positions are the same.
pub fn same_position(a: (i32, i32), b: (i32, i32)) -> (r: bool)
    ensures
        r == (a == b),
{
    a.0 == b.0 && a.1 == b.1
}

/// Where the overlay has to be moved in this tracking step, if anywhere: to
/// the window's new position plus the offset, when the window moved and the
/// overlay is not already there.
pub open spec fn overlay_move_target_spec(
    w: &AttachedWindow,
    target_position: (i32, i32),
    own_position: (i32, i32),
) -> Option<(i32, i32)> {
    let desired = (
        (target_position.0 + w.offset.0) as i32,
        (target_position.1 + w.offset.1) as i32,
    );
    if target_position != w.last_target_position && own_position != desired {
        Some(desired)
    } else {
        None
    }
}

pub fn overlay_move_target(w: &AttachedWindow, target_position: (i32, i32), own_position: (i32, i32)) -> (r:
    Option<(i32, i32)>)
    requires
        tracking_step_fits(w, target_position, own_position),
    ensures
        r == overlay_move_target_spec(w, target_position, own_position),
        target_position != w.last_target_position && own_position != (
            (target_position.0 + w.offset.0) as i32,
            (target_position.1 + w.offset.1) as i32,
        ) ==> r == Some(
            ((target_position.0 + w.offset.0) as i32, (target_position.1 + w.offset.1) as i32),
        ),
        target_position == w.last_target_position ==> r is None,
{
    if !same_position(target_position, w.last_target_position) {
        let desired = (target_position.0 + w.offset.0, target_position.1 + w.offset.1);
        if !same_position(own_position, desired) {
            return Some(desired);
        }
    }
    None
}

/// The placement after one tracking step.
/// - The window moved: the overlay follows it with the same offset, or, when
///   the overlay could not be moved, nothing changes.
/// - Only the overlay moved (the user dragged it): the new offset is taken.
/// - Nothing moved: nothing changes.
pub open spec fn tracked_placement_spec(
    w: &AttachedWindow,
    target_position: (i32, i32),
    own_position: (i32, i32),
    move_succeeded: bool,
) -> TrackedPlacement {
    if target_position != w.last_target_position {
        let desired = (
            (target_position.0 + w.offset.0) as i32,
            (target_position.1 + w.offset.1) as i32,
        );
        if own_position == desired || move_succeeded {
            TrackedPlacement { offset: w.offset, target_position, overlay_position: desired }
        } else {
            TrackedPlacement {
                offset: w.offset,
                target_position: w.last_target_position,
                overlay_position: w.last_overlay_position,
            }
        }
    } else if own_position != w.last_overlay_position {
        TrackedPlacement {
            offset: (
                (own_position.0 - target_position.0) as i32,
                (own_position.1 - target_position.1) as i32,
            ),
            target_position,
            overlay_position: own_position,
        }
    } else {
        TrackedPlacement { offset: w.offset, target_position, overlay_position: own_position }
    }
}

/// One tracking step, given the window's and the overlay's current positions
/// and, where `overlay_move_target` asked for a move, whether it succeeded.
pub fn update_tracked_position(
    w: &AttachedWindow,
    target_position: (i32, i32),
    own_position: (i32, i32),
    move_succeeded: bool,
) -> (r: TrackedPlacement)
    requires
        tracking_step_fits(w, target_position, own_position),
    ensures
        r == tracked_placement_spec(w, target_position, own_position, move_succeeded),
        w.keeps_offset() ==> r.keeps_offset(),
{
    if !same_position(target_position, w.last_target_position) {
        let desired = (target_position.0 + w.offset.0, target_position.1 + w.offset.1);
        if same_position(own_position, desired) || move_succeeded {
            TrackedPlacement { offset: w.offset, target_position, overlay_position: desired }
        } else {
            TrackedPlacement {
                offset: w.offset,
                target_position: w.last_target_position,
                overlay_position: w.last_overlay_position,
            }
        }
    } else if !same_position(own_position, w.last_overlay_position) {
        TrackedPlacement {
            offset: (own_position.0 - target_position.0, own_position.1 - target_position.1),
            target_position,
            overlay_position: own_position,
        }
    } else {
        TrackedPlacement { offset: w.offset, target_position, overlay_position: own_position }
    }
}

/// The settings written to disk.
pub open spec fn persisted_form(s: &WindowTrackingSettings) -> PersistedWindowTracking {
    PersistedWindowTracking {
        preferred_process: s.preferred_process,
        offset: s.remembered_offset,
        exclude_from_capture: s.exclude_from_capture,
    }
}

/// The settings after `configure`: a remembered process name is taken only
/// when it is valid; the remembered offset and the capture setting are taken as
/// they are.
pub open spec fn configured(
    s: WindowTrackingSettings,
    persisted: Option<PersistedWindowTracking>,
    persistence_path: Option<PathBuf>,
    background_mode: bool,
) -> WindowTrackingSettings {
    match persisted {
        Some(p) => WindowTrackingSettings {
            preferred_process: if is_valid_process_name_spec(p.preferred_process@) {
                p.preferred_process
            } else {
                s.preferred_process
            },
            remembered_offset: p.offset,
            exclude_from_capture: p.exclude_from_capture,
            persistence_path,
            background_mode,
            ..s
        },
        None => WindowTrackingSettings { persistence_path, background_mode, ..s },
    }
}

/// The settings after the overlay attached to `candidate`, whose window and the
/// overlay have the given rectangles.
pub open spec fn attached(
    s: WindowTrackingSettings,
    candidate: WindowCandidate,
    target_rect: NativeRect,
    own_rect: NativeRect,
) -> WindowTrackingSettings {
    WindowTrackingSettings {
        preferred_process: candidate.process_name,
        target: Some(
            AttachedWindow {
                handle: candidate.handle,
                process_id: candidate.process_id,
                process_name: candidate.process_name,
                offset: (
                    (own_rect.left - target_rect.left) as i32,
                    (own_rect.top - target_rect.top) as i32,
                ),
                last_target_position: (target_rect.left, target_rect.top),
                last_overlay_position: (own_rect.left, own_rect.top),
            },
        ),
        actual_topmost: None,
        ..s
    }
}

/// `attached` when both rectangles are known; otherwise nothing changes.
pub open spec fn attached_if_known(
    s: WindowTrackingSettings,
    candidate: WindowCandidate,
    target_rect: Option<NativeRect>,
    own_rect: Option<NativeRect>,
) -> WindowTrackingSettings {
    match (target_rect, own_rect) {
        (Some(t), Some(o)) => attached(s, candidate, t, o),
        _ => s,
    }
}

/// The settings after checking the followed window `handle`: when it no longer
/// exists or belongs to another process, and it is still the one followed,
/// nothing is followed any more.
pub open spec fn validated(
    s: WindowTrackingSettings,
    handle: isize,
    expected_process_id: u32,
    window_exists: bool,
    current_process_id: Option<u32>,
) -> WindowTrackingSettings {
    let still_valid = window_exists && current_process_id == Some(expected_process_id);
    let same = match s.target {
        Some(t) => t.handle == handle,
        None => false,
    };
    if !still_valid && same {
        WindowTrackingSettings { target: None, actual_topmost: None, ..s }
    } else {
        s
    }
}

/// Whether the followed window has the focus: it exists, is not minimized and
/// its process owns the foreground window.
pub open spec fn target_is_focused_spec(
    s: &WindowTrackingSettings,
    target_minimized: bool,
    foreground_process_id: Option<u32>,
) -> bool {
    s.target matches Some(t) && !target_minimized && foreground_process_id == Some(t.process_id)
}

/// The topmost state to apply now, or nothing when the last applied state is
/// already the right one.
pub open spec fn topmost_change_spec(
    s: &WindowTrackingSettings,
    target_minimized: bool,
    foreground_process_id: Option<u32>,
) -> Option<bool> {
    let should = effective_topmost_spec(
        s.always_on_top,
        s.hide_when_unfocused,
        target_is_focused_spec(s, target_minimized, foreground_process_id),
    );
    if s.actual_topmost == Some(should) {
        None
    } else {
        Some(should)
    }
}

/// The settings after "always on top" was turned over; the applied topmost
/// state is forgotten so that it is applied anew.
pub open spec fn toggled_always_on_top(s: WindowTrackingSettings) -> WindowTrackingSettings {
    WindowTrackingSettings { always_on_top: !s.always_on_top, actual_topmost: None, ..s }
}

/// The settings after "hide when the game is not in focus" was turned over.
pub open spec fn toggled_hide_when_unfocused(s: WindowTrackingSettings) -> WindowTrackingSettings {
    WindowTrackingSettings { hide_when_unfocused: !s.hide_when_unfocused, actual_topmost: None, ..s }
}

/// The settings after a selection was requested: a prompt opens only when no
/// selection is under way.
pub open spec fn selection_requested(s: WindowTrackingSettings) -> WindowTrackingSettings {
    if s.selection == SelectionState::Idle {
        WindowTrackingSettings { selection: SelectionState::PromptOpen, ..s }
    } else {
        s
    }
}

/// The settings after the topmost state `topmost` was applied to the overlay.
pub open spec fn with_topmost_applied(s: WindowTrackingSettings, topmost: bool) -> WindowTrackingSettings {
    WindowTrackingSettings { actual_topmost: Some(topmost), ..s }
}

impl WindowTrackingSettings {
    /// The settings hold a followed window only where the overlay sits at its
    /// recorded offset from it.
    pub open spec fn wf(&self) -> bool {
        self.target matches Some(t) ==> t.keeps_offset()
    }

    /// The settings at start: always on top, hidden while the game is
    /// unfocused, capture allowed, looking for `DEFAULT_TARGET_PROCESS`.
    pub fn new() -> (s: Self)
        ensures
            s.always_on_top,
            s.hide_when_unfocused,
            !s.exclude_from_capture,
            s.preferred_process@ == DEFAULT_TARGET_PROCESS@,
            s.target is None,
            s.selection == SelectionState::Idle,
            s.actual_topmost is None,
            s.remembered_offset is None,
            s.persistence_path is None,
            !s.background_mode,
            s.wf(),
    {
        WindowTrackingSettings {
            always_on_top: true,
            hide_when_unfocused: true,
            exclude_from_capture: false,
            preferred_process: String::from_str(DEFAULT_TARGET_PROCESS),
            target: None,
            selection: SelectionState::Idle,
            actual_topmost: None,
            remembered_offset: None,
            persistence_path: None,
            background_mode: false,
        }
    }

    /// Takes over what was remembered from an earlier run, and where to
    /// remember it, and whether the overlay started in the background.
    pub fn configure(
        &mut self,
        persisted: Option<PersistedWindowTracking>,
        persistence_path: Option<PathBuf>,
        background_mode: bool,
    )
        ensures
            *final(self) == configured(*old(self), persisted, persistence_path, background_mode),
            final(self).persistence_path == persistence_path,
            final(self).background_mode == background_mode,
            old(self).wf() ==> final(self).wf(),
    {
        if let Some(persisted) = persisted {
            if is_valid_process_name(persisted.preferred_process.as_str()) {
                self.preferred_process = persisted.preferred_process;
            }
            self.remembered_offset = persisted.offset;
            self.exclude_from_capture = persisted.exclude_from_capture;
        }
        self.persistence_path = persistence_path;
        self.background_mode = background_mode;
    }

    /// The settings to remember.
    pub fn persisted(&self) -> (p: PersistedWindowTracking)
        ensures
            p == persisted_form(self),
    {
        PersistedWindowTracking {
            preferred_process: self.preferred_process.clone(),
            offset: self.remembered_offset,
            exclude_from_capture: self.exclude_from_capture,
        }
    }

    /// Turns "always on top" over and forgets the applied topmost state, so the
    /// next tracking step applies it anew. Returns the new setting.
    pub fn toggle_always_on_top(&mut self) -> (on: bool)
        ensures
            *final(self) == toggled_always_on_top(*old(self)),
            on == final(self).always_on_top,
            old(self).wf() ==> final(self).wf(),
    {
        self.always_on_top = !self.always_on_top;
        self.actual_topmost = None;
        self.always_on_top
    }

    /// Turns "hide when the game is not in focus" over and forgets the applied
    /// topmost state.
    pub fn toggle_hide_when_unfocused(&mut self)
        ensures
            *final(self) == toggled_hide_when_unfocused(*old(self)),
            old(self).wf() ==> final(self).wf(),
    {
        self.hide_when_unfocused = !self.hide_when_unfocused;
        self.actual_topmost = None;
    }

    /// Records the capture-exclusion state that was applied to the overlay.
    pub fn set_exclude_from_capture(&mut self, exclude: bool)
        ensures
            *final(self) == (WindowTrackingSettings { exclude_from_capture: exclude, ..*old(self) }),
            old(self).wf() ==> final(self).wf(),
    {
        self.exclude_from_capture = exclude;
    }

    /// The capture-exclusion state that turning the setting over asks for.
    pub fn requested_capture_exclusion(&self) -> (r: bool)
        ensures
            r == !self.exclude_from_capture,
    {
        !self.exclude_from_capture
    }

    /// The capture-exclusion state `requested` was applied to the overlay, or
    /// the native call failed (`applied` is false). Only an applied state is
    /// recorded; the result says whether there is a new state to remember
    /// (otherwise the failure is reported).
    pub fn capture_exclusion_toggled(&mut self, requested: bool, applied: bool) -> (remember: bool)
        ensures
            remember == applied,
            *final(self) == (if applied {
                WindowTrackingSettings { exclude_from_capture: requested, ..*old(self) }
            } else {
                *old(self)
            }),
            old(self).wf() ==> final(self).wf(),
    {
        if applied {
            self.exclude_from_capture = requested;
        }
        applied
    }

    /// Whether the capture exclusion remembered from an earlier run has to be
    /// applied to the new window: only when it is on and supported.
    pub fn capture_exclusion_to_restore(&self, supported: bool) -> (r: bool)
        ensures
            r == (self.exclude_from_capture && supported),
    {
        self.exclude_from_capture && supported
    }

    /// Records whether the overlay is running in the background (started by
    /// Windows without showing its window).
    pub fn set_background_mode(&mut self, background_mode: bool)
        ensures
            *final(self) == (WindowTrackingSettings { background_mode, ..*old(self) }),
            old(self).wf() ==> final(self).wf(),
    {
        self.background_mode = background_mode;
    }

    /// Starts an attach-by-click selection unless one is already under way.
    /// Returns whether the prompt is to be shown.
    pub fn request_selection(&mut self) -> (open_prompt: bool)
        ensures
            open_prompt == (old(self).selection == SelectionState::Idle),
            *final(self) == selection_requested(*old(self)),
            old(self).wf() ==> final(self).wf(),
    {
        if self.selection != SelectionState::Idle {
            return false;
        }
        self.selection = SelectionState::PromptOpen;
        true
    }

    /// The selection prompt was closed; when it was accepted, the next window
    /// brought to the foreground is followed.
    pub fn selection_prompt_closed(&mut self, accepted: bool)
        ensures
            *final(self) == (WindowTrackingSettings {
                selection: if accepted {
                    SelectionState::Armed
                } else {
                    SelectionState::Idle
                },
                ..*old(self)
            }),
            old(self).wf() ==> final(self).wf(),
    {
        self.selection = if accepted {
            SelectionState::Armed
        } else {
            SelectionState::Idle
        };
    }

    /// Follows `candidate`, remembering its name as the preferred process and
    /// the overlay's offset from its window. Nothing changes when either
    /// rectangle is unknown.
    pub fn attach(
        &mut self,
        candidate: WindowCandidate,
        target_rect: Option<NativeRect>,
        own_rect: Option<NativeRect>,
    )
        requires
            attach_fits(target_rect, own_rect),
        ensures
            *final(self) == attached_if_known(*old(self), candidate, target_rect, own_rect),
            target_rect is None || own_rect is None ==> *final(self) == *old(self),
            (target_rect is Some && own_rect is Some) ==> {
                &&& final(self).target is Some
                &&& final(self).target.unwrap().handle == candidate.handle
                &&& final(self).target.unwrap().process_id == candidate.process_id
                &&& final(self).target.unwrap().process_name == candidate.process_name
                &&& final(self).preferred_process == candidate.process_name
                &&& final(self).target.unwrap().offset.0 == own_rect.unwrap().left - target_rect.unwrap().left
                &&& final(self).target.unwrap().offset.1 == own_rect.unwrap().top - target_rect.unwrap().top
                &&& final(self).target.unwrap().last_target_position == (target_rect.unwrap().left, target_rect.unwrap().top)
                &&& final(self).target.unwrap().last_overlay_position == (own_rect.unwrap().left, own_rect.unwrap().top)
                &&& final(self).actual_topmost is None
            },
            old(self).wf() ==> final(self).wf(),
    {
        let (target_rect, own_rect) = match (target_rect, own_rect) {
            (Some(t), Some(o)) => (t, o),
            _ => return ,
        };
        let offset = (own_rect.left - target_rect.left, own_rect.top - target_rect.top);
        self.preferred_process = candidate.process_name.clone();
        self.target = Some(
            AttachedWindow {
                handle: candidate.handle,
                process_id: candidate.process_id,
                process_name: candidate.process_name,
                offset,
                last_target_position: (target_rect.left, target_rect.top),
                last_overlay_position: (own_rect.left, own_rect.top),
            },
        );
        self.actual_topmost = None;
    }

    /// The foreground window `candidate` was picked while a selection was
    /// armed: it is followed and the selection ends. Without an armed
    /// selection nothing changes.
    pub fn select_foreground_window(
        &mut self,
        candidate: WindowCandidate,
        target_rect: Option<NativeRect>,
        own_rect: Option<NativeRect>,
    )
        requires
            attach_fits(target_rect, own_rect),
        ensures
            *final(self) == (if old(self).selection == SelectionState::Armed {
                WindowTrackingSettings {
                    selection: SelectionState::Idle,
                    ..attached_if_known(*old(self), candidate, target_rect, own_rect)
                }
            } else {
                *old(self)
            }),
            old(self).wf() ==> final(self).wf(),
    {
        if self.selection == SelectionState::Armed {
            self.attach(candidate, target_rect, own_rect);
            self.selection = SelectionState::Idle;
        }
    }

    /// A window found by searching for `searched_for` is followed when nothing
    /// is followed yet and the preferred process has not changed meanwhile.
    pub fn adopt_preferred_window(
        &mut self,
        searched_for: &str,
        candidate: WindowCandidate,
        target_rect: Option<NativeRect>,
        own_rect: Option<NativeRect>,
    )
        requires
            attach_fits(target_rect, own_rect),
        ensures
            *final(self) == (if old(self).target is None && eq_ignore_ascii_case_spec(
                old(self).preferred_process@,
                searched_for@,
            ) {
                attached_if_known(*old(self), candidate, target_rect, own_rect)
            } else {
                *old(self)
            }),
            old(self).wf() ==> final(self).wf(),
    {
        if self.target.is_none() && eq_ignore_ascii_case(self.preferred_process.as_str(), searched_for) {
            self.attach(candidate, target_rect, own_rect);
        }
    }

    /// Whether the next window brought to the foreground is to be followed.
    pub fn selection_armed(&self) -> (r: bool)
        ensures
            r == (self.selection == SelectionState::Armed),
    {
        self.selection == SelectionState::Armed
    }

    /// The followed window's handle and process id.
    pub fn target_identity(&self) -> (r: Option<(isize, u32)>)
        ensures
            r == (match self.target {
                Some(t) => Some((t.handle, t.process_id)),
                None => None::<(isize, u32)>,
            }),
    {
        match &self.target {
            Some(t) => Some((t.handle, t.process_id)),
            None => None,
        }
    }

    /// Stops following the window `handle` when it no longer exists or now
    /// belongs to another process than `expected_process_id`. A window
    /// attached meanwhile (another handle) is kept.
    pub fn validate_target(
        &mut self,
        handle: isize,
        expected_process_id: u32,
        window_exists: bool,
        current_process_id: Option<u32>,
    )
        ensures
            *final(self) == validated(
                *old(self),
                handle,
                expected_process_id,
                window_exists,
                current_process_id,
            ),
            old(self).wf() ==> final(self).wf(),
    {
        let still_valid = window_exists && match current_process_id {
            Some(id) => id == expected_process_id,
            None => false,
        };
        if still_valid {
            return ;
        }
        let same = match &self.target {
            Some(t) => t.handle == handle,
            None => false,
        };
        if same {
            self.target = None;
            self.actual_topmost = None;
        }
    }

    /// Records a tracking step's placement for the window `handle` of process
    /// `process_id`, if that window is still the one followed.
    pub fn store_tracked_position(&mut self, handle: isize, process_id: u32, placement: TrackedPlacement)
        ensures
            *final(self) == (match old(self).target {
                Some(t) => if t.handle == handle && t.process_id == process_id {
                    WindowTrackingSettings {
                        target: Some(
                            AttachedWindow {
                                offset: placement.offset,
                                last_target_position: placement.target_position,
                                last_overlay_position: placement.overlay_position,
                                ..t
                            },
                        ),
                        ..*old(self)
                    }
                } else {
                    *old(self)
                },
                None => *old(self),
            }),
            old(self).wf() && placement.keeps_offset() ==> final(self).wf(),
    {
        let matches = match &self.target {
            Some(t) => t.handle == handle && t.process_id == process_id,
            None => false,
        };
        if matches {
            let t = self.target.take().unwrap();
            self.target = Some(
                AttachedWindow {
                    offset: placement.offset,
                    last_target_position: placement.target_position,
                    last_overlay_position: placement.overlay_position,
                    ..t
                },
            );
        }
    }

    /// The topmost state the overlay should be switched to now, if any.
    pub fn update_topmost(&self, target_minimized: bool, foreground_process_id: Option<u32>) -> (r:
        Option<bool>)
        ensures
            r == topmost_change_spec(self, target_minimized, foreground_process_id),
    {
        let target_is_focused = match &self.target {
            Some(t) => !target_minimized && match foreground_process_id {
                Some(id) => id == t.process_id,
                None => false,
            },
            None => false,
        };
        let should_be_topmost = effective_topmost(
            self.always_on_top,
            self.hide_when_unfocused,
            target_is_focused,
        );
        match self.actual_topmost {
            Some(actual) => if actual == should_be_topmost {
                None
            } else {
                Some(should_be_topmost)
            },
            None => Some(should_be_topmost),
        }
    }

    /// Records the topmost state that was applied to the overlay.
    pub fn topmost_applied(&mut self, topmost: bool)
        ensures
            *final(self) == with_topmost_applied(*old(self), topmost),
            old(self).wf() ==> final(self).wf(),
    {
        self.actual_topmost = Some(topmost);
    }
}

impl Default for WindowTrackingSettings {
    fn default() -> (s: Self)
        ensures
            s.always_on_top,
            s.hide_when_unfocused,
            !s.exclude_from_capture,
            s.preferred_process@ == DEFAULT_TARGET_PROCESS@,
            s.target is None,
            s.selection == SelectionState::Idle,
            s.actual_topmost is None,
            s.remembered_offset is None,
            s.persistence_path is None,
            !s.background_mode,
    {
        WindowTrackingSettings::new()
    }
}

/// Settings files larger than `MAX_TRACKING_SETTINGS_BYTES` are not read.
pub fn tracking_settings_size_ok(len: u64) -> (r: bool)
    ensures
        r == (len <= MAX_TRACKING_SETTINGS_BYTES),
{
    len <= MAX_TRACKING_SETTINGS_BYTES
}

/// The line of the menu that says what the tracker is doing.
pub open spec fn tracking_status_label_spec(s: &WindowTrackingSettings) -> Seq<char> {
    match s.selection {
        SelectionState::PromptOpen => "Choose a window in the open prompt"@,
        SelectionState::Armed => "Click a window to attach"@,
        SelectionState::Idle => match s.target {
            Some(t) => "Attached to: "@ + t.process_name@,
            None => "Looking for: "@ + s.preferred_process@,
        },
    }
}

pub fn tracking_status_label(settings: &WindowTrackingSettings) -> (r: String)
    ensures
        r@ == tracking_status_label_spec(settings),
        settings.selection == SelectionState::PromptOpen ==> r@
            == "Choose a window in the open prompt"@,
        settings.selection == SelectionState::Armed ==> r@ == "Click a window to attach"@,
{
    match settings.selection {
        SelectionState::PromptOpen => String::from_str("Choose a window in the open prompt"),
        SelectionState::Armed => String::from_str("Click a window to attach"),
        SelectionState::Idle => match &settings.target {
            Some(t) => concat_text("Attached to: ", t.process_name.as_str()),
            None => concat_text("Looking for: ", settings.preferred_process.as_str()),
        },
    }
}

/// Settings written to disk and read back at the next start restore the
/// preferred process (when it is a valid name), the remembered offset and the
/// capture-exclusion setting.
pub proof fn persisted_settings_are_restored(
    saved: WindowTrackingSettings,
    fresh: WindowTrackingSettings,
    persistence_path: Option<PathBuf>,
    background_mode: bool,
)
    requires
        is_valid_process_name_spec(saved.preferred_process@),
    ensures
        ({
            let restored = configured(
                fresh,
                Some(persisted_form(&saved)),
                persistence_path,
                background_mode,
            );
            &&& restored.preferred_process == saved.preferred_process
            &&& restored.remembered_offset == saved.remembered_offset
            &&& restored.exclude_from_capture == saved.exclude_from_capture
        }),
{
}

/// A remembered process name that is not valid is never taken over: after
/// `configure` the preferred process is the earlier one or a valid name.
pub proof fn configured_process_name_is_valid_or_kept(
    s: WindowTrackingSettings,
    persisted: Option<PersistedWindowTracking>,
    persistence_path: Option<PathBuf>,
    background_mode: bool,
)
    ensures
        ({
            let c = configured(s, persisted, persistence_path, background_mode);
            c.preferred_process == s.preferred_process || is_valid_process_name_spec(
                c.preferred_process@,
            )
        }),
{
}

/// Turning "always on top" over twice restores it; the applied topmost state
/// is forgotten either way.
pub proof fn always_on_top_toggle_is_undone(s: WindowTrackingSettings)
    ensures
        toggled_always_on_top(toggled_always_on_top(s)) == (WindowTrackingSettings {
            actual_topmost: None,
            ..s
        }),
{
}

/// Turning "hide when the game is not in focus" over twice restores it.
pub proof fn hide_when_unfocused_toggle_is_undone(s: WindowTrackingSettings)
    ensures
        toggled_hide_when_unfocused(toggled_hide_when_unfocused(s)) == (WindowTrackingSettings {
            actual_topmost: None,
            ..s
        }),
{
}

/// Once the topmost state that `update_topmost` asked for is applied, the
/// next step with the same observations asks for nothing.
pub proof fn applied_topmost_is_settled(
    s: WindowTrackingSettings,
    target_minimized: bool,
    foreground_process_id: Option<u32>,
)
    ensures
        topmost_change_spec(&s, target_minimized, foreground_process_id) matches Some(v)
            ==> topmost_change_spec(
            &with_topmost_applied(s, v),
            target_minimized,
            foreground_process_id,
        ) is None,
{
}

/// The overlay is never topmost while "always on top" is off, and while it
/// should hide with the game unfocused it is topmost only when the followed
/// window has the focus.
pub proof fn topmost_only_when_wanted(
    s: WindowTrackingSettings,
    target_minimized: bool,
    foreground_process_id: Option<u32>,
)
    ensures
        topmost_change_spec(&s, target_minimized, foreground_process_id) == Some(true) ==> {
            &&& s.always_on_top
            &&& s.hide_when_unfocused ==> target_is_focused_spec(
                &s,
                target_minimized,
                foreground_process_id,
            )
        },
{
}

/// At most one selection prompt is open: a second request right after a
/// first one opens nothing.
pub proof fn selection_prompt_opens_once(s: WindowTrackingSettings)
    ensures
        selection_requested(s).selection != SelectionState::Idle,
        selection_requested(selection_requested(s)) == selection_requested(s),
{
}

/// When the followed window moved and the overlay could be moved (or already
/// was in place), the overlay sits at the window's new position plus the
/// unchanged offset.
pub proof fn overlay_follows_window(
    w: AttachedWindow,
    target_position: (i32, i32),
    own_position: (i32, i32),
)
    requires
        target_position != w.last_target_position,
        tracking_step_fits(&w, target_position, own_position),
    ensures
        ({
            let p = tracked_placement_spec(&w, target_position, own_position, true);
            &&& p.offset == w.offset
            &&& p.target_position == target_position
            &&& p.overlay_position.0 == target_position.0 + w.offset.0
            &&& p.overlay_position.1 == target_position.1 + w.offset.1
        }),
{
}

/// When only the overlay moved (the user dragged it), the new offset is the
/// overlay's position relative to the window, and the overlay is not moved.
pub proof fn dragging_the_overlay_sets_the_offset(
    w: AttachedWindow,
    own_position: (i32, i32),
    move_succeeded: bool,
)
    requires
        w.keeps_offset(),
        tracking_step_fits(&w, w.last_target_position, own_position),
    ensures
        overlay_move_target_spec(&w, w.last_target_position, own_position) is None,
        ({
            let p = tracked_placement_spec(&w, w.last_target_position, own_position, move_succeeded);
            &&& p.overlay_position == own_position
            &&& p.offset.0 == own_position.0 - w.last_target_position.0
            &&& p.offset.1 == own_position.1 - w.last_target_position.1
        }),
{
}

/// A tracking step in which nothing moved changes nothing and moves nothing.
pub proof fn tracking_step_at_rest(w: AttachedWindow, move_succeeded: bool)
    requires
        w.keeps_offset(),
    ensures
        overlay_move_target_spec(&w, w.last_target_position, w.last_overlay_position) is None,
        tracked_placement_spec(&w, w.last_target_position, w.last_overlay_position, move_succeeded)
            == (TrackedPlacement {
            offset: w.offset,
            target_position: w.last_target_position,
            overlay_position: w.last_overlay_position,
        }),
{
}

/// Checking a window that is not the followed one never drops the followed one.
pub proof fn validation_keeps_other_windows(
    s: WindowTrackingSettings,
    handle: isize,
    expected_process_id: u32,
    window_exists: bool,
    current_process_id: Option<u32>,
)
    requires
        !(s.target matches Some(t) && t.handle == handle),
    ensures
        validated(s, handle, expected_process_id, window_exists, current_process_id) == s,
{
}

/// The tracking step moves the overlay exactly when the followed window moved
/// (in either coordinate) and the overlay is not already at the window's new
/// position plus the offset; it then moves it there.
pub proof fn window_moves_are_followed(
    w: AttachedWindow,
    target_position: (i32, i32),
    own_position: (i32, i32),
)
    requires
        sum_fits(target_position.0, w.offset.0),
        sum_fits(target_position.1, w.offset.1),
    ensures
        ({
            let desired = (
                (target_position.0 + w.offset.0) as i32,
                (target_position.1 + w.offset.1) as i32,
            );
            &&& desired.0 == target_position.0 + w.offset.0
            &&& desired.1 == target_position.1 + w.offset.1
            &&& (target_position.0 != w.last_target_position.0 || target_position.1
                != w.last_target_position.1) && own_position != desired ==> overlay_move_target_spec(
                &w,
                target_position,
                own_position,
            ) == Some(desired)
            &&& target_position == w.last_target_position ==> overlay_move_target_spec(
                &w,
                target_position,
                own_position,
            ) is None
            &&& own_position == desired ==> overlay_move_target_spec(
                &w,
                target_position,
                own_position,
            ) is None
        }),
{
}

/// The topmost decision: never topmost without "always on top"; with
/// "hide when unfocused" off it is exactly "always on top", whatever the
/// focus; with it on, topmost exactly while the followed window has the focus.
pub proof fn topmost_decision_table(always_on_top: bool, hide_when_unfocused: bool, target_is_focused: bool)
    ensures
        !always_on_top ==> !effective_topmost_spec(always_on_top, hide_when_unfocused, target_is_focused),
        !hide_when_unfocused ==> effective_topmost_spec(always_on_top, false, target_is_focused)
            == always_on_top,
        effective_topmost_spec(true, hide_when_unfocused, true),
        !effective_topmost_spec(always_on_top, true, false),
        effective_topmost_spec(true, true, target_is_focused) == target_is_focused,
{
}

/// The status line reports a selection under way before anything else,
/// whatever is attached; otherwise the followed process, or the one looked for.
pub proof fn status_label_reports_selection_first(s: WindowTrackingSettings)
    ensures
        s.selection == SelectionState::PromptOpen ==> tracking_status_label_spec(&s)
            == "Choose a window in the open prompt"@,
        s.selection == SelectionState::Armed ==> tracking_status_label_spec(&s)
            == "Click a window to attach"@,
        s.selection == SelectionState::Idle && s.target is Some ==> tracking_status_label_spec(&s)
            == "Attached to: "@ + s.target.unwrap().process_name@,
        s.selection == SelectionState::Idle && s.target is None ==> tracking_status_label_spec(&s)
            == "Looking for: "@ + s.preferred_process@,
{
}

/// `configure` always remembers where to save and whether the run is in the
/// background, whether or not settings were read; without settings read,
/// nothing else changes; with settings read, the offset and the capture
/// setting are taken from them.
pub proof fn configure_remembers_where_to_save(
    s: WindowTrackingSettings,
    persisted: Option<PersistedWindowTracking>,
    persistence_path: Option<PathBuf>,
    background_mode: bool,
)
    ensures
        ({
            let c = configured(s, persisted, persistence_path, background_mode);
            &&& c.persistence_path == persistence_path
            &&& c.background_mode == background_mode
            &&& c.always_on_top == s.always_on_top
            &&& c.hide_when_unfocused == s.hide_when_unfocused
            &&& c.target == s.target
            &&& c.selection == s.selection
            &&& c.actual_topmost == s.actual_topmost
            &&& persisted is None ==> {
                &&& c.preferred_process == s.preferred_process
                &&& c.remembered_offset == s.remembered_offset
                &&& c.exclude_from_capture == s.exclude_from_capture
            }
            &&& persisted matches Some(p) ==> {
                &&& c.remembered_offset == p.offset
                &&& c.exclude_from_capture == p.exclude_from_capture
                &&& c.preferred_process == (if is_valid_process_name_spec(p.preferred_process@) {
                    p.preferred_process
                } else {
                    s.preferred_process
                })
            }
        }),
{
}

/// Attaching follows the candidate's window and process, takes its name as
/// the preferred process, records both windows' top-left corners and the
/// overlay's offset from the window, and forgets the applied topmost state;
/// nothing else changes.
pub proof fn attaching_records_the_window(
    s: WindowTrackingSettings,
    candidate: WindowCandidate,
    target_rect: NativeRect,
    own_rect: NativeRect,
)
    requires
        difference_fits(own_rect.left, target_rect.left),
        difference_fits(own_rect.top, target_rect.top),
    ensures
        ({
            let a = attached(s, candidate, target_rect, own_rect);
            &&& a.target is Some
            &&& a.target.unwrap().handle == candidate.handle
            &&& a.target.unwrap().process_id == candidate.process_id
            &&& a.target.unwrap().process_name == candidate.process_name
            &&& a.preferred_process == candidate.process_name
            &&& a.target.unwrap().offset.0 == own_rect.left - target_rect.left
            &&& a.target.unwrap().offset.1 == own_rect.top - target_rect.top
            &&& a.target.unwrap().last_target_position == (target_rect.left, target_rect.top)
            &&& a.target.unwrap().last_overlay_position == (own_rect.left, own_rect.top)
            &&& a.target.unwrap().keeps_offset()
            &&& a.actual_topmost is None
            &&& a.always_on_top == s.always_on_top
            &&& a.hide_when_unfocused == s.hide_when_unfocused
            &&& a.exclude_from_capture == s.exclude_from_capture
            &&& a.selection == s.selection
            &&& a.remembered_offset == s.remembered_offset
            &&& a.persistence_path == s.persistence_path
            &&& a.background_mode == s.background_mode
        }),
{
}

/// The followed window `handle` is dropped exactly when it no longer exists
/// or now belongs to another process; dropping it also forgets the applied
/// topmost state.
pub proof fn vanished_window_is_dropped(
    s: WindowTrackingSettings,
    handle: isize,
    expected_process_id: u32,
    window_exists: bool,
    current_process_id: Option<u32>,
)
    requires
        s.target matches Some(t) && t.handle == handle,
    ensures
        !window_exists ==> validated(s, handle, expected_process_id, window_exists, current_process_id).target is None,
        current_process_id != Some(expected_process_id) ==> validated(
            s,
            handle,
            expected_process_id,
            window_exists,
            current_process_id,
        ).target is None && validated(
            s,
            handle,
            expected_process_id,
            window_exists,
            current_process_id,
        ).actual_topmost is None,
        window_exists && current_process_id == Some(expected_process_id) ==> validated(
            s,
            handle,
            expected_process_id,
            window_exists,
            current_process_id,
        ) == s,
{
}

/// When the overlay could not be moved after the window, nothing is
/// recorded: the next step tries again.
pub proof fn failed_move_keeps_the_placement(
    w: AttachedWindow,
    target_position: (i32, i32),
    own_position: (i32, i32),
)
    requires
        overlay_move_target_spec(&w, target_position, own_position) is Some,
    ensures
        tracked_placement_spec(&w, target_position, own_position, false) == (TrackedPlacement {
            offset: w.offset,
            target_position: w.last_target_position,
            overlay_position: w.last_overlay_position,
        }),
{
}

/// The followed window has the focus exactly when there is one, it is not
/// minimized, and its process owns the foreground window.
pub proof fn focus_means_foreground_process(
    s: WindowTrackingSettings,
    target_minimized: bool,
    foreground_process_id: Option<u32>,
)
    ensures
        s.target is None ==> !target_is_focused_spec(&s, target_minimized, foreground_process_id),
        target_minimized ==> !target_is_focused_spec(&s, target_minimized, foreground_process_id),
        s.target matches Some(t) ==> target_is_focused_spec(&s, false, Some(t.process_id)),
        s.target matches Some(t) && foreground_process_id != Some(t.process_id)
            ==> !target_is_focused_spec(&s, target_minimized, foreground_process_id),
{
}

/// A topmost change is asked for exactly when the applied state is not the
/// one wanted, and then it is the wanted one.
pub proof fn topmost_change_is_the_wanted_state(
    s: WindowTrackingSettings,
    target_minimized: bool,
    foreground_process_id: Option<u32>,
)
    ensures
        ({
            let wanted = effective_topmost_spec(
                s.always_on_top,
                s.hide_when_unfocused,
                target_is_focused_spec(&s, target_minimized, foreground_process_id),
            );
            &&& s.actual_topmost == Some(wanted) ==> topmost_change_spec(
                &s,
                target_minimized,
                foreground_process_id,
            ) is None
            &&& s.actual_topmost != Some(wanted) ==> topmost_change_spec(
                &s,
                target_minimized,
                foreground_process_id,
            ) == Some(wanted)
            &&& s.actual_topmost is None ==> topmost_change_spec(
                &s,
                target_minimized,
                foreground_process_id,
            ) is Some
        }),
{
}

} // verus!

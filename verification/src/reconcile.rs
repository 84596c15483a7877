//! Bringing the live window in line with the state that is asked for.
//!
//! The application describes the window it wants for the next frame. That
//! description is compared, field by field, with what is known of the live
//! window, and every difference becomes one platform call. Position and
//! size are left out: the user and the platform change them all the time,
//! and the platform reports them back instead.

use vstd::prelude::*;
use crate::scalar::FloatBits;
use crate::window_state::{MouseCursor, MouseState, WindowSize, WindowState, WindowStateView};

verus! {

/// One call on the live window.
#[derive(Debug, PartialEq, Eq)]
pub enum WindowAction {
    SetTitle(String),
    SetCursor(MouseCursor),
    SetMaximized(bool),
    /// Cover the monitor the window is on.
    EnterFullscreen,
    LeaveFullscreen,
    SetDecorations(bool),
    Show,
    Hide,
    SetMinDimensions(Option<(u32, u32)>),
    SetMaxDimensions(Option<(u32, u32)>),
}

/// Mathematical content of a [`WindowAction`].
pub enum WindowActionView {
    SetTitle(Seq<char>),
    SetCursor(MouseCursor),
    SetMaximized(bool),
    EnterFullscreen,
    LeaveFullscreen,
    SetDecorations(bool),
    Show,
    Hide,
    SetMinDimensions(Option<(u32, u32)>),
    SetMaxDimensions(Option<(u32, u32)>),
}

impl View for WindowAction {
    type V = WindowActionView;

    open spec fn view(&self) -> WindowActionView {
        match self {
            WindowAction::SetTitle(title) => WindowActionView::SetTitle(title@),
            WindowAction::SetCursor(cursor) => WindowActionView::SetCursor(*cursor),
            WindowAction::SetMaximized(on) => WindowActionView::SetMaximized(*on),
            WindowAction::EnterFullscreen => WindowActionView::EnterFullscreen,
            WindowAction::LeaveFullscreen => WindowActionView::LeaveFullscreen,
            WindowAction::SetDecorations(on) => WindowActionView::SetDecorations(*on),
            WindowAction::Show => WindowActionView::Show,
            WindowAction::Hide => WindowActionView::Hide,
            WindowAction::SetMinDimensions(d) => WindowActionView::SetMinDimensions(*d),
            WindowAction::SetMaxDimensions(d) => WindowActionView::SetMaxDimensions(*d),
        }
    }
}

impl Clone for WindowAction {
    fn clone(&self) -> (r: Self)
        ensures
            r@ == self@,
    {
        match self {
            WindowAction::SetTitle(title) => WindowAction::SetTitle(title.clone()),
            WindowAction::SetCursor(cursor) => WindowAction::SetCursor(*cursor),
            WindowAction::SetMaximized(on) => WindowAction::SetMaximized(*on),
            WindowAction::EnterFullscreen => WindowAction::EnterFullscreen,
            WindowAction::LeaveFullscreen => WindowAction::LeaveFullscreen,
            WindowAction::SetDecorations(on) => WindowAction::SetDecorations(*on),
            WindowAction::Show => WindowAction::Show,
            WindowAction::Hide => WindowAction::Hide,
            WindowAction::SetMinDimensions(d) => WindowAction::SetMinDimensions(*d),
            WindowAction::SetMaxDimensions(d) => WindowAction::SetMaxDimensions(*d),
        }
    }
}

/// The contents of a list of actions, in order.
#[verifier::opaque]
pub open spec fn action_views(actions: Seq<WindowAction>) -> Seq<WindowActionView> {
    Seq::new(actions.len(), |i: int| actions[i]@)
}

/// The list with `action` appended if `changed`, and as it is otherwise.
#[verifier::opaque]
pub open spec fn followed_by(
    actions: Seq<WindowActionView>,
    changed: bool,
    action: WindowActionView,
) -> Seq<WindowActionView> {
    if changed {
        actions.push(action)
    } else {
        actions
    }
}

/// A field of the window state that the application sets and the window
/// follows.
pub enum ReconciledField {
    Title,
    Cursor,
    Maximized,
    Fullscreen,
    Decorations,
    Visibility,
    MinDimensions,
    MaxDimensions,
}

/// How many fields are reconciled.
pub const RECONCILED_FIELDS: usize = 8;

impl ReconciledField {
    /// The field at the given place in the order of reconciliation, from
    /// zero; places past the last stand for the last field.
    pub open spec fn at(place: nat) -> ReconciledField {
        if place == 0 {
            ReconciledField::Title
        } else if place == 1 {
            ReconciledField::Cursor
        } else if place == 2 {
            ReconciledField::Maximized
        } else if place == 3 {
            ReconciledField::Fullscreen
        } else if place == 4 {
            ReconciledField::Decorations
        } else if place == 5 {
            ReconciledField::Visibility
        } else if place == 6 {
            ReconciledField::MinDimensions
        } else {
            ReconciledField::MaxDimensions
        }
    }

    /// Whether the two states differ in this field.
    pub open spec fn differs(self, old: WindowStateView, new: WindowStateView) -> bool {
        match self {
            ReconciledField::Title => old.title != new.title,
            ReconciledField::Cursor => old.mouse_state.mouse_cursor_type
                != new.mouse_state.mouse_cursor_type,
            ReconciledField::Maximized => old.is_maximized != new.is_maximized,
            ReconciledField::Fullscreen => old.is_fullscreen != new.is_fullscreen,
            ReconciledField::Decorations => old.has_decorations != new.has_decorations,
            ReconciledField::Visibility => old.is_visible != new.is_visible,
            ReconciledField::MinDimensions => old.size.min_dimensions != new.size.min_dimensions,
            ReconciledField::MaxDimensions => old.size.max_dimensions != new.size.max_dimensions,
        }
    }

    /// The call that makes the window follow `new` in this field.
    pub open spec fn call(self, new: WindowStateView) -> WindowActionView {
        match self {
            ReconciledField::Title => WindowActionView::SetTitle(new.title),
            ReconciledField::Cursor => WindowActionView::SetCursor(
                new.mouse_state.mouse_cursor_type,
            ),
            ReconciledField::Maximized => WindowActionView::SetMaximized(new.is_maximized),
            ReconciledField::Fullscreen => if new.is_fullscreen {
                WindowActionView::EnterFullscreen
            } else {
                WindowActionView::LeaveFullscreen
            },
            ReconciledField::Decorations => WindowActionView::SetDecorations(new.has_decorations),
            ReconciledField::Visibility => if new.is_visible {
                WindowActionView::Show
            } else {
                WindowActionView::Hide
            },
            ReconciledField::MinDimensions => WindowActionView::SetMinDimensions(
                new.size.min_dimensions,
            ),
            ReconciledField::MaxDimensions => WindowActionView::SetMaxDimensions(
                new.size.max_dimensions,
            ),
        }
    }
}

/// The calls for the first `fields` fields: for each that differs its call,
/// in the order of reconciliation.
pub open spec fn pending_among(old: WindowStateView, new: WindowStateView, fields: nat) -> Seq<
    WindowActionView,
>
    decreases fields,
{
    if fields == 0 {
        Seq::empty()
    } else {
        let field = ReconciledField::at((fields - 1) as nat);
        followed_by(
            pending_among(old, new, (fields - 1) as nat),
            field.differs(old, new),
            field.call(new),
        )
    }
}

/// The calls that bring a window in state `old` to what `new` asks for:
/// one for each of title, pointer shape, maximized, fullscreen, decorations,
/// visibility, lower and upper size bound that differs, in this order.
pub open spec fn pending_actions(old: WindowStateView, new: WindowStateView) -> Seq<
    WindowActionView,
> {
    pending_among(old, new, RECONCILED_FIELDS as nat)
}

/// What is known of the window once the pending calls were made: the
/// reconciled fields are as `new` asks, all others as they were in `old`.
pub open spec fn reconciled(old: WindowStateView, new: WindowStateView) -> WindowStateView {
    WindowStateView {
        title: new.title,
        size: WindowSize {
            min_dimensions: new.size.min_dimensions,
            max_dimensions: new.size.max_dimensions,
            ..old.size
        },
        is_maximized: new.is_maximized,
        is_fullscreen: new.is_fullscreen,
        has_decorations: new.has_decorations,
        is_visible: new.is_visible,
        mouse_state: MouseState {
            mouse_cursor_type: new.mouse_state.mouse_cursor_type,
            ..old.mouse_state
        },
        ..old
    }
}

/// How many of the first `fields` fields differ between the two states.
pub open spec fn changed_among(old: WindowStateView, new: WindowStateView, fields: nat) -> nat
    decreases fields,
{
    if fields == 0 {
        0
    } else if ReconciledField::at((fields - 1) as nat).differs(old, new) {
        changed_among(old, new, (fields - 1) as nat) + 1
    } else {
        changed_among(old, new, (fields - 1) as nat)
    }
}

/// How many of the reconciled fields differ between the two states.
pub open spec fn changed_fields(old: WindowStateView, new: WindowStateView) -> nat {
    changed_among(old, new, RECONCILED_FIELDS as nat)
}

/// What the platform reported during a frame.
#[derive(Clone, Copy, Debug, PartialEq, Eq)]
pub struct FrameEventInfo {
    /// Whether the window has to be drawn anew.
    pub should_redraw_window: bool,
    /// Width and height after a resize, if there was one.
    pub new_window_size: Option<(u32, u32)>,
    /// Scale factor after a change of it, if there was one.
    pub new_dpi_factor: Option<FloatBits>,
}

/// The state after the platform's report was taken in: a reported size
/// replaces width and height, a reported scale factor replaces the old one,
/// and nothing else changes.
pub open spec fn reported(old: WindowStateView, info: FrameEventInfo) -> WindowStateView {
    WindowStateView {
        size: WindowSize {
            width: match info.new_window_size {
                Some((w, _)) => w,
                None => old.size.width,
            },
            height: match info.new_window_size {
                Some((_, h)) => h,
                None => old.size.height,
            },
            hidpi_factor: match info.new_dpi_factor {
                Some(dpi) => dpi,
                None => old.size.hidpi_factor,
            },
            ..old.size
        },
        ..old
    }
}

/// A field that does not differ adds nothing to the calls.
proof fn lemma_unchanged_field(calls: Seq<WindowActionView>, action: WindowActionView)
    ensures
        followed_by(calls, false, action) == calls,
{
    reveal(followed_by);
}

/// Appends the action to the list if `changed`, and leaves the list as it
/// is otherwise.
fn record_if(actions: &mut Vec<WindowAction>, changed: bool, action: WindowAction)
    ensures
        action_views(final(actions)@) == followed_by(
            action_views(old(actions)@),
            changed,
            action@,
        ),
{
    if changed {
        actions.push(action);
    }
    reveal(action_views);
    reveal(followed_by);
    assert(action_views(actions@) =~= followed_by(action_views(old(actions)@), changed, action@));
}

impl WindowState {
    /// Takes over from `new_state` what the application may set, and returns
    /// the platform calls that make the live window follow.
    ///
    /// Only title, pointer shape, maximized, fullscreen, decorations,
    /// visibility and the two size bounds are compared; a field that is the
    /// same in both states causes no call. Position and size are not touched.
    pub fn update_from_user_window_state(&mut self, new_state: WindowState) -> (actions: Vec<
        WindowAction,
    >)
        ensures
            final(self)@ == reconciled(old(self)@, new_state@),
            action_views(actions@) == pending_actions(old(self)@, new_state@),
            actions@.len() == changed_fields(old(self)@, new_state@),
    {
        let ghost before = self@;
        let ghost after = new_state@;
        let mut actions: Vec<WindowAction> = Vec::new();
        assert(action_views(actions@) == Seq::<WindowActionView>::empty()) by {
            reveal(action_views);
        }
        self.sync_title(new_state.title, &mut actions);
        self.sync_cursor(new_state.mouse_state.mouse_cursor_type, &mut actions);
        self.sync_maximized(new_state.is_maximized, &mut actions);
        self.sync_fullscreen(new_state.is_fullscreen, &mut actions);
        self.sync_decorations(new_state.has_decorations, &mut actions);
        self.sync_visibility(new_state.is_visible, &mut actions);
        self.sync_min_dimensions(new_state.size.min_dimensions, &mut actions);
        self.sync_max_dimensions(new_state.size.max_dimensions, &mut actions);
        assert(action_views(actions@) == pending_actions(before, after)) by {
            reveal_with_fuel(pending_among, 9);
        }
        proof {
            assert(action_views(actions@).len() == actions@.len()) by {
                reveal(action_views);
            }
            lemma_one_call_per_changed_field(before, after);
        }
        actions
    }

    fn sync_title(&mut self, title: String, actions: &mut Vec<WindowAction>)
        ensures
            final(self)@ == (WindowStateView { title: title@, ..old(self)@ }),
            action_views(final(actions)@) == followed_by(
                action_views(old(actions)@),
                old(self)@.title != title@,
                WindowActionView::SetTitle(title@),
            ),
    {
        let changed = self.title != title;
        if changed {
            record_if(actions, true, WindowAction::SetTitle(title.clone()));
            self.title = title;
        } else {
            proof {
                lemma_unchanged_field(action_views(actions@), WindowActionView::SetTitle(title@));
            }
        }
    }

    fn sync_cursor(&mut self, cursor: MouseCursor, actions: &mut Vec<WindowAction>)
        ensures
            final(self)@ == (WindowStateView {
                mouse_state: MouseState { mouse_cursor_type: cursor, ..old(self)@.mouse_state },
                ..old(self)@
            }),
            action_views(final(actions)@) == followed_by(
                action_views(old(actions)@),
                old(self)@.mouse_state.mouse_cursor_type != cursor,
                WindowActionView::SetCursor(cursor),
            ),
    {
        record_if(
            actions,
            self.mouse_state.mouse_cursor_type != cursor,
            WindowAction::SetCursor(cursor),
        );
        self.mouse_state.mouse_cursor_type = cursor;
    }

    fn sync_maximized(&mut self, maximized: bool, actions: &mut Vec<WindowAction>)
        ensures
            final(self)@ == (WindowStateView { is_maximized: maximized, ..old(self)@ }),
            action_views(final(actions)@) == followed_by(
                action_views(old(actions)@),
                old(self)@.is_maximized != maximized,
                WindowActionView::SetMaximized(maximized),
            ),
    {
        record_if(actions, self.is_maximized != maximized, WindowAction::SetMaximized(maximized));
        self.is_maximized = maximized;
    }

    fn sync_fullscreen(&mut self, fullscreen: bool, actions: &mut Vec<WindowAction>)
        ensures
            final(self)@ == (WindowStateView { is_fullscreen: fullscreen, ..old(self)@ }),
            action_views(final(actions)@) == followed_by(
                action_views(old(actions)@),
                old(self)@.is_fullscreen != fullscreen,
                if fullscreen {
                    WindowActionView::EnterFullscreen
                } else {
                    WindowActionView::LeaveFullscreen
                },
            ),
    {
        let action = if fullscreen {
            WindowAction::EnterFullscreen
        } else {
            WindowAction::LeaveFullscreen
        };
        record_if(actions, self.is_fullscreen != fullscreen, action);
        self.is_fullscreen = fullscreen;
    }

    fn sync_decorations(&mut self, decorations: bool, actions: &mut Vec<WindowAction>)
        ensures
            final(self)@ == (WindowStateView { has_decorations: decorations, ..old(self)@ }),
            action_views(final(actions)@) == followed_by(
                action_views(old(actions)@),
                old(self)@.has_decorations != decorations,
                WindowActionView::SetDecorations(decorations),
            ),
    {
        record_if(
            actions,
            self.has_decorations != decorations,
            WindowAction::SetDecorations(decorations),
        );
        self.has_decorations = decorations;
    }

    fn sync_visibility(&mut self, visible: bool, actions: &mut Vec<WindowAction>)
        ensures
            final(self)@ == (WindowStateView { is_visible: visible, ..old(self)@ }),
            action_views(final(actions)@) == followed_by(
                action_views(old(actions)@),
                old(self)@.is_visible != visible,
                if visible {
                    WindowActionView::Show
                } else {
                    WindowActionView::Hide
                },
            ),
    {
        let action = if visible {
            WindowAction::Show
        } else {
            WindowAction::Hide
        };
        record_if(actions, self.is_visible != visible, action);
        self.is_visible = visible;
    }

    fn sync_min_dimensions(&mut self, bound: Option<(u32, u32)>, actions: &mut Vec<WindowAction>)
        ensures
            final(self)@ == (WindowStateView {
                size: WindowSize { min_dimensions: bound, ..old(self)@.size },
                ..old(self)@
            }),
            action_views(final(actions)@) == followed_by(
                action_views(old(actions)@),
                old(self)@.size.min_dimensions != bound,
                WindowActionView::SetMinDimensions(bound),
            ),
    {
        record_if(
            actions,
            self.size.min_dimensions != bound,
            WindowAction::SetMinDimensions(bound),
        );
        self.size.min_dimensions = bound;
    }

    fn sync_max_dimensions(&mut self, bound: Option<(u32, u32)>, actions: &mut Vec<WindowAction>)
        ensures
            final(self)@ == (WindowStateView {
                size: WindowSize { max_dimensions: bound, ..old(self)@.size },
                ..old(self)@
            }),
            action_views(final(actions)@) == followed_by(
                action_views(old(actions)@),
                old(self)@.size.max_dimensions != bound,
                WindowActionView::SetMaxDimensions(bound),
            ),
    {
        record_if(
            actions,
            self.size.max_dimensions != bound,
            WindowAction::SetMaxDimensions(bound),
        );
        self.size.max_dimensions = bound;
    }

    /// Takes in what the platform reported during a frame.
    ///
    /// A reported size or scale factor is stored, and the frame is then
    /// marked for redrawing; a mark that is already set stays.
    pub fn update_from_external_window_state(&mut self, frame_event_info: &mut FrameEventInfo)
        ensures
            final(self)@ == reported(old(self)@, *old(frame_event_info)),
            final(frame_event_info).should_redraw_window == (old(
                frame_event_info,
            ).should_redraw_window || old(frame_event_info).new_window_size is Some || old(
                frame_event_info,
            ).new_dpi_factor is Some),
            final(frame_event_info).new_window_size == old(frame_event_info).new_window_size,
            final(frame_event_info).new_dpi_factor == old(frame_event_info).new_dpi_factor,
    {
        if let Some((w, h)) = frame_event_info.new_window_size {
            self.size.width = w;
            self.size.height = h;
            frame_event_info.should_redraw_window = true;
        }
        if let Some(dpi) = frame_event_info.new_dpi_factor {
            self.size.hidpi_factor = dpi;
            frame_event_info.should_redraw_window = true;
        }
    }

    /// Sets the scroll distance of the mouse back to zero in both directions.
    pub fn clear_scroll_state(&mut self)
        ensures
            final(self)@ == (WindowStateView {
                mouse_state: MouseState {
                    scroll_x: FloatBits { bits: crate::scalar::ZERO_BITS },
                    scroll_y: FloatBits { bits: crate::scalar::ZERO_BITS },
                    ..old(self)@.mouse_state
                },
                ..old(self)@
            }),
    {
        self.mouse_state.scroll_x = FloatBits::zero();
        self.mouse_state.scroll_y = FloatBits::zero();
    }
}

/// The calls for the first `fields` fields are as many as those fields
/// that differ, so never more than `fields`.
pub proof fn lemma_one_call_per_field_among(
    old: WindowStateView,
    new: WindowStateView,
    fields: nat,
)
    ensures
        pending_among(old, new, fields).len() == changed_among(old, new, fields),
        changed_among(old, new, fields) <= fields,
    decreases fields,
{
    reveal(followed_by);
    if fields > 0 {
        lemma_one_call_per_field_among(old, new, (fields - 1) as nat);
    }
}

/// There is exactly one call for each reconciled field that differs, so
/// never more than eight.
pub proof fn lemma_one_call_per_changed_field(old: WindowStateView, new: WindowStateView)
    ensures
        pending_actions(old, new).len() == changed_fields(old, new),
        changed_fields(old, new) <= 8,
{
    lemma_one_call_per_field_among(old, new, RECONCILED_FIELDS as nat);
}

/// Where no reconciled field differs, nothing is pending.
pub proof fn lemma_no_difference_no_call(old: WindowStateView, new: WindowStateView, fields: nat)
    requires
        forall|field: ReconciledField| !field.differs(old, new),
    ensures
        pending_among(old, new, fields) == Seq::<WindowActionView>::empty(),
    decreases fields,
{
    reveal(followed_by);
    if fields > 0 {
        lemma_no_difference_no_call(old, new, (fields - 1) as nat);
    }
}

/// Once the pending calls were made, nothing is pending any more: bringing
/// the reconciled state to the same request takes no call and changes
/// nothing.
pub proof fn lemma_reconciling_settles(old: WindowStateView, new: WindowStateView)
    ensures
        pending_actions(reconciled(old, new), new) == Seq::<WindowActionView>::empty(),
        reconciled(reconciled(old, new), new) == reconciled(old, new),
{
    lemma_no_difference_no_call(reconciled(old, new), new, RECONCILED_FIELDS as nat);
}

/// A request that asks for what the window already is takes no call and
/// changes nothing.
pub proof fn lemma_same_state_needs_no_call(state: WindowStateView)
    ensures
        pending_actions(state, state) == Seq::<WindowActionView>::empty(),
        reconciled(state, state) == state,
{
    lemma_no_difference_no_call(state, state, RECONCILED_FIELDS as nat);
}

/// Reconciling leaves alone what the platform owns: position, width,
/// height and scale factor stay as they were, whatever the request says,
/// and so do transparency and the mouse and keyboard snapshots but for the
/// pointer shape.
pub proof fn lemma_reconciling_keeps_platform_fields(old: WindowStateView, new: WindowStateView)
    ensures
        reconciled(old, new).position == old.position,
        reconciled(old, new).size.width == old.size.width,
        reconciled(old, new).size.height == old.size.height,
        reconciled(old, new).size.hidpi_factor == old.size.hidpi_factor,
        reconciled(old, new).is_transparent == old.is_transparent,
        reconciled(old, new).keyboard_state == old.keyboard_state,
        reconciled(old, new).mouse_state == (MouseState {
            mouse_cursor_type: new.mouse_state.mouse_cursor_type,
            ..old.mouse_state
        }),
{
}

/// Whether one of the first `fields` fields differs and has `action` for its
/// call.
pub open spec fn called_among(
    old: WindowStateView,
    new: WindowStateView,
    fields: nat,
    action: WindowActionView,
) -> bool
    decreases fields,
{
    fields > 0 && {
        let field = ReconciledField::at((fields - 1) as nat);
        ||| called_among(old, new, (fields - 1) as nat, action)
        ||| (field.differs(old, new) && field.call(new) == action)
    }
}

/// The calls for the first `fields` fields are the calls of those among
/// them that differ, and no others.
pub proof fn lemma_calls_among(
    old: WindowStateView,
    new: WindowStateView,
    fields: nat,
    action: WindowActionView,
)
    ensures
        pending_among(old, new, fields).contains(action) <==> called_among(
            old,
            new,
            fields,
            action,
        ),
    decreases fields,
{
    reveal(followed_by);
    if fields > 0 {
        let earlier = pending_among(old, new, (fields - 1) as nat);
        let field = ReconciledField::at((fields - 1) as nat);
        let all = pending_among(old, new, fields);
        lemma_calls_among(old, new, (fields - 1) as nat, action);
        if field.differs(old, new) {
            assert(all == earlier.push(field.call(new)));
            if all.contains(action) {
                let i = choose|i: int| 0 <= i < all.len() && all[i] == action;
                if i < earlier.len() {
                    assert(earlier[i] == action);
                }
            }
            if earlier.contains(action) {
                let i = choose|i: int| 0 <= i < earlier.len() && earlier[i] == action;
                assert(all[i] == action);
            }
            if field.call(new) == action {
                assert(all[earlier.len() as int] == action);
            }
        }
    }
}

/// A call is pending for a field exactly if the request differs from the
/// window in that field; the call carries what the request asks for.
pub proof fn lemma_pending_calls_are_the_differences(
    old: WindowStateView,
    new: WindowStateView,
    field: ReconciledField,
)
    ensures
        pending_actions(old, new).contains(field.call(new)) <==> field.differs(old, new),
{
    lemma_calls_among(old, new, RECONCILED_FIELDS as nat, field.call(new));
    reveal_with_fuel(called_among, 9);
}

} // verus!

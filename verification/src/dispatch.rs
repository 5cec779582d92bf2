//! The event dispatcher, the focus-stack model and the layout engine.
//!
//! `OutputModel` mirrors the state of one output the policy cares about: its
//! resolution, its visibility mask, and its focus stack of views (last
//! position = top = most recently focused).  Each compositor event becomes a
//! method that updates the model and returns the `Command`s the backend must
//! perform; the caller executes them in order.  The dispatcher itself keeps
//! no other state, so every decision is a pure function of the model and the
//! event.

use vstd::prelude::*;
use crate::geometry::Geometry;
use crate::geometry::Point;
use crate::geometry::Size;
use crate::geometry::ViewKind;
use crate::geometry::full_output_geometry;
use crate::geometry::resolve_view_geometry;
use crate::geometry::resolved_geometry;
use crate::keys::Action;
use crate::keys::KeyPhase;
use crate::keys::MOD_SUPER;
use crate::keys::binding_of;
use crate::keys::resolve_binding;
use crate::keys::super_held;
use crate::stack::top_index;
use crate::stack::topmost_position;

verus! {

/// One outbound call the dispatcher asks the backend to perform.
#[derive(Clone, Copy, PartialEq, Eq, Structural, Debug)]
pub enum Command {
    /// Set the visibility mask of the view to the given mask.
    SetMask(usize, u32),
    /// Reorder the view to the top of its output's stack.
    BringToFront(usize),
    /// Reorder the view to the bottom of its output's stack.
    SendToBack(usize),
    /// Give keyboard focus to the view.
    FocusView(usize),
    /// Set the geometry of the view.
    SetGeometry(usize, Geometry),
    /// Set (`true`) or clear (`false`) the activated visual state of the view.
    SetActivated(usize, bool),
    /// Set or clear the given state bits of the view.
    SetViewState(usize, u32, bool),
    /// Close the view.
    CloseView(usize),
    /// Move the pointer cursor to the point.
    SetPointerPosition(Point),
    /// End the backend's event loop.
    Terminate,
    /// Spawn the fixed terminal command as a detached child process.
    LaunchTerminal,
}

/// The per-view state the core tracks: the backend handle plus the derived
/// focus flag, visibility mask, type tag and current geometry.
#[derive(Clone, Copy, PartialEq, Eq, Structural, Debug)]
pub struct ViewInfo {
    /// The backend's opaque handle for the view.
    pub handle: usize,
    /// Generic (stacked full-screen) or specialized (left alone).
    pub kind: ViewKind,
    /// The view's current geometry.
    pub geometry: Geometry,
    /// The visibility mask the view was given.
    pub mask: u32,
    /// Whether the view currently shows the activated (focused) state.
    pub activated: bool,
}

/// The state of one output: resolution, visibility mask, and the focus
/// stack of its live views, bottom first, the top (most recently focused)
/// view at the last position.
pub struct OutputModel {
    /// The output's current resolution in device pixels.
    pub resolution: Size,
    /// The output's visibility mask, handed to every new view.
    pub mask: u32,
    /// The focus stack of live views on this output.
    pub views: Vec<ViewInfo>,
}

/// Each live view occurs in the stack at most once.
pub open spec fn distinct_handles(s: Seq<ViewInfo>) -> bool {
    forall|i: int, j: int| 0 <= i < j < s.len() ==> s[i].handle != s[j].handle
}

/// Whether some view in the stack carries the handle.
pub open spec fn contains_handle(s: Seq<ViewInfo>, h: usize) -> bool {
    exists|i: int| 0 <= i < s.len() && s[i].handle == h
}

/// The stack position of the view with handle `h` (meaningful only when the
/// stack contains `h` exactly once).
pub open spec fn handle_index(s: Seq<ViewInfo>, h: usize) -> int {
    choose|i: int| 0 <= i < s.len() && s[i].handle == h
}

/// Exactly the view on top (if any) is marked focused.
pub open spec fn top_focused(s: Seq<ViewInfo>) -> bool {
    forall|i: int| 0 <= i < s.len() ==> (s[i].activated <==> i == s.len() - 1)
}

/// The stack with the activated flag set on position `t` alone.
pub open spec fn focus_position(s: Seq<ViewInfo>, t: int) -> Seq<ViewInfo> {
    Seq::new(s.len(), |i: int| (ViewInfo { activated: i == t, ..s[i] }))
}

/// The stack with the top view alone marked focused.
pub open spec fn focus_top(s: Seq<ViewInfo>) -> Seq<ViewInfo> {
    focus_position(s, s.len() - 1)
}

/// The stack after the view with handle `h` is gone; order is kept.
pub open spec fn remove_handle(s: Seq<ViewInfo>, h: usize) -> Seq<ViewInfo> {
    if contains_handle(s, h) {
        s.remove(handle_index(s, h))
    } else {
        s
    }
}

/// The stack after the view with handle `h` is sent to the back: its entry
/// moved to the bottom (first) position, every other view keeping its order.
pub open spec fn sent_to_back(s: Seq<ViewInfo>, h: usize) -> Seq<ViewInfo> {
    if contains_handle(s, h) {
        seq![s[handle_index(s, h)]] + s.remove(handle_index(s, h))
    } else {
        s
    }
}

/// The stack with the activated flag of the view with handle `h` (if any)
/// set to `b`.
pub open spec fn set_activated(s: Seq<ViewInfo>, h: usize, b: bool) -> Seq<ViewInfo> {
    Seq::new(
        s.len(),
        |i: int| if s[i].handle == h { (ViewInfo { activated: b, ..s[i] }) } else { s[i] },
    )
}

/// The record the dispatcher creates for a new view: the requested geometry,
/// the output's visibility mask, and keyboard focus.
pub open spec fn new_view(handle: usize, kind: ViewKind, requested: Geometry, mask: u32) -> ViewInfo {
    ViewInfo { handle, kind, geometry: requested, mask, activated: true }
}

/// One view after a layout pass: a generic view gets the full-output
/// rectangle, a specialized view is left untouched.
pub open spec fn layout_view(resolution: Size, v: ViewInfo) -> ViewInfo {
    match resolved_geometry(resolution, v.kind) {
        Some(g) => ViewInfo { geometry: g, ..v },
        None => v,
    }
}

/// The whole stack after a layout pass.
pub open spec fn layout_views(resolution: Size, s: Seq<ViewInfo>) -> Seq<ViewInfo> {
    s.map_values(|v: ViewInfo| layout_view(resolution, v))
}

/// The geometry commands a layout pass issues: one `SetGeometry` per
/// generic view, in stack order; specialized views get none.
pub open spec fn layout_commands(resolution: Size, s: Seq<ViewInfo>) -> Seq<Command>
    decreases s.len(),
{
    if s.len() == 0 {
        Seq::empty()
    } else {
        layout_commands(resolution, s.drop_last()) + match resolved_geometry(
            resolution,
            s.last().kind,
        ) {
            Some(g) => seq![Command::SetGeometry(s.last().handle, g)],
            None => Seq::empty(),
        }
    }
}

/// The stack after a `view_created` event: the new view enters on top with
/// the output's mask and keyboard focus, every other view loses focus, and
/// a layout pass runs.
pub open spec fn created_views(
    resolution: Size,
    s: Seq<ViewInfo>,
    handle: usize,
    kind: ViewKind,
    requested: Geometry,
    mask: u32,
) -> Seq<ViewInfo> {
    layout_views(resolution, focus_top(s + seq![new_view(handle, kind, requested, mask)]))
}

/// The commands a `view_created` event issues: mask, raise and focus for
/// the new view, then the layout pass's geometry commands.
pub open spec fn created_commands(
    resolution: Size,
    s: Seq<ViewInfo>,
    handle: usize,
    kind: ViewKind,
    requested: Geometry,
    mask: u32,
) -> Seq<Command> {
    seq![Command::SetMask(handle, mask), Command::BringToFront(handle), Command::FocusView(handle)]
        + layout_commands(resolution, focus_top(s + seq![new_view(handle, kind, requested, mask)]))
}

/// The stack after a `view_destroyed` event: the view is gone, the new top
/// (if any view is left) alone is focused, and a layout pass runs.
pub open spec fn destroyed_views(resolution: Size, s: Seq<ViewInfo>, handle: usize) -> Seq<
    ViewInfo,
> {
    layout_views(resolution, focus_top(remove_handle(s, handle)))
}

/// The commands a `view_destroyed` event issues: focus for the new top (if
/// any view is left), then the layout pass's geometry commands.
pub open spec fn destroyed_commands(resolution: Size, s: Seq<ViewInfo>, handle: usize) -> Seq<
    Command,
> {
    let t = remove_handle(s, handle);
    (if t.len() > 0 {
        seq![Command::FocusView(t[t.len() - 1].handle)]
    } else {
        Seq::empty()
    }) + layout_commands(resolution, focus_top(t))
}

/// Whether a key event is consumed: every press with the designator
/// modifier held is, matched or not, so unbound Super chords do not leak
/// to the focused application.  Releases and chords without the designator
/// modifier are forwarded.
pub open spec fn key_consumed(mods: u32, phase: KeyPhase) -> bool {
    phase is Pressed && super_held(mods)
}

/// The stack after a key event: only `CycleFocusBackward` changes it — the
/// current view goes to the back and the new top (by the wrap rule) alone
/// is focused.
pub open spec fn key_next_views(
    s: Seq<ViewInfo>,
    view: usize,
    mods: u32,
    sym: u32,
    phase: KeyPhase,
) -> Seq<ViewInfo> {
    if key_consumed(mods, phase) && binding_of(mods, sym) == Some(Action::CycleFocusBackward) {
        focus_top(sent_to_back(s, view))
    } else {
        s
    }
}

/// The commands a key event issues, by the action its binding resolves to.
pub open spec fn key_commands(
    s: Seq<ViewInfo>,
    view: usize,
    mods: u32,
    sym: u32,
    phase: KeyPhase,
) -> Seq<Command> {
    if !key_consumed(mods, phase) {
        Seq::empty()
    } else {
        match binding_of(mods, sym) {
            Some(Action::CloseFocusedView) => seq![Command::CloseView(view)],
            Some(Action::CycleFocusBackward) => {
                let t = sent_to_back(s, view);
                seq![Command::SendToBack(view)] + if t.len() > 0 {
                    seq![Command::FocusView(t[t.len() - 1].handle)]
                } else {
                    Seq::empty()
                }
            },
            Some(Action::Terminate) => seq![Command::Terminate],
            Some(Action::LaunchTerminal) => seq![Command::LaunchTerminal],
            None => Seq::empty(),
        }
    }
}

/// Layout idempotence: a second layout pass with no intervening
/// create/destroy/resize event changes no view and issues exactly the
/// geometry commands of the first.
pub proof fn lemma_layout_idempotent(resolution: Size, s: Seq<ViewInfo>)
    ensures
        layout_views(resolution, layout_views(resolution, s)) == layout_views(resolution, s),
        layout_commands(resolution, layout_views(resolution, s)) == layout_commands(
            resolution,
            s,
        ),
    decreases s.len(),
{
    let t = layout_views(resolution, s);
    assert(layout_views(resolution, t) =~= t);
    if s.len() > 0 {
        lemma_layout_idempotent(resolution, s.drop_last());
        assert(t.drop_last() =~= layout_views(resolution, s.drop_last()));
        assert(t.last() == layout_view(resolution, s.last()));
        assert(t.last().kind == s.last().kind);
        assert(t.last().handle == s.last().handle);
    }
}

/// The layout policy on one view: a generic view always receives the
/// full-output rectangle at origin (0,0), a specialized view is never
/// touched.
pub proof fn lemma_layout_geometry(resolution: Size, s: Seq<ViewInfo>, i: int)
    requires
        0 <= i < s.len(),
    ensures
        s[i].kind is Generic ==> layout_views(resolution, s)[i] == (ViewInfo {
            geometry: full_output_geometry(resolution),
            ..s[i]
        }),
        s[i].kind is Specialized ==> layout_views(resolution, s)[i] == s[i],
{
}

/// Every command a layout pass issues resizes some generic view of the
/// stack to the full-output rectangle; no command names a specialized view.
pub proof fn lemma_layout_commands_generic(resolution: Size, s: Seq<ViewInfo>, j: int)
    requires
        0 <= j < layout_commands(resolution, s).len(),
    ensures
        exists|i: int|
            0 <= i < s.len() && s[i].kind is Generic && layout_commands(resolution, s)[j]
                == Command::SetGeometry(s[i].handle, full_output_geometry(resolution)),
    decreases s.len(),
{
    let c = layout_commands(resolution, s);
    if s.len() > 0 {
        let pre = layout_commands(resolution, s.drop_last());
        if j < pre.len() {
            lemma_layout_commands_generic(resolution, s.drop_last(), j);
            let i = choose|i: int|
                0 <= i < s.drop_last().len() && s.drop_last()[i].kind is Generic
                    && pre[j] == Command::SetGeometry(
                    s.drop_last()[i].handle,
                    full_output_geometry(resolution),
                );
            assert(s.drop_last()[i] == s[i]);
            assert(c[j] == pre[j]);
        } else {
            assert(s.last().kind is Generic);
            let i = s.len() - 1;
            assert(c[j] == Command::SetGeometry(s[i].handle, full_output_geometry(resolution)));
        }
    }
}

/// A stack with the same handles position by position as a distinct one is
/// distinct itself.
proof fn lemma_same_handles_distinct(s: Seq<ViewInfo>, t: Seq<ViewInfo>)
    requires
        t.len() == s.len(),
        forall|i: int| 0 <= i < s.len() ==> t[i].handle == s[i].handle,
        distinct_handles(s),
    ensures
        distinct_handles(t),
{
}

/// Removing a view keeps the stack distinct.
proof fn lemma_remove_distinct(s: Seq<ViewInfo>, i: int)
    requires
        distinct_handles(s),
        0 <= i < s.len(),
    ensures
        distinct_handles(s.remove(i)),
{
    let r = s.remove(i);
    assert forall|a: int, b: int| 0 <= a < b < r.len() implies r[a].handle != r[b].handle by {
        let a0 = if a < i { a } else { a + 1 };
        let b0 = if b < i { b } else { b + 1 };
        assert(r[a] == s[a0]);
        assert(r[b] == s[b0]);
    }
}

/// Sending a view to the back keeps the stack distinct.
proof fn lemma_sent_to_back_distinct(s: Seq<ViewInfo>, i: int)
    requires
        distinct_handles(s),
        0 <= i < s.len(),
    ensures
        distinct_handles(seq![s[i]] + s.remove(i)),
{
    lemma_remove_distinct(s, i);
    let r = seq![s[i]] + s.remove(i);
    assert forall|a: int, b: int| 0 <= a < b < r.len() implies r[a].handle != r[b].handle by {
        let b0 = if b - 1 < i { b - 1 } else { b };
        assert(r[b] == s.remove(i)[b - 1]);
        assert(r[b] == s[b0]);
        if a == 0 {
            assert(r[a] == s[i]);
        } else {
            let a0 = if a - 1 < i { a - 1 } else { a };
            assert(r[a] == s.remove(i)[a - 1]);
            assert(r[a] == s[a0]);
        }
    }
}

/// In a distinct stack the position of a handle is the position of any view
/// that carries it.
proof fn lemma_handle_index_unique(s: Seq<ViewInfo>, h: usize, i: int)
    requires
        distinct_handles(s),
        0 <= i < s.len(),
        s[i].handle == h,
    ensures
        contains_handle(s, h),
        handle_index(s, h) == i,
{
    assert(contains_handle(s, h));
    let j = handle_index(s, h);
    assert(0 <= j < s.len() && s[j].handle == h);
    if j < i {
        assert(s[j].handle != s[i].handle);
    } else if i < j {
        assert(s[i].handle != s[j].handle);
    }
}

impl OutputModel {
    /// The focus stack holds each live view at most once.
    pub open spec fn wf(self) -> bool {
        distinct_handles(self.views@)
    }

    /// A fresh model of an output with no views.
    pub fn new(resolution: Size, mask: u32) -> (m: OutputModel)
        ensures
            m.resolution == resolution,
            m.mask == mask,
            m.views@ == Seq::<ViewInfo>::empty(),
            m.wf(),
    {
        OutputModel { resolution, mask, views: Vec::new() }
    }

    /// The stack position of the view with the given handle, `None` when no
    /// view on this output carries it.
    pub fn find_view(&self, handle: usize) -> (r: Option<usize>)
        ensures
            match r {
                Some(i) => i < self.views@.len() && self.views@[i as int].handle == handle,
                None => !contains_handle(self.views@, handle),
            },
    {
        let mut i: usize = 0;
        while i < self.views.len()
            invariant
                i <= self.views@.len(),
                forall|k: int| 0 <= k < i ==> self.views@[k].handle != handle,
            decreases self.views@.len() - i,
        {
            if self.views[i].handle == handle {
                return Some(i);
            }
            i += 1;
        }
        None
    }

    /// Marks the top view focused and every other view unfocused.
    fn refocus_top(&mut self)
        ensures
            final(self).resolution == old(self).resolution,
            final(self).mask == old(self).mask,
            final(self).views@ == focus_top(old(self).views@),
            old(self).wf() ==> final(self).wf(),
            top_focused(final(self).views@),
    {
        let n = self.views.len();
        let mut out: Vec<ViewInfo> = Vec::new();
        let mut i: usize = 0;
        while i < n
            invariant
                i <= n,
                n == self.views@.len(),
                *self == *old(self),
                out@.len() == i,
                forall|k: int|
                    0 <= k < i ==> out@[k] == (ViewInfo {
                        activated: k == n - 1,
                        ..self.views@[k]
                    }),
            decreases n - i,
        {
            let v = self.views[i];
            out.push(ViewInfo { activated: i == n - 1, ..v });
            i += 1;
        }
        self.views = out;
        proof {
            assert(self.views@ =~= focus_top(old(self).views@));
            if old(self).wf() {
                lemma_same_handles_distinct(old(self).views@, self.views@);
            }
        }
    }

    /// Layout engine: recomputes every view's geometry from the resolver
    /// and returns one `SetGeometry` command per view it changed.
    pub fn apply_layout(&mut self) -> (cmds: Vec<Command>)
        ensures
            final(self).resolution == old(self).resolution,
            final(self).mask == old(self).mask,
            final(self).views@ == layout_views(old(self).resolution, old(self).views@),
            cmds@ == layout_commands(old(self).resolution, old(self).views@),
            old(self).wf() ==> final(self).wf(),
            top_focused(old(self).views@) ==> top_focused(final(self).views@),
    {
        let n = self.views.len();
        let mut out: Vec<ViewInfo> = Vec::new();
        let mut cmds: Vec<Command> = Vec::new();
        let mut i: usize = 0;
        while i < n
            invariant
                i <= n,
                n == self.views@.len(),
                *self == *old(self),
                out@.len() == i,
                forall|k: int|
                    0 <= k < i ==> out@[k] == layout_view(self.resolution, self.views@[k]),
                cmds@ == layout_commands(self.resolution, self.views@.subrange(0, i as int)),
            decreases n - i,
        {
            let v = self.views[i];
            match resolve_view_geometry(self.resolution, v.kind) {
                Some(g) => {
                    out.push(ViewInfo { geometry: g, ..v });
                    cmds.push(Command::SetGeometry(v.handle, g));
                },
                None => {
                    out.push(v);
                },
            }
            proof {
                let s = self.views@;
                assert(s.subrange(0, i + 1).drop_last() =~= s.subrange(0, i as int));
                assert(s.subrange(0, i + 1).last() == s[i as int]);
            }
            i += 1;
        }
        self.views = out;
        proof {
            assert(old(self).views@.subrange(0, n as int) =~= old(self).views@);
            assert(self.views@ =~= layout_views(old(self).resolution, old(self).views@));
            if old(self).wf() {
                lemma_same_handles_distinct(old(self).views@, self.views@);
            }
        }
        cmds
    }

    /// The handle `topmost(offset)` selects: offset `0` is the top of the
    /// stack and a growing offset cycles through every view, wrapping
    /// around modulo the stack size; `None` on an empty output.
    pub fn get_topmost_view(&self, offset: usize) -> (r: Option<usize>)
        requires
            self.views@.len() == 0 || offset <= usize::MAX - (self.views@.len() - 1),
        ensures
            self.views@.len() == 0 <==> r is None,
            self.views@.len() > 0 ==> r == Some(
                self.views@[top_index(self.views@.len(), offset as nat)].handle,
            ),
    {
        match topmost_position(self.views.len(), offset) {
            Some(i) => Some(self.views[i].handle),
            None => None,
        }
    }

    /// Handles a `view_created` event: the new view gets the output's
    /// visibility mask, comes to the front, takes keyboard focus, and the
    /// output is laid out again.  The event is always consumed.
    pub fn view_created(
        &mut self,
        handle: usize,
        kind: ViewKind,
        requested: Geometry,
    ) -> (r: (bool, Vec<Command>))
        requires
            old(self).wf(),
            !contains_handle(old(self).views@, handle),
        ensures
            final(self).wf(),
            final(self).resolution == old(self).resolution,
            final(self).mask == old(self).mask,
            final(self).views@ == created_views(
                old(self).resolution,
                old(self).views@,
                handle,
                kind,
                requested,
                old(self).mask,
            ),
            top_focused(final(self).views@),
            r.0 == true,
            r.1@ == created_commands(
                old(self).resolution,
                old(self).views@,
                handle,
                kind,
                requested,
                old(self).mask,
            ),
    {
        let v = ViewInfo {
            handle,
            kind,
            geometry: requested,
            mask: self.mask,
            activated: true,
        };
        self.views.push(v);
        proof {
            assert(self.views@ =~= old(self).views@ + seq![
                new_view(handle, kind, requested, old(self).mask),
            ]);
            assert forall|a: int, b: int|
                0 <= a < b < self.views@.len() implies self.views@[a].handle
                != self.views@[b].handle by {
                if b == self.views@.len() - 1 && self.views@[a].handle == handle {
                    assert(old(self).views@[a].handle == handle);
                    assert(contains_handle(old(self).views@, handle));
                }
            }
        }
        let mut cmds: Vec<Command> = Vec::new();
        cmds.push(Command::SetMask(handle, self.mask));
        cmds.push(Command::BringToFront(handle));
        cmds.push(Command::FocusView(handle));
        self.refocus_top();
        let mut lay = self.apply_layout();
        cmds.append(&mut lay);
        proof {
            assert(cmds@ =~= created_commands(
                old(self).resolution,
                old(self).views@,
                handle,
                kind,
                requested,
                old(self).mask,
            ));
        }
        (true, cmds)
    }

    /// Handles a `view_destroyed` event: the view leaves the stack, the new
    /// top view (if one is left) takes keyboard focus, and the output is
    /// laid out again.
    pub fn view_destroyed(&mut self, handle: usize) -> (cmds: Vec<Command>)
        requires
            old(self).wf(),
        ensures
            final(self).wf(),
            final(self).resolution == old(self).resolution,
            final(self).mask == old(self).mask,
            final(self).views@ == destroyed_views(old(self).resolution, old(self).views@, handle),
            top_focused(final(self).views@),
            cmds@ == destroyed_commands(old(self).resolution, old(self).views@, handle),
    {
        match self.find_view(handle) {
            Some(i) => {
                proof {
                    lemma_handle_index_unique(self.views@, handle, i as int);
                    lemma_remove_distinct(self.views@, i as int);
                }
                self.views.remove(i);
            },
            None => {},
        }
        proof {
            assert(self.views@ == remove_handle(old(self).views@, handle));
        }
        let mut cmds: Vec<Command> = Vec::new();
        if self.views.len() > 0 {
            let top = self.views[self.views.len() - 1].handle;
            cmds.push(Command::FocusView(top));
        }
        self.refocus_top();
        let mut lay = self.apply_layout();
        cmds.append(&mut lay);
        proof {
            assert(cmds@ =~= destroyed_commands(old(self).resolution, old(self).views@, handle));
        }
        cmds
    }

    /// Handles a `view_focus` event: records the focus change the backend
    /// reports and passes the activated visual state on to it.
    pub fn view_focus(&mut self, handle: usize, focused: bool) -> (r: Command)
        requires
            old(self).wf(),
        ensures
            final(self).wf(),
            final(self).resolution == old(self).resolution,
            final(self).mask == old(self).mask,
            final(self).views@ == set_activated(old(self).views@, handle, focused),
            r == Command::SetActivated(handle, focused),
    {
        let n = self.views.len();
        let mut out: Vec<ViewInfo> = Vec::new();
        let mut i: usize = 0;
        while i < n
            invariant
                i <= n,
                n == self.views@.len(),
                *self == *old(self),
                out@.len() == i,
                forall|k: int| 0 <= k < i ==> out@[k] == set_activated(
                    self.views@,
                    handle,
                    focused,
                )[k],
            decreases n - i,
        {
            let v = self.views[i];
            if v.handle == handle {
                out.push(ViewInfo { activated: focused, ..v });
            } else {
                out.push(v);
            }
            i += 1;
        }
        self.views = out;
        proof {
            assert(self.views@ =~= set_activated(old(self).views@, handle, focused));
            lemma_same_handles_distinct(old(self).views@, self.views@);
        }
        Command::SetActivated(handle, focused)
    }

    /// Handles an `output_resolution_changed` event: the model adopts the
    /// new resolution and the output is laid out again.
    pub fn output_resolution_changed(&mut self, _from: Size, to: Size) -> (cmds: Vec<Command>)
        requires
            old(self).wf(),
        ensures
            final(self).wf(),
            final(self).mask == old(self).mask,
            final(self).resolution == to,
            final(self).views@ == layout_views(to, old(self).views@),
            cmds@ == layout_commands(to, old(self).views@),
    {
        self.resolution = to;
        self.apply_layout()
    }

    /// Handles a `keyboard_key` event: resolves the binding and performs
    /// its action.  Every press with the designator modifier held is
    /// consumed, matched or not; everything else is forwarded untouched.
    pub fn keyboard_key(
        &mut self,
        view: usize,
        mods: u32,
        sym: u32,
        phase: KeyPhase,
    ) -> (r: (bool, Vec<Command>))
        requires
            old(self).wf(),
        ensures
            final(self).wf(),
            final(self).resolution == old(self).resolution,
            final(self).mask == old(self).mask,
            final(self).views@ == key_next_views(old(self).views@, view, mods, sym, phase),
            r.0 == key_consumed(mods, phase),
            r.1@ == key_commands(old(self).views@, view, mods, sym, phase),
    {
        let mut cmds: Vec<Command> = Vec::new();
        if phase == KeyPhase::Pressed && mods & MOD_SUPER != 0 {
            match resolve_binding(mods, sym) {
                Some(Action::CloseFocusedView) => {
                    cmds.push(Command::CloseView(view));
                },
                Some(Action::CycleFocusBackward) => {
                    match self.find_view(view) {
                        Some(i) => {
                            proof {
                                lemma_handle_index_unique(self.views@, view, i as int);
                                lemma_sent_to_back_distinct(self.views@, i as int);
                            }
                            let v = self.views.remove(i);
                            self.views.insert(0, v);
                            proof {
                                assert(self.views@ =~= sent_to_back(old(self).views@, view));
                            }
                        },
                        None => {},
                    }
                    cmds.push(Command::SendToBack(view));
                    if self.views.len() > 0 {
                        let top = self.views[self.views.len() - 1].handle;
                        cmds.push(Command::FocusView(top));
                    }
                    self.refocus_top();
                    proof {
                        assert(cmds@ =~= key_commands(old(self).views@, view, mods, sym, phase));
                    }
                },
                Some(Action::Terminate) => {
                    cmds.push(Command::Terminate);
                },
                Some(Action::LaunchTerminal) => {
                    cmds.push(Command::LaunchTerminal);
                },
                None => {},
            }
            (true, cmds)
        } else {
            (false, cmds)
        }
    }
}

/// Handles a `pointer_motion` event: the cursor follows the pointer; the
/// event is never consumed, so it still reaches the focused application.
pub fn pointer_motion(position: Point) -> (r: (bool, Command))
    ensures
        r.0 == false,
        r.1 == Command::SetPointerPosition(position),
{
    (false, Command::SetPointerPosition(position))
}

/// Handles a `view_request_state` event: the requested state is granted
/// unconditionally and passed through to the backend as issued.
pub fn view_request_state(handle: usize, state_bits: u32, enabled: bool) -> (r: Command)
    ensures
        r == Command::SetViewState(handle, state_bits, enabled),
{
    Command::SetViewState(handle, state_bits, enabled)
}

} // verus!

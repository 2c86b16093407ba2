use vstd::prelude::*;

use crate::buffer::{
    lemma_move_wf, spec_break_line, spec_concat_lines, spec_delete_at, spec_delete_line,
    spec_insert_at, spec_mock, spec_move, spec_move_end, spec_move_start, spec_new_line, BufView,
    Buffer,
};
use crate::input::{spec_resolve, Insert, KeyEvent, Normal};

verus! {

/// A two-dimensional, zero-based buffer coordinate: `x` is the column,
/// `y` the row.
#[derive(Clone, Copy, Debug, PartialEq, Eq, Structural)]
pub struct Cursor {
    pub x: usize,
    pub y: usize,
}

impl Cursor {
    pub fn new(x: usize, y: usize) -> (r: Self)
        ensures
            r.x == x,
            r.y == y,
    {
        Self { x, y }
    }
}

/// Interpretation context for input: `Normal` reads command keys, `Insert`
/// takes literal text entry. Switching mode never touches buffer content;
/// it only changes how keys are resolved and how the cursor is clamped.
#[derive(Clone, Copy, Debug, PartialEq, Eq, Structural)]
pub enum Mode {
    Normal,
    Insert,
}

#[derive(Clone, Copy, Debug, PartialEq, Eq, Structural)]
pub enum Direction {
    Up,
    Down,
    Left,
    Right,
}

/// An abstract, resolved user intent, independent of the raw key event
/// that produced it.
#[derive(Clone, Copy, Debug)]
pub enum Action {
    /// Insert this character at the cursor.
    Input(char),
    /// Open a new line above (`Up`) or below (`Down`) the cursor row.
    Line(Direction),
    /// Move the cursor one step, clamped by the current mode's bounds.
    Move(Direction),
    /// Switch mode, with an optional post-switch cursor nudge.
    Change(Mode, Option<Direction>),
    /// Backspace-style deletion.
    Delete,
    /// Remove the cursor's row.
    DeleteLine,
    /// Leave the dispatch loop.
    Quit,
}

/// What the renderer must do after an action has been applied. The caller
/// repositions the terminal cursor after every step; `Redraw` additionally
/// asks for the buffer text to be repainted, and `RedrawShrunk` says the
/// buffer lost a row, so the now-vacant trailing screen row must be cleared
/// as well.
#[derive(Clone, Copy, Debug, PartialEq, Eq, Structural)]
pub enum Effect {
    Nothing,
    Redraw,
    RedrawShrunk,
    Quit,
}

/// Mathematical model of an `Editor`: the buffers, the index of the active
/// one, and the current mode.
#[verifier::ext_equal]
pub ghost struct EdView {
    pub bufs: Seq<BufView>,
    pub idx: nat,
    pub mode: Mode,
}

impl EdView {
    /// The active index denotes an existing buffer.
    pub open spec fn has_buf(self) -> bool {
        self.idx < self.bufs.len()
    }

    /// The active buffer.
    pub open spec fn cur(self) -> BufView {
        self.bufs[self.idx as int]
    }

    /// The active cursor column; 0 when there is no active buffer.
    pub open spec fn cx(self) -> nat {
        if self.has_buf() {
            self.cur().x
        } else {
            0
        }
    }

    /// The active cursor row; 0 when there is no active buffer.
    pub open spec fn cy(self) -> nat {
        if self.has_buf() {
            self.cur().y
        } else {
            0
        }
    }

    /// The editor with its active buffer replaced by `b`; unchanged when
    /// there is no active buffer.
    pub open spec fn with_cur(self, b: BufView) -> EdView {
        if self.has_buf() {
            EdView { bufs: self.bufs.update(self.idx as int, b), ..self }
        } else {
            self
        }
    }

    /// The editor invariant: an active buffer exists and its cursor is
    /// well-formed for the current mode. Every reachable editor state
    /// satisfies it: `Editor::new` establishes it and `Editor::step`
    /// preserves it.
    pub open spec fn inv(self) -> bool {
        self.has_buf() && self.cur().wf(self.mode)
    }
}

/// The editor state at startup: one seed buffer, `Normal` mode.
pub open spec fn spec_init() -> EdView {
    EdView { bufs: seq![spec_mock()], idx: 0, mode: Mode::Normal }
}

/// The editor state after one action has been dispatched. Mode-dependent:
/// see [`Editor::apply_action`] for the rules, which mirror modal (vi-like)
/// editing. `Action::Input` under `Normal` mode and `Action::Line` with a
/// horizontal direction are contract violations of the resolver and leave
/// the state unchanged here; `Editor::apply_action` excludes them outright.
pub open spec fn spec_apply(e: EdView, action: Action) -> EdView {
    match action {
        Action::Move(d) => e.with_cur(spec_move(e.cur(), e.mode, d)),
        Action::Quit => e,
        Action::Change(m, od) => {
            let e2 = EdView { mode: m, ..e };
            match od {
                Some(d) => e2.with_cur(spec_move(e2.cur(), m, d)),
                None => e2,
            }
        },
        Action::Delete => if e.mode is Insert && e.cx() == 0 && e.cy() > 0 {
            let e2 = e.with_cur(spec_move(e.cur(), e.mode, Direction::Up));
            let e3 = e2.with_cur(spec_move_end(e2.cur()));
            e3.with_cur(spec_concat_lines(e3.cur(), e.cy() as int, e.cy() - 1))
        } else if e.mode is Insert && e.cx() > 0 {
            let e2 = e.with_cur(spec_delete_at(e.cur(), Some(Direction::Left)));
            e2.with_cur(spec_move(e2.cur(), e.mode, Direction::Left))
        } else {
            e
        },
        Action::Input(ch) => if e.mode is Insert && e.has_buf() {
            let e2 = e.with_cur(spec_insert_at(e.cur(), ch));
            e2.with_cur(spec_move(e2.cur(), e.mode, Direction::Right))
        } else {
            e
        },
        Action::Line(d) => if e.has_buf() {
            match e.mode {
                Mode::Normal => match d {
                    Direction::Up => {
                        let t = e.with_cur(spec_new_line(e.cur(), e.cy() as int));
                        EdView { mode: Mode::Insert, ..t.with_cur(spec_move_start(t.cur())) }
                    },
                    Direction::Down => {
                        let t = e.with_cur(spec_new_line(e.cur(), e.cy() as int + 1));
                        EdView {
                            mode: Mode::Insert,
                            ..t.with_cur(spec_move(t.cur(), e.mode, Direction::Down))
                        }
                    },
                    _ => e,
                },
                Mode::Insert => match d {
                    Direction::Up => {
                        let t = e.with_cur(spec_break_line(e.cur()));
                        t.with_cur(spec_move_start(t.cur()))
                    },
                    Direction::Down => {
                        let t = e.with_cur(spec_break_line(e.cur()));
                        let t2 = t.with_cur(spec_move(t.cur(), e.mode, Direction::Down));
                        t2.with_cur(spec_move_start(t2.cur()))
                    },
                    _ => e,
                },
            }
        } else {
            e
        },
        Action::DeleteLine => if e.mode is Normal && e.has_buf() {
            let e2 = e.with_cur(spec_delete_line(e.cur(), e.cy() as int));
            e2.with_cur(spec_move(e2.cur(), e.mode, Direction::Up))
        } else {
            e
        },
    }
}

/// What the renderer is asked to do after the action: nothing for pure
/// cursor or mode changes, a repaint for text edits, a repaint plus
/// trailing-row clear where the buffer lost a row, and `Quit` to leave the
/// loop.
pub open spec fn spec_effect(e: EdView, action: Action) -> Effect {
    match action {
        Action::Move(_) => Effect::Nothing,
        Action::Quit => Effect::Quit,
        Action::Change(_, _) => Effect::Nothing,
        Action::Delete => if e.mode is Insert && e.cx() == 0 && e.cy() > 0 && e.has_buf() {
            Effect::RedrawShrunk
        } else if e.mode is Insert && e.cx() > 0 && e.has_buf() {
            Effect::Redraw
        } else {
            Effect::Nothing
        },
        Action::Input(_) => if e.mode is Insert && e.has_buf() {
            Effect::Redraw
        } else {
            Effect::Nothing
        },
        Action::Line(_) => if e.has_buf() {
            Effect::Redraw
        } else {
            Effect::Nothing
        },
        Action::DeleteLine => if e.mode is Normal && e.has_buf() {
            Effect::RedrawShrunk
        } else {
            Effect::Nothing
        },
    }
}

/// One full input step: resolve the key event against the current mode's
/// table, then dispatch the resolved action; an unrecognized key changes
/// nothing. Returns the next state and what the renderer must do.
pub open spec fn spec_step(e: EdView, event: KeyEvent) -> (EdView, Effect) {
    match spec_resolve(e.mode, event) {
        Some(action) => (spec_apply(e, action), spec_effect(e, action)),
        None => (e, Effect::Nothing),
    }
}

/// The dispatch core: an owned collection of buffers, the index of the
/// active one, and the current mode.
pub struct Editor {
    buffers: Vec<Buffer>,
    current_buf_idx: usize,
    mode: Mode,
}

impl View for Editor {
    type V = EdView;

    closed spec fn view(&self) -> EdView {
        EdView {
            bufs: Seq::new(self.buffers@.len(), |i: int| self.buffers@[i]@),
            idx: self.current_buf_idx as nat,
            mode: self.mode,
        }
    }
}

impl Default for Editor {
    fn default() -> (r: Self)
        ensures
            r@ == spec_init(),
            r@.inv(),
    {
        let mut buffers: Vec<Buffer> = Vec::new();
        buffers.push(Buffer::mock());
        let r = Self { current_buf_idx: 0, buffers, mode: Mode::Normal };
        proof {
            assert(r@ =~~= spec_init());
        }
        r
    }
}

impl Editor {
    /// A fresh editor: one seed buffer, `Normal` mode. Establishes the
    /// editor invariant.
    pub fn new() -> (r: Self)
        ensures
            r@ == spec_init(),
            r@.inv(),
    {
        Self::default()
    }

    /// The current mode.
    pub fn mode(&self) -> (m: Mode)
        ensures
            m == self@.mode,
    {
        self.mode
    }

    /// The active buffer, or `None` when the active index is out of range.
    pub fn current_buf(&self) -> (r: Option<&Buffer>)
        ensures
            r is Some <==> self@.has_buf(),
            r matches Some(b) ==> b@ == self@.cur(),
    {
        if self.current_buf_idx < self.buffers.len() {
            Some(&self.buffers[self.current_buf_idx])
        } else {
            None
        }
    }

    /// The active buffer for mutation, or `None` when the active index is
    /// out of range. The editor afterwards is the editor before with the
    /// active buffer replaced by whatever the caller leaves behind the
    /// reference.
    pub fn current_buf_mut(&mut self) -> (r: Option<&mut Buffer>)
        ensures
            r is Some <==> old(self)@.has_buf(),
            r matches Some(b) ==> (*b)@ == old(self)@.cur() && final(self)@ == old(
                self,
            )@.with_cur((*final(b))@),
            r is None ==> final(self)@ == old(self)@,
    {
        if self.current_buf_idx < self.buffers.len() {
            Some(&mut self.buffers[self.current_buf_idx])
        } else {
            None
        }
    }

    /// The active buffer's cursor; the origin when there is no active
    /// buffer.
    pub fn cursor(&self) -> (r: Cursor)
        ensures
            r.x == self@.cx(),
            r.y == self@.cy(),
    {
        match self.current_buf() {
            Some(b) => b.cursor,
            None => Cursor::new(0, 0),
        }
    }

    /// Set the active buffer's cursor column to 0.
    pub fn move_cursor_start_of_the_line(&mut self)
        ensures
            final(self)@ == old(self)@.with_cur(spec_move_start(old(self)@.cur())),
    {
        let ghost pre = self@;
        if self.current_buf_idx < self.buffers.len() {
            let buf = &mut self.buffers[self.current_buf_idx];
            buf.move_cursor_start_of_the_line();
        }
        proof {
            assert(self@ =~~= pre.with_cur(spec_move_start(pre.cur())));
        }
    }

    /// Set the active buffer's cursor column to its row's end-of-line slot.
    pub fn move_cursor_end_of_the_line(&mut self)
        ensures
            final(self)@ == old(self)@.with_cur(spec_move_end(old(self)@.cur())),
    {
        let ghost pre = self@;
        if self.current_buf_idx < self.buffers.len() {
            let buf = &mut self.buffers[self.current_buf_idx];
            buf.move_cursor_end_of_the_line();
        }
        proof {
            assert(self@ =~~= pre.with_cur(spec_move_end(pre.cur())));
        }
    }

    /// Move the active buffer's cursor one step, clamped for the current
    /// mode (see [`spec_move`]).
    pub fn handle_cursor_movment(&mut self, direction: Direction)
        ensures
            final(self)@ == old(self)@.with_cur(
                spec_move(old(self)@.cur(), old(self)@.mode, direction),
            ),
    {
        let ghost pre = self@;
        let mode = self.mode;
        if self.current_buf_idx < self.buffers.len() {
            let buf = &mut self.buffers[self.current_buf_idx];
            buf.handle_cursor_movment(mode, direction);
        }
        proof {
            assert(self@ =~~= pre.with_cur(spec_move(pre.cur(), pre.mode, direction)));
        }
    }

    /// Dispatch one resolved action against the active buffer, returning
    /// what the renderer must now do. The rules, by `(action, mode)`:
    ///
    /// - `Move(d)`: clamp-move the cursor.
    /// - `Quit`: no state change; the caller leaves its loop.
    /// - `Change(m, d)`: switch to mode `m`, then apply the optional nudge
    ///   `d` (used to step right when appending, and to step back onto the
    ///   last character when leaving `Insert`).
    /// - `Delete` in `Insert` at column 0 of a row below the first: join
    ///   the cursor's row onto the end of the previous one, the cursor
    ///   landing at the join point.
    /// - `Delete` in `Insert` mid-line: remove the character to the left
    ///   of the cursor and step left.
    /// - `Delete` in `Normal`: ignored.
    /// - `Input(ch)` in `Insert`: insert `ch` at the cursor and step right.
    /// - `Line(Up)` in `Normal`: open an empty row above the cursor row,
    ///   place the cursor at its start, enter `Insert`.
    /// - `Line(Down)` in `Normal`: open an empty row below, descend into
    ///   it, enter `Insert`.
    /// - `Line(Up)` in `Insert`: split the row at the cursor, cursor to
    ///   the start of its (shortened) row.
    /// - `Line(Down)` in `Insert`: split the row at the cursor and descend
    ///   to the start of the new row.
    /// - `DeleteLine` in `Normal`: delete the cursor's row, then move up.
    /// - `DeleteLine` in `Insert`: defined as a no-op.
    ///
    /// `Input` under `Normal` mode and `Line` with a horizontal direction
    /// indicate a resolver/dispatch mismatch and are excluded by contract;
    /// the resolvers never produce them.
    pub fn apply_action(&mut self, action: Action) -> (r: Effect)
        requires
            old(self)@.mode is Normal ==> !(action is Input),
            action matches Action::Line(d) ==> d is Up || d is Down,
        ensures
            final(self)@ == spec_apply(old(self)@, action),
            r == spec_effect(old(self)@, action),
    {
        let ghost pre = self@;
        let cursor = self.cursor();
        let mode = self.mode;
        let r = match (action, mode) {
            (Action::Move(direction), _) => {
                self.handle_cursor_movment(direction);
                Effect::Nothing
            },
            (Action::Quit, _) => Effect::Quit,
            (Action::Change(m, Some(direction)), _) => {
                self.mode = m;
                self.handle_cursor_movment(direction);
                Effect::Nothing
            },
            (Action::Change(m, None), _) => {
                self.mode = m;
                Effect::Nothing
            },
            (Action::Delete, Mode::Insert) if cursor.x == 0 && cursor.y > 0 => {
                self.handle_cursor_movment(Direction::Up);
                self.move_cursor_end_of_the_line();
                if let Some(buf) = self.current_buf_mut() {
                    buf.concat_lines(cursor.y, cursor.y - 1);
                    Effect::RedrawShrunk
                } else {
                    Effect::Nothing
                }
            },
            (Action::Delete, Mode::Insert) if cursor.x > 0 => {
                if let Some(buf) = self.current_buf_mut() {
                    buf.delete_at(Some(Direction::Left));
                    self.handle_cursor_movment(Direction::Left);
                    Effect::Redraw
                } else {
                    Effect::Nothing
                }
            },
            (Action::Delete, _) => Effect::Nothing,
            (Action::Input(ch), Mode::Insert) => {
                if let Some(buf) = self.current_buf_mut() {
                    buf.insert_at(ch);
                    self.handle_cursor_movment(Direction::Right);
                    Effect::Redraw
                } else {
                    Effect::Nothing
                }
            },
            (Action::Input(_), _) => Effect::Nothing,
            (Action::Line(direction), Mode::Normal) => {
                if let Some(buf) = self.current_buf_mut() {
                    match direction {
                        Direction::Up => {
                            buf.new_line(cursor.y);
                            buf.move_cursor_start_of_the_line();
                        },
                        Direction::Down => {
                            let h = buf.height();
                            if cursor.y < h {
                                buf.new_line(cursor.y + 1);
                            }
                            self.handle_cursor_movment(Direction::Down);
                        },
                        _ => {},
                    }
                    self.mode = Mode::Insert;
                    Effect::Redraw
                } else {
                    Effect::Nothing
                }
            },
            (Action::Line(direction), Mode::Insert) => {
                if let Some(buf) = self.current_buf_mut() {
                    match direction {
                        Direction::Up => {
                            buf.break_line();
                            buf.move_cursor_start_of_the_line();
                        },
                        Direction::Down => {
                            buf.break_line();
                            self.handle_cursor_movment(Direction::Down);
                            self.move_cursor_start_of_the_line();
                        },
                        _ => {},
                    }
                    self.mode = Mode::Insert;
                    Effect::Redraw
                } else {
                    Effect::Nothing
                }
            },
            (Action::DeleteLine, Mode::Normal) => {
                if let Some(buf) = self.current_buf_mut() {
                    buf.delete_line(cursor.y);
                    self.handle_cursor_movment(Direction::Up);
                    Effect::RedrawShrunk
                } else {
                    Effect::Nothing
                }
            },
            (Action::DeleteLine, _) => Effect::Nothing,
        };
        proof {
            assert(self@ =~~= spec_apply(pre, action));
        }
        r
    }

    /// Process one raw key event: resolve it against the current mode's
    /// table and dispatch the resulting action, if any. This is the whole
    /// per-event work of the dispatch loop; the caller only performs the
    /// returned rendering effect and reads the next event.
    ///
    /// Preserves the editor invariant: from any state where the cursor is
    /// well-formed for the current mode, it still is afterwards, whatever
    /// the key.
    pub fn step(&mut self, event: KeyEvent) -> (r: Effect)
        ensures
            final(self)@ == spec_step(old(self)@, event).0,
            r == spec_step(old(self)@, event).1,
            old(self)@.inv() ==> final(self)@.inv(),
    {
        let ghost pre = self@;
        let action = match self.mode {
            Mode::Normal => Normal::handle(event),
            Mode::Insert => Insert::handle(event),
        };
        match action {
            Some(action) => {
                proof {
                    if pre.inv() {
                        lemma_apply_inv(pre, action);
                    }
                }
                self.apply_action(action)
            },
            None => Effect::Nothing,
        }
    }
}

/// Mode-transition idempotence: switching to `Insert` with no nudge while
/// already in `Insert` mode changes nothing — neither the state nor what
/// the renderer is asked to do.
pub proof fn lemma_change_to_insert_idempotent(e: EdView)
    requires
        e.mode is Insert,
    ensures
        spec_apply(e, Action::Change(Mode::Insert, None)) == e,
        spec_effect(e, Action::Change(Mode::Insert, None)) == Effect::Nothing,
{
    assert(spec_apply(e, Action::Change(Mode::Insert, None)) =~~= e);
}

/// Dispatch preserves the editor invariant for every action the resolvers
/// can produce. The one action outside that image that could break it is a
/// bare switch back to `Normal` (it shrinks the column bound without
/// re-clamping); the resolvers always pair that switch with a leftward
/// nudge.
proof fn lemma_apply_inv(e: EdView, action: Action)
    requires
        e.inv(),
        action matches Action::Change(m, None) ==> m is Insert,
    ensures
        spec_apply(e, action).inv(),
{
    let b = e.cur();
    assert(b.wf(Mode::Insert));
    match action {
        Action::Move(d) => {
            lemma_move_wf(b, e.mode, d);
        },
        Action::Quit => {},
        Action::Change(m, od) => {
            match od {
                Some(d) => {
                    lemma_move_wf(b, m, d);
                },
                None => {},
            }
        },
        Action::Delete => {
            if e.mode is Insert && e.cx() == 0 && e.cy() > 0 {
                let y = b.y as int;
                let b2 = spec_move(b, e.mode, Direction::Up);
                lemma_move_wf(b, e.mode, Direction::Up);
                let b3 = spec_move_end(b2);
                let b4 = spec_concat_lines(b3, y, y - 1);
                assert(b2.y == y - 1 && b2.lines == b.lines);
                assert(b3.x == b.lines[y - 1].len());
                let rest = b.lines.remove(y);
                assert(rest[y - 1] == b.lines[y - 1]);
                assert(b4.lines == rest.update(y - 1, rest[y - 1] + b.lines[y]));
                assert(b4.wf(Mode::Insert));
            } else if e.mode is Insert && e.cx() > 0 {
                // When the cursor sits on the end-of-line slot, it hangs
                // one past the shortened row until the leftward step.
                let b2 = spec_delete_at(b, Some(Direction::Left));
                let b3 = spec_move(b2, e.mode, Direction::Left);
                let w = b.lines[b.y as int].len();
                assert(b2.lines[b.y as int].len() == w - 1);
                assert(b3.x == b.x - 1);
                assert(b3.wf(Mode::Insert));
            }
        },
        Action::Input(ch) => {
            if e.mode is Insert && e.has_buf() {
                let b2 = spec_insert_at(b, ch);
                assert(b2.wf(Mode::Insert));
                lemma_move_wf(b2, e.mode, Direction::Right);
            }
        },
        Action::Line(d) => {
            if e.has_buf() {
                match e.mode {
                    Mode::Normal => match d {
                        Direction::Up => {
                            let b2 = spec_new_line(b, b.y as int);
                            assert(spec_move_start(b2).wf(Mode::Insert));
                        },
                        Direction::Down => {
                            let b2 = spec_new_line(b, b.y as int + 1);
                            assert(b2.lines[b.y as int + 1].len() == 0);
                            assert(spec_move(b2, e.mode, Direction::Down).wf(Mode::Insert));
                        },
                        _ => {},
                    },
                    Mode::Insert => match d {
                        Direction::Up => {
                            let b2 = spec_break_line(b);
                            assert(spec_move_start(b2).wf(Mode::Insert));
                        },
                        Direction::Down => {
                            let b2 = spec_break_line(b);
                            let b3 = spec_move(b2, e.mode, Direction::Down);
                            assert(b3.y == b.y + 1 && b3.lines.len() == b.lines.len() + 1);
                            assert(spec_move_start(b3).wf(Mode::Insert));
                        },
                        _ => {},
                    },
                }
            }
        },
        Action::DeleteLine => {
            if e.mode is Normal && e.has_buf() {
                let b2 = spec_delete_line(b, b.y as int);
                let b3 = spec_move(b2, e.mode, Direction::Up);
                assert(b2.lines.len() >= 1);
                assert(b3.y < b2.lines.len());
                assert(b3.wf(e.mode));
            }
        },
    }
}

} // verus!

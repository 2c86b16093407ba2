use vstd::prelude::*;

use crate::editor::{Cursor, Direction, Mode};

verus! {

/// Mathematical model of a `Buffer`: the rows as sequences of characters,
/// the optional name, and the cursor coordinates.
#[verifier::ext_equal]
pub ghost struct BufView {
    pub name: Option<Seq<char>>,
    pub lines: Seq<Seq<char>>,
    pub x: nat,
    pub y: nat,
}

impl BufView {
    pub open spec fn height(self) -> nat {
        self.lines.len()
    }

    /// Width of row `i`; rows outside the buffer count as empty.
    pub open spec fn width(self, i: int) -> nat {
        if 0 <= i < self.lines.len() {
            self.lines[i].len()
        } else {
            0
        }
    }

    /// The largest column the cursor may rest on in the given mode: on the
    /// last character in `Normal` (column 0 when the row is empty), one past
    /// it — the end-of-line insertion slot — in `Insert`.
    pub open spec fn x_bound(self, mode: Mode) -> nat {
        let w = self.width(self.y as int);
        match mode {
            Mode::Insert => w,
            Mode::Normal => if w == 0 {
                0
            } else {
                (w - 1) as nat
            },
        }
    }

    /// Cursor well-formedness: the cursor rests on an existing row and
    /// within the mode-specific column bound.
    pub open spec fn wf(self, mode: Mode) -> bool {
        &&& self.y < self.height()
        &&& self.x <= self.x_bound(mode)
    }
}

/// Result of inserting `ch` at the cursor: the cursor's row gains the
/// character at column `x`. A cursor outside the buffer, or past the
/// end-of-line insertion slot, leaves the buffer unchanged.
pub open spec fn spec_insert_at(b: BufView, ch: char) -> BufView {
    if b.y < b.lines.len() && b.x <= b.lines[b.y as int].len() {
        BufView { lines: b.lines.update(b.y as int, b.lines[b.y as int].insert(b.x as int, ch)), ..b }
    } else {
        b
    }
}

/// Result of inserting an empty row at index `at`, shifting later rows
/// down by one; valid for `at` up to and including the row count, a no-op
/// past it.
pub open spec fn spec_new_line(b: BufView, at: int) -> BufView {
    if 0 <= at <= b.lines.len() {
        BufView { lines: b.lines.insert(at, Seq::empty()), ..b }
    } else {
        b
    }
}

/// Result of splitting the cursor's row at column `x`: the text left of
/// `x` stays on row `y`, the text at and right of `x` becomes a new row at
/// `y + 1`. A cursor outside the buffer or past the end of its row leaves
/// the buffer unchanged.
pub open spec fn spec_break_line(b: BufView) -> BufView {
    if b.y < b.lines.len() && b.x <= b.lines[b.y as int].len() {
        let row = b.lines[b.y as int];
        BufView {
            lines: b.lines.update(b.y as int, row.take(b.x as int)).insert(
                b.y as int + 1,
                row.skip(b.x as int),
            ),
            ..b
        }
    } else {
        b
    }
}

/// The fixed two-line seed buffer, as a model value.
pub open spec fn spec_mock() -> BufView {
    BufView { name: None, lines: seq!["Hello"@, "Hi"@], x: 0, y: 0 }
}

/// Deletion target for `spec_delete_at`: the cursor shifted one step along
/// the given direction's axis (`Up` one row up, `Left` one column left, and
/// so on), or the cursor itself when no direction is given.
pub open spec fn spec_delete_target(x: nat, y: nat, direction: Option<Direction>) -> (int, int) {
    match direction {
        Some(Direction::Up) => (x as int, y - 1),
        Some(Direction::Down) => (x as int, y as int + 1),
        Some(Direction::Left) => (x - 1, y as int),
        Some(Direction::Right) => (x as int + 1, y as int),
        None => (x as int, y as int),
    }
}

/// Result of removing the single character at the deletion target. A target
/// outside the buffer, or at or past the end of its row, leaves the buffer
/// unchanged.
pub open spec fn spec_delete_at(b: BufView, direction: Option<Direction>) -> BufView {
    let (tx, ty) = spec_delete_target(b.x, b.y, direction);
    if 0 <= ty < b.lines.len() && 0 <= tx < b.lines[ty].len() {
        BufView { lines: b.lines.update(ty, b.lines[ty].remove(tx)), ..b }
    } else {
        b
    }
}

/// Result of removing row `l1` and appending its text onto what row `l2`
/// denotes once `l1` is gone. A no-op when `l1` does not exist; when only
/// `l2` does not exist (after the removal), row `l1` is removed and its
/// text is dropped.
pub open spec fn spec_concat_lines(b: BufView, l1: int, l2: int) -> BufView {
    if 0 <= l1 < b.lines.len() {
        let moved = b.lines[l1];
        let rest = b.lines.remove(l1);
        if 0 <= l2 < rest.len() {
            BufView { lines: rest.update(l2, rest[l2] + moved), ..b }
        } else {
            BufView { lines: rest, ..b }
        }
    } else {
        b
    }
}

/// Result of removing row `line` entirely. A buffer is never left with
/// zero rows: deleting the only row leaves a single empty row. A no-op
/// when the row does not exist.
pub open spec fn spec_delete_line(b: BufView, line: int) -> BufView {
    if 0 <= line < b.lines.len() {
        let rest = b.lines.remove(line);
        if rest.len() == 0 {
            BufView { lines: seq![Seq::empty()], ..b }
        } else {
            BufView { lines: rest, ..b }
        }
    } else {
        b
    }
}

/// Result of setting the cursor column to 0.
pub open spec fn spec_move_start(b: BufView) -> BufView {
    BufView { x: 0, ..b }
}

/// Result of setting the cursor column to the width of the cursor's row —
/// the end-of-line insertion slot (0 when the cursor is outside the
/// buffer).
pub open spec fn spec_move_end(b: BufView) -> BufView {
    BufView { x: b.width(b.y as int), ..b }
}

/// The single cursor-clamping algorithm. `Up` and `Down` step to the
/// neighbouring row, clamped to the buffer, and pull the column back onto
/// the target row (to its last character, column 0 when it is empty).
/// `Left` steps one column left, stopping at 0. `Right` steps one column
/// right, clamped to the mode bound: the last character in `Normal`, the
/// end-of-line slot in `Insert`. Rows outside the buffer count as empty.
pub open spec fn spec_move(b: BufView, mode: Mode, direction: Direction) -> BufView {
    match direction {
        Direction::Up => {
            let ty = if b.y == 0 {
                0
            } else {
                b.y - 1
            };
            let w = b.width(ty);
            let bound: int = if w == 0 {
                0
            } else {
                w - 1
            };
            BufView { x: (if bound < b.x { bound } else { b.x as int }) as nat, y: ty as nat, ..b }
        },
        Direction::Down => {
            let last: int = if b.lines.len() == 0 {
                0
            } else {
                b.lines.len() - 1
            };
            let ty: int = if b.y as int + 1 < last {
                b.y as int + 1
            } else {
                last
            };
            let w = b.width(ty);
            let bound: int = if w == 0 {
                0
            } else {
                w - 1
            };
            BufView { x: (if bound < b.x { bound } else { b.x as int }) as nat, y: ty as nat, ..b }
        },
        Direction::Left => {
            BufView { x: (if b.x > 0 { b.x - 1 } else { 0 }) as nat, ..b }
        },
        Direction::Right => {
            let bound = b.x_bound(mode);
            BufView {
                x: (if b.x as int + 1 < bound { b.x as int + 1 } else { bound as int }) as nat,
                ..b
            }
        },
    }
}

/// Clamped movement repairs the cursor: whenever the cursor rests on an
/// existing row, no further past its end than the end-of-line slot, one
/// step in any direction lands it within the bound of the mode the step
/// was clamped for — whatever mode the starting position was valid for.
/// The text and name are untouched.
pub proof fn lemma_move_wf(b: BufView, mode: Mode, direction: Direction)
    requires
        b.wf(Mode::Insert),
    ensures
        spec_move(b, mode, direction).wf(mode),
        spec_move(b, mode, direction).lines == b.lines,
        spec_move(b, mode, direction).name == b.name,
{
}

/// Split/join round-trip: breaking a row at the cursor column and then
/// joining the two resulting rows (removing the lower one and appending it
/// onto the upper) reproduces the buffer exactly, cursor included.
pub proof fn lemma_break_then_concat_restores(b: BufView)
    requires
        b.y < b.lines.len(),
        b.x <= b.lines[b.y as int].len(),
    ensures
        spec_concat_lines(spec_break_line(b), b.y as int + 1, b.y as int) == b,
{
    let y = b.y as int;
    let x = b.x as int;
    let row = b.lines[y];
    let broken = spec_break_line(b);
    assert(broken.lines[y + 1] =~= row.skip(x));
    assert(broken.lines.remove(y + 1) =~= b.lines.update(y, row.take(x)));
    assert(row.take(x) + row.skip(x) =~= row);
    assert(spec_concat_lines(broken, y + 1, y) =~~= b);
}

/// Insert/delete inverse: inserting a character at the cursor and then
/// deleting at the very same position restores the buffer exactly.
pub proof fn lemma_insert_then_delete_restores(b: BufView, ch: char)
    requires
        b.y < b.lines.len(),
        b.x <= b.lines[b.y as int].len(),
    ensures
        spec_delete_at(spec_insert_at(b, ch), None) == b,
{
    let y = b.y as int;
    let x = b.x as int;
    let row = b.lines[y];
    let b2 = spec_insert_at(b, ch);
    assert(b2.lines[y] == row.insert(x, ch));
    assert(row.insert(x, ch).remove(x) =~= row);
    assert(spec_delete_at(b2, None) =~~= b);
}

/// Right-motion boundary in `Normal` mode: one rightward step never takes
/// the cursor past the last character of its row, and on an empty row it
/// pins the cursor to column 0 — so repeated steps do the same.
pub proof fn lemma_move_right_bounded(b: BufView)
    ensures
        spec_move(b, Mode::Normal, Direction::Right).y == b.y,
        spec_move(b, Mode::Normal, Direction::Right).lines == b.lines,
        b.width(b.y as int) > 0 ==> spec_move(b, Mode::Normal, Direction::Right).x + 1
            <= b.width(b.y as int),
        b.width(b.y as int) == 0 ==> spec_move(b, Mode::Normal, Direction::Right).x == 0,
{
}

/// An in-memory mutable text document: ordered rows of characters, an
/// optional path-like name (carried, never resolved to any file), and its
/// own cursor.
pub struct Buffer {
    pub name: Option<String>,
    pub content: Vec<Vec<char>>,
    pub cursor: Cursor,
}

impl View for Buffer {
    type V = BufView;

    open spec fn view(&self) -> BufView {
        BufView {
            name: match self.name {
                Some(s) => Some(s@),
                None => None,
            },
            lines: Seq::new(self.content@.len(), |i: int| self.content@[i]@),
            x: self.cursor.x as nat,
            y: self.cursor.y as nat,
        }
    }
}

impl Buffer {
    /// The fixed two-line seed buffer used to bootstrap the editor.
    pub fn mock() -> (r: Self)
        ensures
            r@ == spec_mock(),
    {
        let mut first: Vec<char> = Vec::new();
        first.push('H');
        first.push('e');
        first.push('l');
        first.push('l');
        first.push('o');
        let mut second: Vec<char> = Vec::new();
        second.push('H');
        second.push('i');
        let mut content: Vec<Vec<char>> = Vec::new();
        content.push(first);
        content.push(second);
        let r = Self { name: None, content, cursor: Cursor::new(0, 0) };
        proof {
            reveal_strlit("Hello");
            reveal_strlit("Hi");
            assert(r@ =~~= spec_mock());
        }
        r
    }

    /// Width (character count) of row `line`, or `None` when the row does
    /// not exist.
    pub fn line_width(&self, line: usize) -> (r: Option<usize>)
        ensures
            r is Some <==> line < self@.height(),
            r matches Some(w) ==> w == self@.lines[line as int].len(),
    {
        if line < self.content.len() {
            Some(self.content[line].len())
        } else {
            None
        }
    }

    /// Width of the cursor's row.
    pub fn current_line_width(&self) -> (r: Option<usize>)
        ensures
            r is Some <==> self@.y < self@.height(),
            r matches Some(w) ==> w == self@.lines[self@.y as int].len(),
    {
        self.line_width(self.cursor.y)
    }

    /// Number of rows.
    pub fn height(&self) -> (r: usize)
        ensures
            r == self@.height(),
    {
        self.content.len()
    }

    /// Insert `ch` at column `cursor.x` of row `cursor.y`. A no-op when the
    /// cursor is outside the buffer or past the end-of-line slot. Does not
    /// move the cursor: repositioning is the caller's responsibility.
    pub fn insert_at(&mut self, ch: char)
        ensures
            final(self)@ == spec_insert_at(old(self)@, ch),
    {
        let Cursor { x, y } = self.cursor;
        let ghost pre = self@;
        if y < self.content.len() {
            let line = &mut self.content[y];
            if x <= line.len() {
                line.insert(x, ch);
            }
        }
        proof {
            assert(self@ =~~= spec_insert_at(pre, ch));
        }
    }

    /// Insert an empty row at index `at`, shifting later rows down by one.
    /// A no-op when `at` is past the row count.
    pub fn new_line(&mut self, at: usize)
        ensures
            final(self)@ == spec_new_line(old(self)@, at as int),
    {
        let ghost pre = self@;
        if at <= self.content.len() {
            self.content.insert(at, Vec::new());
        }
        proof {
            assert(self@ =~~= spec_new_line(pre, at as int));
        }
    }

    /// Split the cursor's row at column `cursor.x`: the text left of the
    /// cursor stays on its row, the rest becomes a new row right below. A
    /// no-op when the cursor is outside the buffer or past the end of its
    /// row. The cursor itself does not move.
    pub fn break_line(&mut self)
        ensures
            final(self)@ == spec_break_line(old(self)@),
    {
        let Cursor { x, y } = self.cursor;
        let ghost pre = self@;
        if y < self.content.len() {
            let line = &mut self.content[y];
            if x <= line.len() {
                let rest = line.split_off(x);
                self.content.insert(y + 1, rest);
            }
        }
        proof {
            assert(self@ =~~= spec_break_line(pre));
        }
    }

    /// Remove one character at the cursor shifted one step along
    /// `direction` (`Up`: the row above, `Left`: the column to the left,
    /// and so on; no direction: the cursor itself). A no-op when the target
    /// falls outside the buffer or its row.
    pub fn delete_at(&mut self, direction: Option<Direction>)
        ensures
            final(self)@ == spec_delete_at(old(self)@, direction),
    {
        let Cursor { x, y } = self.cursor;
        let ghost pre = self@;
        let h = self.content.len();
        let target: Option<(usize, usize)> = match direction {
            Some(Direction::Up) => if y > 0 {
                Some((x, y - 1))
            } else {
                None
            },
            Some(Direction::Down) => if y < h {
                Some((x, y + 1))
            } else {
                None
            },
            Some(Direction::Left) => if x > 0 {
                Some((x - 1, y))
            } else {
                None
            },
            Some(Direction::Right) => if y < h && x < self.content[y].len() {
                Some((x + 1, y))
            } else {
                None
            },
            None => Some((x, y)),
        };
        if let Some((tx, ty)) = target {
            if ty < self.content.len() {
                let line = &mut self.content[ty];
                if tx < line.len() {
                    line.remove(tx);
                }
            }
        }
        proof {
            assert(self@ =~~= spec_delete_at(pre, direction));
        }
    }

    /// Remove row `l1` and append its text onto row `l2` (an index into
    /// the buffer as it stands after the removal). Used to join a line
    /// onto the end of its predecessor. A no-op when `l1` does not exist;
    /// when only `l2` does not, the removed text is dropped.
    pub fn concat_lines(&mut self, l1: usize, l2: usize)
        ensures
            final(self)@ == spec_concat_lines(old(self)@, l1 as int, l2 as int),
    {
        let ghost pre = self@;
        if l1 < self.content.len() {
            let mut moved = self.content.remove(l1);
            if l2 < self.content.len() {
                let line = &mut self.content[l2];
                line.append(&mut moved);
            }
        }
        proof {
            assert(self@ =~~= spec_concat_lines(pre, l1 as int, l2 as int));
        }
    }

    /// Remove row `line` entirely; a no-op when it does not exist. A
    /// buffer never drops to zero rows: deleting the only row leaves a
    /// single empty row.
    pub fn delete_line(&mut self, line: usize)
        ensures
            final(self)@ == spec_delete_line(old(self)@, line as int),
    {
        let ghost pre = self@;
        if line < self.content.len() {
            self.content.remove(line);
            if self.content.len() == 0 {
                self.content.push(Vec::new());
            }
        }
        proof {
            assert(self@ =~~= spec_delete_line(pre, line as int));
        }
    }

    /// Set the cursor column to 0.
    pub fn move_cursor_start_of_the_line(&mut self)
        ensures
            final(self)@ == spec_move_start(old(self)@),
    {
        let ghost pre = self@;
        self.cursor.x = 0;
        proof {
            assert(self@ =~~= spec_move_start(pre));
        }
    }

    /// Set the cursor column to the end-of-line insertion slot of the
    /// cursor's row (0 when the cursor is outside the buffer).
    pub fn move_cursor_end_of_the_line(&mut self)
        ensures
            final(self)@ == spec_move_end(old(self)@),
    {
        let ghost pre = self@;
        self.cursor.x = match self.current_line_width() {
            Some(w) => w,
            None => 0,
        };
        proof {
            assert(self@ =~~= spec_move_end(pre));
        }
    }

    /// Move the cursor one step in `direction`, clamping it to the buffer
    /// and to the mode-specific column bound (see [`spec_move`]).
    pub fn handle_cursor_movment(&mut self, mode: Mode, direction: Direction)
        ensures
            final(self)@ == spec_move(old(self)@, mode, direction),
    {
        let ghost pre = self@;
        match direction {
            Direction::Up => {
                let line = if self.cursor.y > 0 {
                    self.cursor.y - 1
                } else {
                    0
                };
                let width = match self.line_width(line) {
                    Some(w) => w,
                    None => 0,
                };
                let bound = if width > 0 {
                    width - 1
                } else {
                    0
                };
                self.cursor.y = line;
                if self.cursor.x > bound {
                    self.cursor.x = bound;
                }
            },
            Direction::Down => {
                let h = self.height();
                let last = if h > 0 {
                    h - 1
                } else {
                    0
                };
                let line = if self.cursor.y < last {
                    self.cursor.y + 1
                } else {
                    last
                };
                let width = match self.line_width(line) {
                    Some(w) => w,
                    None => 0,
                };
                let bound = if width > 0 {
                    width - 1
                } else {
                    0
                };
                self.cursor.y = line;
                if self.cursor.x > bound {
                    self.cursor.x = bound;
                }
            },
            Direction::Left => {
                if self.cursor.x > 0 {
                    self.cursor.x = self.cursor.x - 1;
                }
            },
            Direction::Right => {
                let width = match self.current_line_width() {
                    Some(w) => w,
                    None => 0,
                };
                let bound = match mode {
                    Mode::Normal => if width > 0 {
                        width - 1
                    } else {
                        0
                    },
                    Mode::Insert => width,
                };
                if self.cursor.x < bound {
                    self.cursor.x = self.cursor.x + 1;
                } else {
                    self.cursor.x = bound;
                }
            },
        }
        proof {
            assert(self@ =~~= spec_move(pre, mode, direction));
        }
    }
}

} // verus!

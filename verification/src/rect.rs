//! The movable entity: a small rectangular glyph whose position is kept
//! inside a screen extent by clamping movement commands, and which is
//! repainted only when its position has changed since the last render.

use vstd::prelude::*;

verus! {

/// Which of the entity's two glyphs a paint operation writes.
#[derive(Clone, Copy, PartialEq, Eq, Structural, Debug)]
pub enum GlyphKind {
    /// The occupied glyph: the entity's body.
    Occupied,
    /// The empty glyph: blanks the cell the entity left.
    Empty,
}

/// One paint operation: write the named glyph with the cursor at `(x, y)`.
#[derive(Clone, Copy, PartialEq, Eq, Structural, Debug)]
pub struct PaintOp {
    pub x: u16,
    pub y: u16,
    pub glyph: GlyphKind,
}

/// The movable entity. `(x, y)` is the current position, and
/// `(previous_x, previous_y)` the last-rendered one; they differ exactly
/// when a redraw is owed. `body` is painted at the position, `placeholder`
/// erases the cell left behind.
pub struct Rectangle {
    pub x: u16,
    pub y: u16,
    pub body: String,
    pub placeholder: String,
    pub previous_x: u16,
    pub previous_y: u16,
}

/// The position lies inside an extent of `width` columns and `height` rows.
pub open spec fn in_bounds(r: Rectangle, width: u16, height: u16) -> bool {
    r.x < width && r.y < height
}

/// The result of one up command: decrement `y` unless already at row 0.
pub open spec fn moved_up(r: Rectangle) -> Rectangle {
    if r.y > 0 {
        Rectangle { y: (r.y - 1) as u16, ..r }
    } else {
        r
    }
}

/// The result of one down command: increment `y` unless it is already
/// `height - 1` or more, so the position never passes the bottom border
/// row `height - 1`, though it may rest on it.
pub open spec fn moved_down(r: Rectangle, height: u16) -> Rectangle {
    if r.y < height - 1 {
        Rectangle { y: (r.y + 1) as u16, ..r }
    } else {
        r
    }
}

/// The result of one left command: decrement `x` unless already at column 0.
pub open spec fn moved_left(r: Rectangle) -> Rectangle {
    if r.x > 0 {
        Rectangle { x: (r.x - 1) as u16, ..r }
    } else {
        r
    }
}

/// The result of one right command: increment `x` unless it is already
/// `width - 1` or more, so the position never passes the rightmost border
/// column `width - 1`, though it may rest on it.
pub open spec fn moved_right(r: Rectangle, width: u16) -> Rectangle {
    if r.x < width - 1 {
        Rectangle { x: (r.x + 1) as u16, ..r }
    } else {
        r
    }
}

/// A discrete directional movement command.
#[derive(Clone, Copy, PartialEq, Eq, Structural, Debug)]
pub enum Command {
    Up,
    Down,
    Left,
    Right,
}

/// The result of one movement command on the entity, within an extent of
/// `width` columns and `height` rows.
pub open spec fn apply_command(r: Rectangle, c: Command, width: u16, height: u16) -> Rectangle {
    match c {
        Command::Up => moved_up(r),
        Command::Down => moved_down(r, height),
        Command::Left => moved_left(r),
        Command::Right => moved_right(r, width),
    }
}

/// The result of a whole sequence of movement commands, applied in order.
pub open spec fn apply_commands(r: Rectangle, cs: Seq<Command>, width: u16, height: u16) -> Rectangle
    decreases cs.len(),
{
    if cs.len() == 0 {
        r
    } else {
        apply_commands(apply_command(r, cs[0], width, height), cs.drop_first(), width, height)
    }
}

/// One movement command keeps the position inside the extent.
pub proof fn lemma_command_stays_in_bounds(r: Rectangle, c: Command, width: u16, height: u16)
    requires
        width >= 1,
        height >= 1,
        in_bounds(r, width, height),
    ensures
        in_bounds(apply_command(r, c, width, height), width, height),
{
}

/// Boundary clamping never produces an out-of-range coordinate: under any
/// sequence of movement commands the position stays inside the extent at
/// every step, that is, after every prefix of the sequence.
pub proof fn lemma_commands_stay_in_bounds(r: Rectangle, cs: Seq<Command>, width: u16, height: u16)
    requires
        width >= 1,
        height >= 1,
        in_bounds(r, width, height),
    ensures
        forall|i: int|
            0 <= i <= cs.len() ==> in_bounds(
                apply_commands(r, cs.take(i), width, height),
                width,
                height,
            ),
        in_bounds(apply_commands(r, cs, width, height), width, height),
    decreases cs.len(),
{
    assert(cs.take(cs.len() as int) =~= cs);
    if cs.len() == 0 {
        assert forall|i: int|
            0 <= i <= cs.len() implies in_bounds(
            apply_commands(r, cs.take(i), width, height),
            width,
            height,
        ) by {
            assert(cs.take(i).len() == 0);
        }
    } else {
        let r1 = apply_command(r, cs[0], width, height);
        lemma_command_stays_in_bounds(r, cs[0], width, height);
        lemma_commands_stay_in_bounds(r1, cs.drop_first(), width, height);
        assert forall|i: int|
            0 <= i <= cs.len() implies in_bounds(
            apply_commands(r, cs.take(i), width, height),
            width,
            height,
        ) by {
            if i == 0 {
                assert(cs.take(0).len() == 0);
            } else {
                let t = cs.take(i);
                assert(t[0] == cs[0]);
                assert(t.drop_first() =~= cs.drop_first().take(i - 1));
                assert(in_bounds(
                    apply_commands(r1, cs.drop_first().take(i - 1), width, height),
                    width,
                    height,
                ));
            }
        }
    }
}

/// A movement command at its bound is a no-op: once `y` is 0, up leaves the
/// entity unchanged however often it is repeated, and likewise left at
/// column 0, down at row `height - 1`, and right at column `width - 1`.
pub proof fn lemma_moves_idempotent_at_bound(r: Rectangle, width: u16, height: u16)
    ensures
        r.y == 0 ==> moved_up(r) == r,
        r.x == 0 ==> moved_left(r) == r,
        r.y >= height - 1 ==> moved_down(r, height) == r,
        r.x >= width - 1 ==> moved_right(r, width) == r,
{
}

/// The current position equals the last-rendered one, so no redraw is owed.
pub open spec fn at_previous(r: Rectangle) -> bool {
    r.x == r.previous_x && r.y == r.previous_y
}

/// The operation that erases the last-rendered cell.
pub open spec fn erase_op(r: Rectangle) -> PaintOp {
    PaintOp { x: r.previous_x, y: r.previous_y, glyph: GlyphKind::Empty }
}

/// The operation that paints the current cell.
pub open spec fn paint_op(r: Rectangle) -> PaintOp {
    PaintOp { x: r.x, y: r.y, glyph: GlyphKind::Occupied }
}

impl Rectangle {
    /// A fresh entity at `(x, y)` with the given glyphs. The last-rendered
    /// position starts at `(0, 0)`, the "not yet drawn" sentinel.
    pub fn new(x: u16, y: u16, body: &str, placeholder: &str) -> (r: Self)
        ensures
            r.x == x,
            r.y == y,
            r.body@ == body@,
            r.placeholder@ == placeholder@,
            r.previous_x == 0,
            r.previous_y == 0,
    {
        Rectangle {
            x,
            y,
            body: body.to_owned(),
            placeholder: placeholder.to_owned(),
            previous_x: 0,
            previous_y: 0,
        }
    }

    pub fn move_up(&mut self)
        ensures
            *final(self) == moved_up(*old(self)),
    {
        if self.y > 0 {
            self.y = self.y - 1;
        }
    }

    pub fn move_down(&mut self, term_size_y: u16)
        requires
            term_size_y >= 1,
        ensures
            *final(self) == moved_down(*old(self), term_size_y),
    {
        if self.y < term_size_y - 1 {
            self.y = self.y + 1;
        }
    }

    pub fn move_left(&mut self)
        ensures
            *final(self) == moved_left(*old(self)),
    {
        if self.x > 0 {
            self.x = self.x - 1;
        }
    }

    pub fn move_right(&mut self, term_size_x: u16)
        requires
            term_size_x >= 1,
        ensures
            *final(self) == moved_right(*old(self), term_size_x),
    {
        if self.x < term_size_x - 1 {
            self.x = self.x + 1;
        }
    }

    /// The differential redraw, as the paint operations it issues: none when
    /// the position is unchanged since the last render, and exactly two —
    /// erase the old cell, paint the new one — when it changed. Afterwards
    /// the last-rendered position equals the current one.
    pub fn render_if_moved(&mut self) -> (ops: Vec<PaintOp>)
        ensures
            final(self).x == old(self).x,
            final(self).y == old(self).y,
            final(self).body == old(self).body,
            final(self).placeholder == old(self).placeholder,
            final(self).previous_x == old(self).x,
            final(self).previous_y == old(self).y,
            at_previous(*old(self)) ==> ops@ =~= Seq::<PaintOp>::empty(),
            !at_previous(*old(self)) ==> ops@ =~= seq![
                erase_op(*old(self)),
                paint_op(*old(self)),
            ],
    {
        let mut ops: Vec<PaintOp> = Vec::new();
        if self.x == self.previous_x && self.y == self.previous_y {
            return ops;
        }
        ops.push(PaintOp { x: self.previous_x, y: self.previous_y, glyph: GlyphKind::Empty });
        ops.push(PaintOp { x: self.x, y: self.y, glyph: GlyphKind::Occupied });
        self.previous_x = self.x;
        self.previous_y = self.y;
        ops
    }
}

} // verus!

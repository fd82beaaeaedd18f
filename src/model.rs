//! The mathematical model of a coordinator: its rows, the terminal geometry
//! it was given, and the text it has written. Every operation of
//! [`crate::Progress`] is stated as a function on this model.
use vstd::prelude::*;

use crate::layout::{DEFAULT_WIDTH, MIN_LINE_WIDTH, MIN_WIDTH, bar_width, decimal, denominated, fit, label_width, repeat, right_align};

verus! {

/// The state of one bar's row.
pub struct RowView {
    /// Progress so far; may exceed the target.
    pub current: nat,
    /// The value at which the bar is complete.
    pub target: nat,
    /// The text at the left of the line.
    pub label: Seq<char>,
    /// The percentage shown by the most recent redraw.
    pub last_percent: nat,
    /// Whether the bar was cancelled; never reset.
    pub cancelled: bool,
}

/// The state of a coordinator.
pub struct ProgressView {
    /// The rows in creation order, topmost first.
    pub rows: Seq<RowView>,
    /// Terminal width and height, when known.
    pub geometry: Option<(nat, nat)>,
    /// Text written and not yet taken out.
    pub output: Seq<char>,
    /// How much of `output`, from its start, has been flushed.
    pub flushed: nat,
}

/// The whole percentage of a row's progress, rounded down, not capped.
pub open spec fn percent(row: RowView) -> nat {
    100 * row.current / row.target
}

/// Whether a row has reached its target.
pub open spec fn is_complete(row: RowView) -> bool {
    row.current >= row.target
}

/// Cells of a fill field `w` wide that an unfinished row fills before the
/// `>` marker.
pub open spec fn filled_cells(row: RowView, w: nat) -> nat {
    let f = w * row.current / row.target;
    if f < w - 1 {
        f
    } else {
        (w - 1) as nat
    }
}

/// Label, magnitude and opening bracket of a row's line.
pub open spec fn line_head(row: RowView, term_width: nat) -> Seq<char> {
    let d = denominated(row.current);
    fit(row.label, label_width(term_width)) + seq![' '] + right_align(decimal(d.0), 3) + seq![
        d.1,
        ' ',
        '[',
    ]
}

/// The fill field, closing bracket and percentage of a row's line.
pub open spec fn line_tail(row: RowView, term_width: nat) -> Seq<char> {
    let w = bar_width(term_width);
    if row.cancelled {
        repeat('_', w) + seq![']', ' ', '?', '?', '?', ' ']
    } else if is_complete(row) {
        repeat('#', w) + seq![']', ' ', '1', '0', '0', '%']
    } else {
        let f = filled_cells(row, w);
        repeat('#', f) + seq!['>'] + repeat('-', (w - 1 - f) as nat) + seq![']', ' ']
            + right_align(decimal(percent(row)), 3) + seq!['%']
    }
}

/// The text of a row's line on a terminal `term_width` wide.
pub open spec fn row_line(row: RowView, term_width: nat) -> Seq<char> {
    line_head(row, term_width) + line_tail(row, term_width)
}

/// The line printed when a bar is created: its label and an empty field at 0%.
pub open spec fn first_line(label: Seq<char>, term_width: nat) -> Seq<char> {
    fit(label, label_width(term_width)) + repeat(' ', 6) + seq!['['] + repeat(
        '-',
        bar_width(term_width),
    ) + seq![']', ' ', ' ', ' ', '0', '%', '\n']
}

/// Save the cursor, move it up `offset` lines, print `line`, restore the cursor.
pub open spec fn redraw_in_place(offset: nat, line: Seq<char>) -> Seq<char> {
    seq!['\x1B', '[', 's', '\x1B', '['] + decimal(offset) + seq!['A', '\r'] + line + seq![
        '\x1B',
        '[',
        'u',
        '\r',
    ]
}

/// Move the cursor up `lines` lines and erase that line.
pub open spec fn clear_above(lines: nat) -> Seq<char> {
    seq!['\x1B', '['] + decimal(lines) + seq!['A', '\x1B', '[', '2', 'K', '\r']
}

/// A fresh row.
pub open spec fn new_row(target: nat, label: Seq<char>) -> RowView {
    RowView { current: 0, target, label, last_percent: 0, cancelled: false }
}

impl ProgressView {
    /// A coordinator with no rows and no text, on a terminal of the given
    /// geometry.
    pub open spec fn empty(geometry: Option<(nat, nat)>) -> ProgressView {
        ProgressView { rows: Seq::empty(), geometry, output: Seq::empty(), flushed: 0 }
    }

    /// The flushed text is a part of the text written.
    pub open spec fn valid(self) -> bool {
        self.flushed <= self.output.len()
    }

    /// Whether rows can be redrawn: the terminal's size is known and it is
    /// wide enough to lay out a bar line.
    pub open spec fn drawable(self) -> bool {
        self.geometry matches Some((w, _h)) && w >= MIN_WIDTH
    }

    /// The width a new bar's first line is laid out for: the terminal's,
    /// when it is known and has room for the line's fixed parts, else a
    /// default.
    pub open spec fn line_width(self) -> nat {
        match self.geometry {
            Some((w, _h)) => if w >= MIN_LINE_WIDTH {
                w
            } else {
                DEFAULT_WIDTH as nat
            },
            None => DEFAULT_WIDTH as nat,
        }
    }

    /// A draw of row `i` can compute its percentage: the row has a target
    /// above zero, unless rows are not drawn at all.
    pub open spec fn draw_defined(self, i: nat) -> bool {
        self.drawable() ==> self.rows[i as int].target > 0
    }

    /// A repaint of the rows on screen can compute their percentages.
    pub open spec fn repaint_defined(self) -> bool {
        self.drawable() ==> forall|i: int|
            self.first_visible() <= i < self.rows.len() ==> #[trigger] self.rows[i].target > 0
    }

    /// The terminal's width; meaningful when it is known.
    pub open spec fn term_width(self) -> nat {
        let (w, _h) = self.geometry->0;
        w
    }

    /// The terminal's height; meaningful when it is known.
    pub open spec fn term_height(self) -> nat {
        let (_w, h) = self.geometry->0;
        h
    }

    /// `text` appended to the output.
    pub open spec fn write(self, text: Seq<char>) -> ProgressView {
        ProgressView { output: self.output + text, ..self }
    }

    /// Everything written so far flushed.
    pub open spec fn flush(self) -> ProgressView {
        ProgressView { flushed: self.output.len(), ..self }
    }

    /// Lines from the bottom of the stack up to row `i`: one for the last row.
    pub open spec fn offset(self, i: nat) -> nat {
        (self.rows.len() - i) as nat
    }

    /// Whether a draw of row `i` repaints it: rows can be drawn, the row is
    /// still on screen, and its percentage rose by at least one point.
    pub open spec fn redraw_due(self, i: nat) -> bool {
        &&& self.drawable()
        &&& self.offset(i) < self.term_height()
        &&& percent(self.rows[i as int]) >= self.rows[i as int].last_percent + 1
    }

    /// Row `i` recorded as shown at its current percentage.
    pub open spec fn mark_drawn(self, i: nat) -> ProgressView {
        let row = self.rows[i as int];
        ProgressView {
            rows: self.rows.update(i as int, RowView { last_percent: percent(row), ..row }),
            ..self
        }
    }

    /// A draw of row `i` in place, before the flush.
    pub open spec fn redrawn(self, i: nat) -> ProgressView {
        if self.redraw_due(i) {
            self.mark_drawn(i).write(
                redraw_in_place(self.offset(i), row_line(self.rows[i as int], self.term_width())),
            )
        } else {
            self
        }
    }

    /// A draw of row `i`, flushed.
    pub open spec fn drawn(self, i: nat) -> ProgressView {
        self.redrawn(i).flush()
    }

    /// An unconditional repaint of row `i` at the cursor, ending the line.
    /// Nothing is written when rows cannot be drawn.
    pub open spec fn repainted(self, i: nat) -> ProgressView {
        if self.drawable() {
            self.mark_drawn(i).write(row_line(self.rows[i as int], self.term_width()) + seq!['\n'])
        } else {
            self
        }
    }

    /// Rows `from` up to `to` repainted in order.
    pub open spec fn repainted_range(self, from: nat, to: nat) -> ProgressView
        decreases to,
    {
        if to <= from {
            self
        } else {
            self.repainted_range(from, (to - 1) as nat).repainted((to - 1) as nat)
        }
    }

    /// Row `i` with its progress set to `value`.
    pub open spec fn with_value(self, i: nat, value: nat) -> ProgressView {
        let row = self.rows[i as int];
        ProgressView { rows: self.rows.update(i as int, RowView { current: value, ..row }), ..self }
    }

    /// Row `i` with its progress raised by `delta`.
    pub open spec fn with_increment(self, i: nat, delta: nat) -> ProgressView {
        self.with_value(i, self.rows[i as int].current + delta)
    }

    /// A new row appended, with its first line printed and flushed.
    pub open spec fn with_bar(self, target: nat, label: Seq<char>) -> ProgressView {
        ProgressView { rows: self.rows.push(new_row(target, label)), ..self }.write(
            first_line(label, self.line_width()),
        ).flush()
    }

    /// Row `i` cancelled: marked, filled to its target and drawn.
    pub open spec fn cancelled(self, i: nat) -> ProgressView {
        let row = self.rows[i as int];
        let marked = ProgressView {
            rows: self.rows.update(i as int, RowView { cancelled: true, last_percent: 0, ..row }),
            ..self
        };
        marked.with_value(i, row.target).drawn(i)
    }

    /// The first row whose line is still on screen: rows from there down are
    /// less than the terminal height from the bottom.
    pub open spec fn first_visible(self) -> nat {
        match self.geometry {
            Some((_, h)) => if h == 0 {
                self.rows.len()
            } else if self.rows.len() >= h {
                (self.rows.len() + 1 - h) as nat
            } else {
                0
            },
            None => 0,
        }
    }

    /// A log scope opened: the cursor moved to the top row, whose line is
    /// erased. Not flushed.
    pub open spec fn log_opened(self) -> ProgressView {
        self.write(clear_above(self.rows.len()))
    }

    /// A log scope closed: every row on screen repainted below the log text,
    /// then one flush.
    pub open spec fn log_closed(self) -> ProgressView {
        self.repainted_range(self.first_visible(), self.rows.len()).flush()
    }

    /// The flushed text handed out and dropped from the output.
    pub open spec fn output_taken(self) -> ProgressView {
        ProgressView { output: self.output.skip(self.flushed as int), flushed: 0, ..self }
    }
}

} // verus!

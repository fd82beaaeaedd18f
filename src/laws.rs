//! Properties of the coordinator that span several operations, proved over
//! the model that the operations' contracts are stated in.
use vstd::prelude::*;

use crate::layout::{bar_width, decimal, repeat, DEFAULT_WIDTH};
use crate::model::{
    clear_above, first_line, is_complete, line_head, redraw_in_place, row_line, ProgressView,
    RowView,
};

verus! {

/// One change to a row's progress.
pub enum RowUpdate {
    /// `Progress::set` with this value.
    SetTo(nat),
    /// `Progress::inc` by this amount.
    IncreaseBy(nat),
    /// `Progress::draw`.
    Draw,
}

/// The state after applying `updates`, in order, to row `i`.
pub open spec fn apply_updates(v: ProgressView, i: nat, updates: Seq<RowUpdate>) -> ProgressView
    decreases updates.len(),
{
    if updates.len() == 0 {
        v
    } else {
        let before = apply_updates(v, i, updates.drop_last());
        match updates.last() {
            RowUpdate::SetTo(x) => before.with_value(i, x),
            RowUpdate::IncreaseBy(d) => before.with_increment(i, d),
            RowUpdate::Draw => before.drawn(i),
        }
    }
}

/// The progress value that `updates` lead to from `start`.
pub open spec fn value_after(start: nat, updates: Seq<RowUpdate>) -> nat
    decreases updates.len(),
{
    if updates.len() == 0 {
        start
    } else {
        let before = value_after(start, updates.drop_last());
        match updates.last() {
            RowUpdate::SetTo(x) => x,
            RowUpdate::IncreaseBy(d) => before + d,
            RowUpdate::Draw => before,
        }
    }
}

/// Whatever sets, increments and draws a row goes through, its target
/// stays, its progress is the value the sets and increments lead to, and it is complete exactly when that
/// value reaches the target.
pub proof fn lemma_completion_follows_progress(v: ProgressView, i: nat, updates: Seq<RowUpdate>)
    requires
        i < v.rows.len(),
    ensures
        apply_updates(v, i, updates).rows.len() == v.rows.len(),
        apply_updates(v, i, updates).rows[i as int].target == v.rows[i as int].target,
        apply_updates(v, i, updates).rows[i as int].cancelled == v.rows[i as int].cancelled,
        apply_updates(v, i, updates).rows[i as int].current == value_after(
            v.rows[i as int].current,
            updates,
        ),
        is_complete(apply_updates(v, i, updates).rows[i as int]) <==> value_after(
            v.rows[i as int].current,
            updates,
        ) >= v.rows[i as int].target,
    decreases updates.len(),
{
    if updates.len() > 0 {
        lemma_completion_follows_progress(v, i, updates.drop_last());
    }
}

/// Drawing a row a second time, with nothing changed in between, shows
/// nothing new: the percentage it recorded holds the second draw back.
pub proof fn lemma_draw_twice_same_as_once(v: ProgressView, i: nat)
    requires
        v.valid(),
        i < v.rows.len(),
    ensures
        v.drawn(i).drawn(i) == v.drawn(i),
{
    let once = v.drawn(i);
    assert(!once.redraw_due(i));
}

/// Cancelling a row on screen redraws it in place with the cancel fill and
/// `???` for a percentage, and the row stays cancelled whatever sets,
/// increments and draws follow.
pub proof fn lemma_cancel_shows_marker(v: ProgressView, i: nat, later: Seq<RowUpdate>)
    requires
        i < v.rows.len(),
        v.rows[i as int].target > 0,
        v.drawable(),
        v.offset(i) < v.term_height(),
    ensures
        ({
            let c = v.cancelled(i);
            &&& c.rows[i as int].cancelled
            &&& c.output == v.output + redraw_in_place(
                v.offset(i),
                line_head(c.rows[i as int], v.term_width()) + repeat(
                    '_',
                    bar_width(v.term_width()),
                ) + seq![']', ' ', '?', '?', '?', ' '],
            )
            &&& c.flushed == c.output.len()
            &&& apply_updates(c, i, later).rows[i as int].cancelled
        }),
{
    let row = v.rows[i as int];
    assert(100 * row.target / row.target == 100) by (nonlinear_arith)
        requires
            row.target > 0,
    ;
    let c = v.cancelled(i);
    lemma_completion_follows_progress(c, i, later);
}

/// A cancelled row's line shows the cancel fill and `???` in place of a
/// percentage, whether or not its progress reached the target.
pub proof fn lemma_cancelled_line(row: RowView, term_width: nat)
    requires
        row.cancelled,
    ensures
        row_line(row, term_width) == line_head(row, term_width) + repeat(
            '_',
            bar_width(term_width),
        ) + seq![']', ' ', '?', '?', '?', ' '],
{
}

/// With `n` rows, a draw of the top row moves the cursor up `n` lines and a
/// draw of the bottom row moves it up one.
pub proof fn lemma_cursor_offsets(v: ProgressView)
    requires
        v.valid(),
        v.rows.len() > 0,
    ensures
        v.redraw_due(0) ==> v.drawn(0).output == v.output + redraw_in_place(
            v.rows.len(),
            row_line(v.rows[0], v.term_width()),
        ),
        v.redraw_due((v.rows.len() - 1) as nat) ==> v.drawn((v.rows.len() - 1) as nat).output
            == v.output + redraw_in_place(1, row_line(v.rows.last(), v.term_width())),
{
}

/// Opening and closing a log scope with no rows erases the line and repaints
/// nothing.
pub proof fn lemma_empty_log_scope(v: ProgressView)
    requires
        v.valid(),
        v.rows.len() == 0,
    ensures
        v.log_opened().log_closed() == v.write(clear_above(0)).flush(),
        clear_above(0) == seq!['\x1B', '[', '0', 'A', '\x1B', '[', '2', 'K', '\r'],
{
    assert(decimal(0) == seq!['0']);
    assert(clear_above(0) =~= seq!['\x1B', '[', '0', 'A', '\x1B', '[', '2', 'K', '\r']);
}

/// Where rows cannot be drawn (the terminal's size is unknown, or it is too
/// narrow for a bar line) a new bar still prints its first line, laid out
/// for the default width when the size is unknown, but draws and repaints
/// write nothing.
pub proof fn lemma_unknown_geometry_draws_nothing(
    v: ProgressView,
    i: nat,
    target: nat,
    label: Seq<char>,
)
    requires
        !v.drawable(),
        i < v.rows.len(),
    ensures
        v.with_bar(target, label).output == v.output + first_line(label, v.line_width()),
        v.geometry is None ==> v.line_width() == DEFAULT_WIDTH,
        v.drawn(i) == v.flush(),
        v.repainted(i) == v,
        v.log_opened().log_closed() == v.log_opened().flush(),
{
    let opened = v.log_opened();
    lemma_repaint_unknown(opened, opened.first_visible(), opened.rows.len());
}

proof fn lemma_repaint_unknown(v: ProgressView, from: nat, to: nat)
    requires
        !v.drawable(),
    ensures
        v.repainted_range(from, to) == v,
    decreases to,
{
    if to > from {
        lemma_repaint_unknown(v, from, (to - 1) as nat);
    }
}

} // verus!

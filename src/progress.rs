//! The bar coordinator: rows, handles, redraws and the log scope.
use vstd::prelude::*;

use crate::layout::{
    bar_width_of, denomination, label_width_of, push_all, push_decimal, push_decimal3, push_fit,
    push_repeat, DEFAULT_WIDTH, MIN_LINE_WIDTH, MIN_WIDTH,
};
use crate::model::{
    ProgressView, RowView, filled_cells, line_head, line_tail, percent, row_line,
};
use crate::terminal::terminal_geometry;

verus! {

/// The characters of `s`, in order.
fn chars_of(s: &str) -> (v: Vec<char>)
    ensures
        v@ == s@,
{
    let mut v: Vec<char> = Vec::new();
    for c in it: s.chars()
        invariant
            v@ == it.history(),
    {
        v.push(c);
    }
    proof {
        broadcast use vstd::string::group_string_axioms;

        assert(v@ =~= s@);
    }
    v
}

/// The stored state of one bar.
#[derive(Debug)]
struct SubBar {
    /// Progress as of the previous draw in percent.
    prev_percent: u128,
    /// Current progress.
    curr: usize,
    /// The progress target.
    total: usize,
    /// The text for the left side of the bar line.
    label: Vec<char>,
    /// Did the user force this bar to stop?
    cancelled: bool,
}

impl View for SubBar {
    type V = RowView;

    closed spec fn view(&self) -> RowView {
        RowView {
            current: self.curr as nat,
            target: self.total as nat,
            label: self.label@,
            last_percent: self.prev_percent as nat,
            cancelled: self.cancelled,
        }
    }
}

/// Appends the label, magnitude and opening bracket of row `b`'s line.
fn push_line_head(out: &mut Vec<char>, b: &SubBar, term_width: usize)
    requires
        term_width >= MIN_WIDTH,
    ensures
        final(out)@ == old(out)@ + line_head(b@, term_width as nat),
{
    let (data, unit) = denomination(b.curr);
    push_fit(out, &b.label, label_width_of(term_width));
    push_all(out, &[' ']);
    push_decimal3(out, data as u128);
    push_all(out, &[unit, ' ', '[']);
    assert(out@ =~= old(out)@ + line_head(b@, term_width as nat));
}

/// Appends the fill field, closing bracket and percentage of row `b`'s line.
fn push_line_tail(out: &mut Vec<char>, b: &SubBar, term_width: usize)
    requires
        b.total > 0,
        term_width >= MIN_WIDTH,
    ensures
        final(out)@ == old(out)@ + line_tail(b@, term_width as nat),
{
    let w = bar_width_of(term_width);
    if b.cancelled {
        push_repeat(out, '_', w);
        push_all(out, &[']', ' ', '?', '?', '?', ' ']);
        assert(out@ =~= old(out)@ + line_tail(b@, term_width as nat));
    } else if b.curr >= b.total {
        push_repeat(out, '#', w);
        push_all(out, &[']', ' ', '1', '0', '0', '%']);
        assert(out@ =~= old(out)@ + line_tail(b@, term_width as nat));
    } else {
        assert((w as u128) * (b.curr as u128) <= u128::MAX) by (nonlinear_arith)
            requires
                w <= u64::MAX,
                b.curr <= u64::MAX,
        ;
        let prod: u128 = (w as u128) * (b.curr as u128) / (b.total as u128);
        let f: usize = if prod < (w - 1) as u128 {
            prod as usize
        } else {
            w - 1
        };
        assert(f == filled_cells(b@, w as nat));
        push_repeat(out, '#', f);
        push_all(out, &['>']);
        push_repeat(out, '-', (w - 1) - f);
        push_all(out, &[']', ' ']);
        let pct: u128 = (100 * b.curr as u128) / (b.total as u128);
        assert(pct == percent(b@));
        push_decimal3(out, pct);
        push_all(out, &['%']);
        assert(out@ =~= old(out)@ + line_tail(b@, term_width as nat));
    }
}

/// Appends the line of row `b` laid out for a terminal `term_width` wide.
fn push_row_line(out: &mut Vec<char>, b: &SubBar, term_width: usize)
    requires
        b.total > 0,
        term_width >= MIN_WIDTH,
    ensures
        final(out)@ == old(out)@ + row_line(b@, term_width as nat),
{
    push_line_head(out, b, term_width);
    push_line_tail(out, b, term_width);
    assert(out@ =~= old(out)@ + row_line(b@, term_width as nat));
}

/// A progress bar coordinator: the rows of all bars, topmost first, and the
/// text written for the terminal.
///
/// To share it between threads, wrap it in a lock: it does no locking of its
/// own. Text is buffered until a flush; [`Progress::take_output`] hands out
/// what has been flushed.
#[derive(Debug)]
pub struct Progress {
    /// The drawable bars themselves.
    bars: Vec<SubBar>,
    /// Text flushed and not yet taken out.
    flushed: Vec<char>,
    /// Text written since the last flush.
    pending: Vec<char>,
    /// Terminal width and height, when known.
    size: Option<(usize, usize)>,
}

/// A terminal size as the model holds it.
pub open spec fn geometry_of(size: Option<(usize, usize)>) -> Option<(nat, nat)> {
    match size {
        Some((w, h)) => Some((w as nat, h as nat)),
        None => None,
    }
}

impl View for Progress {
    type V = ProgressView;

    closed spec fn view(&self) -> ProgressView {
        ProgressView {
            rows: self.bars@.map_values(|b: SubBar| b@),
            geometry: geometry_of(self.size),
            output: self.flushed@ + self.pending@,
            flushed: self.flushed@.len(),
        }
    }
}

/// A handle to one bar of a [`Progress`]: the bar's position in it.
///
/// Only [`Progress::bar`] makes one, and it is meaningful only to the
/// coordinator that made it.
#[derive(Debug)]
pub struct Bar(usize);

impl Bar {
    /// The position of the bar's row, topmost first.
    pub closed spec fn index(&self) -> nat {
        self.0 as nat
    }
}

impl Progress {
    /// The text flushed is a part of the text written.
    pub open spec fn wf(&self) -> bool {
        self@.valid()
    }

    /// Start a coordinator on a terminal of the given width and height, or
    /// of unknown size, with room for `capacity` bars before reallocating.
    pub fn with_geometry(capacity: usize, size: Option<(usize, usize)>) -> (p: Progress)
        ensures
            p.wf(),
            p@ == ProgressView::empty(geometry_of(size)),
    {
        let p = Progress {
            bars: Vec::with_capacity(capacity),
            flushed: Vec::new(),
            pending: Vec::new(),
            size,
        };
        assert(p@.rows =~= Seq::empty());
        assert(p@.output =~= Seq::empty());
        p
    }

    /// Initialize a new progress bar coordinator on the terminal of standard
    /// output, whose size is asked for once and kept.
    pub fn new() -> (p: Progress)
        ensures
            p.wf(),
            p@ == ProgressView::empty(p@.geometry),
            p@.geometry matches Some((w, h)) ==> w <= u16::MAX && h <= u16::MAX,
    {
        Progress::with_capacity(0)
    }

    /// Like [`Progress::new`] but with room for `capacity` bars before
    /// reallocating.
    pub fn with_capacity(capacity: usize) -> (p: Progress)
        ensures
            p.wf(),
            p@ == ProgressView::empty(p@.geometry),
            p@.geometry matches Some((w, h)) ==> w <= u16::MAX && h <= u16::MAX,
    {
        let size = match terminal_geometry() {
            Some((w, h)) => Some((w as usize, h as usize)),
            None => None,
        };
        Progress::with_geometry(capacity, size)
    }

    /// Whether a draw of `bar` can compute its percentage: its target is
    /// above zero, or rows are not drawn on this terminal.
    pub fn can_draw(&self, bar: &Bar) -> (r: bool)
        requires
            bar.index() < self@.rows.len(),
        ensures
            r == self@.draw_defined(bar.index()),
    {
        match self.size {
            Some((w, _h)) => w < MIN_WIDTH || self.bars[bar.0].total > 0,
            None => true,
        }
    }

    /// The first row whose line is still on screen.
    fn first_visible_index(&self) -> (r: usize)
        ensures
            r == self@.first_visible(),
            r <= self@.rows.len(),
    {
        let n = self.bars.len();
        match self.size {
            Some((_w, h)) => if h == 0 {
                n
            } else if n >= h {
                n - (h - 1)
            } else {
                0
            },
            None => 0,
        }
    }

    /// Whether a repaint of the rows on screen can compute their
    /// percentages.
    fn can_repaint(&self) -> (r: bool)
        ensures
            r == self@.repaint_defined(),
    {
        match self.size {
            Some((w, _h)) => {
                if w < MIN_WIDTH {
                    return true;
                }
                let n = self.bars.len();
                let start = self.first_visible_index();
                let mut i = start;
                while i < n
                    invariant
                        start <= i <= n,
                        n == self@.rows.len(),
                        start == self@.first_visible(),
                        self@.drawable(),
                        forall|j: int| start <= j < i ==> #[trigger] self@.rows[j].target > 0,
                    decreases n - i,
                {
                    if self.bars[i].total == 0 {
                        assert(self@.rows[i as int].target == 0);
                        return false;
                    }
                    i = i + 1;
                }
                true
            },
            None => true,
        }
    }

    /// Moves everything written so far into the flushed text.
    fn flush(&mut self)
        ensures
            final(self)@ == old(self)@.flush(),
            final(self).bars == old(self).bars,
            final(self).size == old(self).size,
    {
        self.flushed.append(&mut self.pending);
        assert(final(self)@.output =~= old(self)@.output);
    }

    /// Hands out the flushed text, oldest first, for the terminal; text
    /// written since the last flush stays.
    pub fn take_output(&mut self) -> (text: Vec<char>)
        ensures
            text@ == old(self)@.output.take(old(self)@.flushed as int),
            final(self)@ == old(self)@.output_taken(),
    {
        let mut text: Vec<char> = Vec::new();
        std::mem::swap(&mut text, &mut self.flushed);
        assert(text@ =~= old(self)@.output.take(old(self)@.flushed as int));
        assert(self@.output =~= old(self)@.output.skip(old(self)@.flushed as int));
        text
    }

    /// Create a new bar with target `total` and the given label, print its
    /// first line (empty, at 0%) and receive a handle to it.
    ///
    /// A `total` of 0 is accepted here, but such a bar cannot be drawn on a
    /// terminal whose size is known.
    pub fn bar(&mut self, total: usize, label: &str) -> (b: Bar)
        requires
            old(self).wf(),
        ensures
            final(self).wf(),
            b.index() == old(self)@.rows.len(),
            final(self)@ == old(self)@.with_bar(total as nat, label@),
    {
        let twidth: usize = match self.size {
            Some((w, _h)) => if w >= MIN_LINE_WIDTH {
                w
            } else {
                DEFAULT_WIDTH
            },
            None => DEFAULT_WIDTH,
        };
        let label = chars_of(label);
        push_fit(&mut self.pending, &label, label_width_of(twidth));
        push_repeat(&mut self.pending, ' ', 6);
        push_all(&mut self.pending, &['[']);
        push_repeat(&mut self.pending, '-', bar_width_of(twidth));
        push_all(&mut self.pending, &[']', ' ', ' ', ' ', '0', '%', '\n']);
        self.flush();
        self.bars.push(SubBar { prev_percent: 0, curr: 0, total, label, cancelled: false });
        assert(self@.rows =~= old(self)@.rows.push(crate::model::new_row(total as nat, label@)));
        assert(self@.output =~= old(self)@.with_bar(total as nat, label@).output);
        Bar(self.bars.len() - 1)
    }

    /// Set a bar's progress value, but don't draw it.
    pub fn set(&mut self, bar: &Bar, value: usize)
        requires
            old(self).wf(),
            bar.index() < old(self)@.rows.len(),
        ensures
            final(self).wf(),
            final(self)@ == old(self)@.with_value(bar.index(), value as nat),
    {
        self.bars[bar.0].curr = value;
        assert(self@.rows =~= old(self)@.with_value(bar.index(), value as nat).rows);
    }

    /// Draw a bar if there is something new to show: its percentage rose by
    /// at least one point since it was last drawn, its line is still on
    /// screen, and the terminal's size is known. Then flush.
    pub fn draw(&mut self, bar: &Bar)
        requires
            old(self).wf(),
            bar.index() < old(self)@.rows.len(),
            old(self)@.draw_defined(bar.index()),
        ensures
            final(self).wf(),
            final(self)@ == old(self)@.drawn(bar.index()),
    {
        self.draw_impl(bar, false);
        self.flush();
    }

    /// Actually draw a bar, without flushing.
    ///
    /// Unless `force` is set, the line is drawn in place, and only when a
    /// draw is due. When `force` is set it is drawn at the cursor, which then
    /// moves to the next line.
    fn draw_impl(&mut self, bar: &Bar, force: bool)
        requires
            old(self).wf(),
            bar.index() < old(self)@.rows.len(),
            old(self)@.draw_defined(bar.index()),
        ensures
            final(self).wf(),
            final(self)@ == if force {
                old(self)@.repainted(bar.index())
            } else {
                old(self)@.redrawn(bar.index())
            },
            final(self).size == old(self).size,
    {
        match self.size {
            Some((term_width, term_height)) => if term_width >= MIN_WIDTH {
                let i = bar.0;
                let pos = self.bars.len() - i;
                let curr = self.bars[i].curr;
                let total = self.bars[i].total;
                let cur_percent: u128 = (100 * curr as u128) / (total as u128);
                if (pos < term_height && cur_percent > self.bars[i].prev_percent) || force {
                    self.bars[i].prev_percent = cur_percent;
                    let ghost marked = self@;
                    assert(marked.rows =~= old(self)@.mark_drawn(bar.index()).rows);
                    if !force {
                        push_all(&mut self.pending, &['\x1B', '[', 's', '\x1B', '[']);
                        push_decimal(&mut self.pending, pos as u128);
                        push_all(&mut self.pending, &['A', '\r']);
                    }
                    push_row_line(&mut self.pending, &self.bars[i], term_width);
                    if !force {
                        push_all(&mut self.pending, &['\x1B', '[', 'u', '\r']);
                    } else {
                        push_all(&mut self.pending, &['\n']);
                    }
                    assert(self@.rows == marked.rows);
                    assert(self@.output =~= (if force {
                        old(self)@.repainted(bar.index())
                    } else {
                        old(self)@.redrawn(bar.index())
                    }).output);
                }
            },
            None => {},
        }
    }

    /// Set a bar's value and immediately try to draw it.
    pub fn set_and_draw(&mut self, bar: &Bar, value: usize)
        requires
            old(self).wf(),
            bar.index() < old(self)@.rows.len(),
            old(self)@.draw_defined(bar.index()),
        ensures
            final(self).wf(),
            final(self)@ == old(self)@.with_value(bar.index(), value as nat).drawn(bar.index()),
    {
        self.set(bar, value);
        self.draw(bar);
    }

    /// Increment a bar's progress, but don't draw it.
    pub fn inc(&mut self, bar: &Bar, value: usize)
        requires
            old(self).wf(),
            bar.index() < old(self)@.rows.len(),
            old(self)@.rows[bar.index() as int].current + value <= usize::MAX,
        ensures
            final(self).wf(),
            final(self)@ == old(self)@.with_increment(bar.index(), value as nat),
    {
        let curr = self.bars[bar.0].curr;
        self.set(bar, curr + value)
    }

    /// Increment a bar's progress and immediately try to draw it.
    pub fn inc_and_draw(&mut self, bar: &Bar, value: usize)
        requires
            old(self).wf(),
            bar.index() < old(self)@.rows.len(),
            old(self)@.draw_defined(bar.index()),
            old(self)@.rows[bar.index() as int].current + value <= usize::MAX,
        ensures
            final(self).wf(),
            final(self)@ == old(self)@.with_increment(bar.index(), value as nat).drawn(bar.index()),
    {
        self.inc(bar, value);
        self.draw(bar);
    }

    /// Whether `bar` stands for a row of this coordinator.
    pub fn holds(&self, bar: &Bar) -> (r: bool)
        ensures
            r == (bar.index() < self@.rows.len()),
    {
        bar.0 < self.bars.len()
    }

    /// A bar's progress value.
    pub fn value(&self, bar: &Bar) -> (r: usize)
        requires
            bar.index() < self@.rows.len(),
        ensures
            r == self@.rows[bar.index() as int].current,
    {
        self.bars[bar.0].curr
    }

    /// Has the given bar reached its target?
    pub fn is_done(&self, bar: &Bar) -> (r: bool)
        requires
            self.wf(),
            bar.index() < self@.rows.len(),
        ensures
            r == (self@.rows[bar.index() as int].current >= self@.rows[bar.index() as int].target),
    {
        let b = &self.bars[bar.0];
        b.curr >= b.total
    }

    /// Cancel a bar, say when its download failed: its line fills with the
    /// cancel character and shows `???` for a percentage. The handle is
    /// consumed, so the bar cannot be changed again.
    pub fn cancel(&mut self, bar: Bar)
        requires
            old(self).wf(),
            bar.index() < old(self)@.rows.len(),
            old(self)@.draw_defined(bar.index()),
        ensures
            final(self).wf(),
            final(self)@ == old(self)@.cancelled(bar.index()),
    {
        let i = bar.0;
        self.bars[i].cancelled = true;
        // A percentage of zero makes the next draw due.
        self.bars[i].prev_percent = 0;
        let total = self.bars[i].total;
        proof {
            let row = old(self)@.rows[i as int];
            assert(self@.rows =~= old(self)@.rows.update(
                i as int,
                RowView { cancelled: true, last_percent: 0, ..row },
            ));
        }
        self.set_and_draw(&bar, total);
    }

    /// Open a scope for writing above all bars: the cursor moves to the
    /// first bar's line, which is erased. The coordinator moves into the
    /// scope, so no bar can be added, changed or drawn until
    /// [`LogScope::close`] redraws every bar on screen and hands it back.
    pub fn stderr(self) -> (scope: LogScope)
        requires
            self.wf(),
        ensures
            scope.inv(),
            scope.state() == self@.log_opened(),
    {
        let mut prog = self;
        push_all(&mut prog.pending, &['\x1B', '[']);
        push_decimal(&mut prog.pending, prog.bars.len() as u128);
        push_all(&mut prog.pending, &['A', '\x1B', '[', '2', 'K', '\r']);
        assert(prog@.output =~= self@.log_opened().output);
        LogScope { prog }
    }

    /// Repaint every bar on screen, top to bottom, each at the cursor on a
    /// line of its own, then flush once.
    fn repaint_visible(&mut self)
        requires
            old(self).wf(),
            old(self)@.repaint_defined(),
        ensures
            final(self).wf(),
            final(self)@ == old(self)@.log_closed(),
    {
        let n = self.bars.len();
        let start = self.first_visible_index();
        let mut i = start;
        while i < n
            invariant
                self.wf(),
                start <= i <= n,
                start == old(self)@.first_visible(),
                n == self@.rows.len(),
                self.size == old(self).size,
                self@ == old(self)@.repainted_range(start as nat, i as nat),
                forall|j: int| 0 <= j < n ==> #[trigger] self@.rows[j].target == old(self)@.rows[j].target,
                old(self)@.repaint_defined(),
                old(self)@.rows.len() == n,
            decreases n - i,
        {
            self.draw_impl(&Bar(i), true);
            i = i + 1;
        }
        self.flush();
    }
}

/// Exclusive access to a [`Progress`] for writing text above its bars.
///
/// Opened by [`Progress::stderr`], which moves the coordinator in;
/// [`LogScope::close`] redraws the bars below the text and hands it back.
pub struct LogScope {
    prog: Progress,
}

impl LogScope {
    /// The coordinator held is well formed.
    pub closed spec fn inv(&self) -> bool {
        self.prog.wf()
    }

    /// The state of the coordinator held.
    pub closed spec fn state(&self) -> ProgressView {
        self.prog@
    }

    /// Write text as it is, above the bars.
    pub fn write_str(&mut self, s: &str)
        requires
            old(self).inv(),
        ensures
            final(self).inv(),
            final(self).state() == old(self).state().write(s@),
    {
        let text = chars_of(s);
        push_all(&mut self.prog.pending, text.as_slice());
        assert(self.prog@.output =~= old(self).prog@.write(s@).output);
    }

    /// Whether closing can compute the percentages of the rows it redraws:
    /// each has a target above zero, or rows are not drawn on this terminal.
    pub fn can_close(&self) -> (r: bool)
        ensures
            r == self.state().repaint_defined(),
    {
        self.prog.can_repaint()
    }

    /// End the scope: redraw every bar that is on screen below the text
    /// written, then flush once. The coordinator is handed back.
    pub fn close(self) -> (prog: Progress)
        requires
            self.inv(),
            self.state().repaint_defined(),
        ensures
            prog.wf(),
            prog@ == self.state().log_closed(),
    {
        let mut prog = self.prog;
        prog.repaint_visible();
        prog
    }
}

impl Default for Progress {
    fn default() -> (p: Progress)
        ensures
            p.wf(),
            p@ == ProgressView::empty(p@.geometry),
            p@.geometry matches Some((w, h)) ==> w <= u16::MAX && h <= u16::MAX,
    {
        Progress::new()
    }
}

} // verus!

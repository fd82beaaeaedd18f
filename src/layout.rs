//! The pieces of a bar line: padding, fills, decimal numbers, magnitudes.
use vstd::prelude::*;

verus! {

/// `n` copies of `c`.
pub open spec fn repeat(c: char, n: nat) -> Seq<char> {
    Seq::new(n, |_i: int| c)
}

/// The character of the decimal digit `d`.
pub open spec fn digit_of(d: nat) -> char {
    (d + 48) as char
}

/// The decimal digits of `n`, most significant first, without leading zeros.
pub open spec fn decimal(n: nat) -> Seq<char>
    decreases n,
{
    if n < 10 {
        seq![digit_of(n)]
    } else {
        decimal(n / 10).push(digit_of(n % 10))
    }
}

/// `s` left-aligned in a field of `width` columns: cut to `width`, or padded
/// with spaces on the right.
pub open spec fn fit(s: Seq<char>, width: nat) -> Seq<char> {
    if s.len() >= width {
        s.take(width as int)
    } else {
        s + repeat(' ', (width - s.len()) as nat)
    }
}

/// `s` right-aligned in a field of at least `width` columns.
pub open spec fn right_align(s: Seq<char>, width: nat) -> Seq<char> {
    if s.len() >= width {
        s
    } else {
        repeat(' ', (width - s.len()) as nat) + s
    }
}

/// Appends the characters of `cs`, in order.
pub fn push_all(out: &mut Vec<char>, cs: &[char])
    ensures
        final(out)@ == old(out)@ + cs@,
{
    let mut i: usize = 0;
    while i < cs.len()
        invariant
            i <= cs@.len(),
            out@ == old(out)@ + cs@.take(i as int),
        decreases cs@.len() - i,
    {
        out.push(cs[i]);
        i = i + 1;
        assert(cs@.take(i as int) == cs@.take(i - 1).push(cs@[i - 1]));
    }
    assert(cs@.take(cs@.len() as int) == cs@);
}

/// Appends `n` copies of `c`.
pub fn push_repeat(out: &mut Vec<char>, c: char, n: usize)
    ensures
        final(out)@ == old(out)@ + repeat(c, n as nat),
{
    let mut i: usize = 0;
    while i < n
        invariant
            i <= n,
            out@ == old(out)@ + repeat(c, i as nat),
        decreases n - i,
    {
        out.push(c);
        i = i + 1;
        assert(repeat(c, i as nat) == repeat(c, (i - 1) as nat).push(c));
    }
}

/// Appends `s` left-aligned in a field of `width` columns (see [`fit`]).
pub fn push_fit(out: &mut Vec<char>, s: &Vec<char>, width: usize)
    ensures
        final(out)@ == old(out)@ + fit(s@, width as nat),
{
    let shown: usize = if s.len() >= width { width } else { s.len() };
    let mut i: usize = 0;
    while i < shown
        invariant
            shown <= s@.len(),
            shown <= width,
            i <= shown,
            out@ == old(out)@ + s@.take(i as int),
        decreases shown - i,
    {
        out.push(s[i]);
        i = i + 1;
        assert(s@.take(i as int) == s@.take(i - 1).push(s@[i - 1]));
    }
    if shown < width {
        assert(s@.take(shown as int) == s@);
        push_repeat(out, ' ', width - shown);
    }
}

proof fn lemma_decimal_len(n: nat)
    ensures
        decimal(n).len() >= 1,
        n < 10 ==> decimal(n).len() == 1,
        10 <= n < 100 ==> decimal(n).len() == 2,
        n >= 100 ==> decimal(n).len() >= 3,
    decreases n,
{
    if n >= 10 {
        lemma_decimal_len(n / 10);
    }
}

/// Appends the decimal digits of `n`.
pub fn push_decimal(out: &mut Vec<char>, n: u128)
    ensures
        final(out)@ == old(out)@ + decimal(n as nat),
    decreases n,
{
    if n >= 10 {
        push_decimal(out, n / 10);
    }
    let d: u8 = (n % 10) as u8;
    out.push((d + 48u8) as char);
    assert(old(out)@ + decimal(n as nat) == old(out)@ + decimal((n / 10) as nat) + seq![digit_of((n % 10) as nat)]
        || n < 10);
}

/// Appends `n` in decimal, right-aligned in three columns.
pub fn push_decimal3(out: &mut Vec<char>, n: u128)
    ensures
        final(out)@ == old(out)@ + right_align(decimal(n as nat), 3),
{
    proof {
        lemma_decimal_len(n as nat);
    }
    if n < 10 {
        push_all(out, &[' ', ' ']);
    } else if n < 100 {
        push_all(out, &[' ']);
    }
    push_decimal(out, n);
    assert(repeat(' ', 2) == seq![' ', ' ']);
    assert(repeat(' ', 1) == seq![' ']);
}

/// The scale of a magnitude unit: thousand, million, billion, or one for no
/// unit.
pub open spec fn unit_scale(unit: char) -> nat {
    if unit == 'G' {
        1_000_000_000
    } else if unit == 'M' {
        1_000_000
    } else if unit == 'K' {
        1000
    } else {
        1
    }
}

/// `n` scaled by the largest unit it reaches, with the unit's letter, or
/// unscaled with a blank below one thousand.
pub open spec fn denominated(n: nat) -> (nat, char) {
    if n >= 1_000_000_000 {
        (n / 1_000_000_000, 'G')
    } else if n >= 1_000_000 {
        (n / 1_000_000, 'M')
    } else if n >= 1000 {
        (n / 1000, 'K')
    } else {
        (n, ' ')
    }
}

/// Reduces a raw count to a human-readable value and unit letter.
///
/// The value is the count divided by the unit's scale, rounded down, and the
/// unit is the largest whose scale does not exceed the count.
pub fn denomination(curr: usize) -> (r: (usize, char))
    ensures
        (r.0 as nat, r.1) == denominated(curr as nat),
        r.1 == ' ' || r.1 == 'K' || r.1 == 'M' || r.1 == 'G',
        r.0 == curr as nat / unit_scale(r.1),
        unit_scale(r.1) <= curr || r.1 == ' ',
        r.0 < 1000 || r.1 == 'G',
{
    if curr >= 1_000_000_000 {
        (curr / 1_000_000_000, 'G')
    } else if curr >= 1_000_000 {
        (curr / 1_000_000, 'M')
    } else if curr >= 1000 {
        (curr / 1000, 'K')
    } else {
        assert(curr as nat / 1 == curr) by (nonlinear_arith);
        (curr, ' ')
    }
}

/// The narrowest terminal on which a bar line can be laid out.
pub const MIN_WIDTH: usize = 16;

/// The narrowest terminal on which a bar's first line can be laid out: its
/// fill field is then empty.
pub const MIN_LINE_WIDTH: usize = 14;

/// The width assumed for the first line of a bar when the terminal's is
/// unknown, or too narrow for that line.
pub const DEFAULT_WIDTH: usize = 100;

/// Columns of the bracketed fill field on a terminal `term_width` wide.
pub open spec fn bar_width(term_width: nat) -> nat {
    (term_width / 2 - 7) as nat
}

/// Columns of the label on a terminal `term_width` wide: what is left after
/// the fill field and the fixed parts of the line.
pub open spec fn label_width(term_width: nat) -> nat {
    (term_width - bar_width(term_width) - 13) as nat
}

/// Columns of the fill field, as in [`bar_width`].
pub fn bar_width_of(term_width: usize) -> (r: usize)
    requires
        term_width >= MIN_LINE_WIDTH,
    ensures
        r == bar_width(term_width as nat),
        term_width >= MIN_WIDTH ==> r >= 1,
{
    term_width / 2 - 7
}

/// Columns of the label, as in [`label_width`].
pub fn label_width_of(term_width: usize) -> (r: usize)
    requires
        term_width >= MIN_LINE_WIDTH,
    ensures
        r == label_width(term_width as nat),
{
    term_width - (term_width / 2 - 7) - 13
}

} // verus!

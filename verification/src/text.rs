//! Text formatting: decimal numbers, `m:ss` times, and fitting text to a
//! column width.

use vstd::prelude::*;
use crate::strings::{push_char, chars_of, push_spaces, pad_spaces};
use unicode_width::{UnicodeWidthChar, UnicodeWidthStr};

verus! {

/// The decimal digits of `n`, most significant first, with no leading zeros
/// ("0" for zero).
pub open spec fn decimal(n: nat) -> Seq<char>
    decreases n,
{
    if n < 10 {
        seq![digit_char(n)]
    } else {
        decimal(n / 10).push(digit_char(n % 10))
    }
}

pub open spec fn digit_char(d: nat) -> char {
    if d == 0 { '0' } else if d == 1 { '1' } else if d == 2 { '2' } else if d == 3 { '3' }
    else if d == 4 { '4' } else if d == 5 { '5' } else if d == 6 { '6' } else if d == 7 { '7' }
    else if d == 8 { '8' } else { '9' }
}

fn digit(d: u64) -> (c: char)
    requires
        d < 10,
    ensures
        c == digit_char(d as nat),
{
    if d == 0 { '0' } else if d == 1 { '1' } else if d == 2 { '2' } else if d == 3 { '3' }
    else if d == 4 { '4' } else if d == 5 { '5' } else if d == 6 { '6' } else if d == 7 { '7' }
    else if d == 8 { '8' } else { '9' }
}

/// Appends the decimal digits of `n`.
pub fn push_decimal(s: &mut String, n: u64)
    ensures
        final(s)@ == old(s)@ + decimal(n as nat),
    decreases n,
{
    if n >= 10 {
        push_decimal(s, n / 10);
    }
    push_char(s, digit(n % 10));
    assert(decimal(n as nat) == (if n < 10 { seq![digit_char(n as nat)] } else { decimal((n / 10) as nat).push(digit_char((n % 10) as nat)) }));
    if n < 10 {
        assert(old(s)@ + decimal(n as nat) =~= old(s)@.push(digit_char(n as nat)));
    } else {
        assert(old(s)@ + decimal(n as nat) =~= (old(s)@ + decimal((n / 10) as nat)).push(digit_char((n % 10) as nat)));
    }
}

/// `total` seconds as `m:ss`: whole minutes, then the seconds as two digits.
pub open spec fn clock_text(total: nat) -> Seq<char> {
    decimal(total / 60) + seq![':', digit_char((total % 60) / 10), digit_char((total % 60) % 10)]
}

/// Seconds as `m:ss`.
pub fn format_clock(total: u64) -> (s: String)
    ensures
        s@ == clock_text(total as nat),
{
    let mut s = String::new();
    push_decimal(&mut s, total / 60);
    push_char(&mut s, ':');
    let secs = total % 60;
    push_char(&mut s, digit(secs / 10));
    push_char(&mut s, digit(secs % 10));
    assert(s@ =~= clock_text(total as nat));
    s
}

/// A count in parentheses, as list rows show it: "(12)".
pub open spec fn counted(n: nat) -> Seq<char> {
    seq!['('] + decimal(n) + seq![')']
}

pub fn counted_text(n: u64) -> (s: String)
    ensures
        s@ == counted(n as nat),
{
    let mut s = String::new();
    push_char(&mut s, '(');
    push_decimal(&mut s, n);
    push_char(&mut s, ')');
    assert(s@ =~= counted(n as nat));
    s
}

/// The display width `UnicodeWidthStr::width` gives a string, in columns.
pub uninterp spec fn spec_str_width(s: Seq<char>) -> usize;

/// A string's display width, through `UnicodeWidthStr::width` (which is not
/// always the sum of its characters' widths: some sequences join).
#[verifier::external_body]
pub(crate) fn str_width(s: &str) -> (r: usize)
    ensures
        r == spec_str_width(s@),
{
    UnicodeWidthStr::width(s)
}

/// The display width `UnicodeWidthChar::width` gives a character: None for
/// a control character.
pub uninterp spec fn spec_char_width(c: char) -> Option<usize>;

/// A character's display width, through `UnicodeWidthChar::width`.
#[verifier::external_body]
pub(crate) fn char_width(c: char) -> (r: Option<usize>)
    ensures
        r == spec_char_width(c),
{
    UnicodeWidthChar::width(c)
}

/// A character's width for fitting: a control character takes none.
pub open spec fn col_width(c: char) -> nat {
    match spec_char_width(c) {
        Some(w) => w as nat,
        None => 0,
    }
}

/// Scanning characters with widths `ws` from `i`, having used `w` columns:
/// each is kept while it still leaves a column for the ellipsis. The result
/// is how many were kept, the columns they use, and whether one did not fit.
pub open spec fn keep_while_fits(ws: Seq<nat>, max: nat, i: int, w: nat) -> (int, nat, bool)
    decreases ws.len() - i,
{
    if i < 0 || i >= ws.len() {
        (i, w, false)
    } else if w + ws[i] + 1 > max {
        (i, w, true)
    } else {
        keep_while_fits(ws, max, i + 1, w + ws[i])
    }
}

/// `s` fitted to exactly `max` columns, given its total width and its
/// characters' widths: padded with spaces when it fits; otherwise cut before
/// the first character that would leave no room for "…", which is added
/// when there is a column for it, and padded to `max`.
pub open spec fn fitted(s: Seq<char>, ws: Seq<nat>, total: nat, max: nat) -> Seq<char> {
    if total <= max {
        pad_spaces(s, (max - total) as nat)
    } else {
        let (k, w, cut) = keep_while_fits(ws, max, 0, 0);
        let dots = cut && w + 1 <= max;
        let body = if dots { s.take(k).push('\u{2026}') } else { s.take(k) };
        let used = if dots { w + 1 } else { w };
        pad_spaces(body, if used <= max { (max - used) as nat } else { 0 })
    }
}

proof fn lemma_keep_bounds(ws: Seq<nat>, max: nat, i: int, w: nat)
    requires
        0 <= i <= ws.len(),
        w <= max,
    ensures
        ({
            let (k, u, cut) = keep_while_fits(ws, max, i, w);
            &&& i <= k <= ws.len()
            &&& u <= max
            &&& cut ==> k < ws.len() && u + ws[k] + 1 > max
            &&& !cut ==> k == ws.len()
        }),
    decreases ws.len() - i,
{
    if i < ws.len() && w + ws[i] + 1 <= max {
        lemma_keep_bounds(ws, max, i + 1, w + ws[i]);
    }
}

proof fn lemma_keep_step(ws: Seq<nat>, max: nat, i: int, w: nat)
    requires
        0 <= i < ws.len(),
        w + ws[i] + 1 <= max,
    ensures
        keep_while_fits(ws, max, i, w) == keep_while_fits(ws, max, i + 1, w + ws[i]),
{
}

/// Fits the characters `chars`, whose widths are `widths` and whose total
/// width is `total`, to exactly `max` columns (see `fitted`).
pub fn fit_chars(chars: &Vec<char>, widths: &Vec<usize>, total: usize, max: usize) -> (r: String)
    requires
        widths@.len() == chars@.len(),
    ensures
        r@ == fitted(chars@, widths@.map_values(|x: usize| x as nat), total as nat, max as nat),
{
    let ghost ws = widths@.map_values(|x: usize| x as nat);
    let mut r = String::new();
    if total <= max {
        let mut i: usize = 0;
        while i < chars.len()
            invariant
                i <= chars@.len(),
                r@ == chars@.take(i as int),
            decreases chars@.len() - i,
        {
            push_char(&mut r, chars[i]);
            assert(chars@.take(i + 1) =~= chars@.take(i as int).push(chars@[i as int]));
            i += 1;
        }
        assert(chars@.take(chars@.len() as int) =~= chars@);
        push_spaces(&mut r, max - total);
        return r;
    }
    let mut w: usize = 0;
    let mut i: usize = 0;
    let mut cut = false;
    proof {
        lemma_keep_bounds(ws, max as nat, 0, 0);
    }
    while i < chars.len()
        invariant_except_break
            !cut,
        invariant
            i <= chars@.len(),
            widths@.len() == chars@.len(),
            ws == widths@.map_values(|x: usize| x as nat),
            w <= max,
            r@ == chars@.take(i as int),
            keep_while_fits(ws, max as nat, i as int, w as nat) == keep_while_fits(ws, max as nat, 0, 0),
        ensures
            i <= chars@.len(),
            w <= max,
            cut ==> i < chars@.len() && keep_while_fits(ws, max as nat, 0, 0) == (i as int, w as nat, true),
            cut ==> r@ == chars@.take(i as int),
            !cut ==> i == chars@.len() && r@ == chars@.take(i as int)
                && keep_while_fits(ws, max as nat, 0, 0) == (i as int, w as nat, false),
        decreases chars@.len() - i,
    {
        let cw = widths[i];
        assert(ws[i as int] == cw as nat);
        if cw >= max - w {
            cut = true;
            break;
        }
        proof {
            lemma_keep_step(ws, max as nat, i as int, w as nat);
        }
        push_char(&mut r, chars[i]);
        assert(chars@.take(i + 1) =~= chars@.take(i as int).push(chars@[i as int]));
        w = w + cw;
        i += 1;
    }
    let mut used = w;
    if cut && w < max {
        push_char(&mut r, '\u{2026}');
        used = w + 1;
    }
    let pad = if used <= max { max - used } else { 0 };
    push_spaces(&mut r, pad);
    r
}

/// The widths of the characters of `s`, a control character counting zero.
pub open spec fn char_widths(s: Seq<char>) -> Seq<nat> {
    s.map_values(|c: char| col_width(c))
}

/// Truncates `s` to `max` terminal columns, adding "…" when it does not
/// fit, and pads it with spaces to exactly `max` columns. Widths are display
/// columns, so a CJK title counts twice its character count.
pub fn fit_to_width(s: &str, max: usize) -> (r: String)
    ensures
        r@ == fitted(s@, char_widths(s@), spec_str_width(s@) as nat, max as nat),
{
    let total = str_width(s);
    let chars = chars_of(s);
    let mut widths: Vec<usize> = Vec::new();
    let mut i: usize = 0;
    while i < chars.len()
        invariant
            i <= chars@.len(),
            chars@ == s@,
            widths@.len() == i,
            forall|k: int| 0 <= k < i ==> #[trigger] widths@[k] as nat == col_width(chars@[k]),
        decreases chars@.len() - i,
    {
        let w = match char_width(chars[i]) {
            Some(w) => w,
            None => 0,
        };
        widths.push(w);
        i += 1;
    }
    assert(widths@.map_values(|x: usize| x as nat) =~= char_widths(s@));
    fit_chars(&chars, &widths, total, max)
}

} // verus!

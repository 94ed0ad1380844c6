//! Character-level text utilities: UTF-8 widths, byte offsets and word motions.

use vstd::prelude::*;
use vstd::string::*;

verus! {

/// Number of bytes the UTF-8 encoding of `c` occupies.
pub open spec fn utf8_width(c: char) -> nat {
    if (c as u32) < 0x80 {
        1
    } else if (c as u32) < 0x800 {
        2
    } else if (c as u32) < 0x10000 {
        3
    } else {
        4
    }
}

/// Number of bytes of the UTF-8 encoding of a character sequence.
pub open spec fn byte_len(cs: Seq<char>) -> nat
    decreases cs.len(),
{
    if cs.len() == 0 {
        0
    } else {
        byte_len(cs.drop_last()) + utf8_width(cs.last())
    }
}


/// `byte_len` distributes over concatenation.
pub proof fn lemma_byte_len_concat(a: Seq<char>, b: Seq<char>)
    ensures
        byte_len(a + b) == byte_len(a) + byte_len(b),
    decreases b.len(),
{
    if b.len() == 0 {
        assert(a + b =~= a);
    } else {
        lemma_byte_len_concat(a, b.drop_last());
        assert((a + b).drop_last() =~= a + b.drop_last());
    }
}

/// The byte offset of the first `k` characters converts back to `k`: a cursor
/// kept as a byte offset designates the character it was set to.
pub proof fn lemma_index_at_byte_of_prefix(cs: Seq<char>, k: nat)
    requires
        k <= cs.len(),
    ensures
        index_at_byte(cs, byte_len(cs.take(k as int))) == k,
    decreases k,
{
    if k == 0 {
        assert(cs.take(0) =~= Seq::<char>::empty());
    } else {
        let t = cs.drop_first();
        lemma_index_at_byte_of_prefix(t, (k - 1) as nat);
        assert(cs.take(k as int) =~= seq![cs[0]] + t.take(k - 1));
        lemma_byte_len_concat(seq![cs[0]], t.take(k - 1));
        let one = seq![cs[0]];
        assert(one.drop_last() =~= Seq::<char>::empty());
        assert(byte_len(one.drop_last()) == 0);
        assert(one.last() == cs[0]);
        assert(byte_len(one) == utf8_width(cs[0]));
    }
}

/// A prefix never takes more bytes than the whole text.
pub proof fn lemma_byte_len_of_prefix(cs: Seq<char>, k: int)
    requires
        0 <= k <= cs.len(),
    ensures
        byte_len(cs.take(k)) <= byte_len(cs),
{
    lemma_byte_len_concat(cs.take(k), cs.skip(k));
    assert(cs.take(k) + cs.skip(k) =~= cs);
}

/// Extending a prefix by one character adds that character's width.
pub proof fn lemma_byte_len_take_next(cs: Seq<char>, k: int)
    requires
        0 <= k < cs.len(),
    ensures
        byte_len(cs.take(k + 1)) == byte_len(cs.take(k)) + utf8_width(cs[k]),
{
    assert(cs.take(k + 1).drop_last() =~= cs.take(k));
}

/// `x`, or `usize::MAX` when it does not fit.
pub open spec fn clamp_usize(x: nat) -> nat {
    if x <= usize::MAX {
        x
    } else {
        usize::MAX as nat
    }
}

/// Number of bytes the UTF-8 encoding of `c` occupies.
pub fn char_width(c: char) -> (r: usize)
    ensures
        r == utf8_width(c),
{
    let u = c as u32;
    if u < 0x80 {
        1
    } else if u < 0x800 {
        2
    } else if u < 0x10000 {
        3
    } else {
        4
    }
}

/// The byte offset of the `k`-th character (saturating at `usize::MAX`, which no
/// real string reaches).
pub fn byte_offset(cs: &[char], k: usize) -> (r: usize)
    requires
        k <= cs@.len(),
    ensures
        r == clamp_usize(byte_len(cs@.take(k as int))),
{
    let mut acc: usize = 0;
    let mut i: usize = 0;
    while i < k
        invariant
            i <= k <= cs@.len(),
            acc == clamp_usize(byte_len(cs@.take(i as int))),
        decreases k - i,
    {
        proof {
            lemma_byte_len_take_next(cs@, i as int);
        }
        let w = char_width(cs[i]);
        acc = if acc <= usize::MAX - w { acc + w } else { usize::MAX };
        i += 1;
    }
    acc
}

/// How many leading characters fit in `pos` bytes: a byte offset rounded down to
/// a character boundary and clamped to the end of the text.
pub open spec fn index_at_byte(cs: Seq<char>, pos: nat) -> nat
    decreases cs.len(),
{
    if cs.len() == 0 {
        0
    } else if utf8_width(cs[0]) <= pos {
        1 + index_at_byte(cs.drop_first(), (pos - utf8_width(cs[0])) as nat)
    } else {
        0
    }
}

/// `index_at_byte` never passes the end of the text.
pub proof fn lemma_index_at_byte_bound(cs: Seq<char>, pos: nat)
    ensures
        index_at_byte(cs, pos) <= cs.len(),
    decreases cs.len(),
{
    if cs.len() > 0 && utf8_width(cs[0]) <= pos {
        lemma_index_at_byte_bound(cs.drop_first(), (pos - utf8_width(cs[0])) as nat);
    }
}

/// Converts a byte offset into a character index (see `index_at_byte`).
pub fn char_index_at_byte(cs: &[char], pos: usize) -> (r: usize)
    ensures
        r == index_at_byte(cs@, pos as nat),
        r <= cs@.len(),
{
    let mut k: usize = 0;
    let mut acc: usize = 0;
    proof {
        assert(cs@.skip(0) =~= cs@);
    }
    while k < cs.len() && char_width(cs[k]) <= pos - acc
        invariant
            k <= cs@.len(),
            acc <= pos,
            index_at_byte(cs@, pos as nat) == k + index_at_byte(cs@.skip(k as int), (pos - acc) as nat),
        decreases cs@.len() - k,
    {
        proof {
            assert(cs@.skip(k as int).drop_first() =~= cs@.skip(k + 1));
        }
        acc = acc + char_width(cs[k]);
        k += 1;
    }
    proof {
        lemma_index_at_byte_bound(cs@, pos as nat);
    }
    k
}


/// Whether `c` is alphabetic or numeric in the Unicode sense, as
/// `char::is_alphanumeric` decides.
pub uninterp spec fn is_alphanumeric(c: char) -> bool;

/// Whether `c` has the Unicode White_Space property, which is what
/// `char::is_whitespace` decides: tab, line feed, vertical tab, form feed,
/// carriage return, space, next line, no-break space, ogham space mark, the
/// spaces from en quad to hair space, line and paragraph separators, narrow
/// no-break space, medium mathematical space and ideographic space.
pub open spec fn is_whitespace(c: char) -> bool {
    let u = c as u32;
    ||| 0x09 <= u <= 0x0D
    ||| u == 0x20
    ||| u == 0x85
    ||| u == 0xA0
    ||| u == 0x1680
    ||| 0x2000 <= u <= 0x200A
    ||| u == 0x2028
    ||| u == 0x2029
    ||| u == 0x202F
    ||| u == 0x205F
    ||| u == 0x3000
}

/// `char::is_alphanumeric`; the result is named `is_alphanumeric(c)`.
#[verifier::external_body]
fn char_is_alphanumeric(c: char) -> (r: bool)
    ensures
        r == is_alphanumeric(c),
{
    c.is_alphanumeric()
}

/// Whether `c` is white space (see `is_whitespace`).
fn char_is_whitespace(c: char) -> (r: bool)
    ensures
        r == is_whitespace(c),
{
    let u = c as u32;
    (0x09 <= u && u <= 0x0D) || u == 0x20 || u == 0x85 || u == 0xA0 || u == 0x1680 || (0x2000 <= u && u
        <= 0x200A) || u == 0x2028 || u == 0x2029 || u == 0x202F || u == 0x205F || u == 0x3000
}

/// Characters that belong to a word for word motions.
pub open spec fn is_word_char(c: char) -> bool {
    is_alphanumeric(c) || c == '_'
}

/// Whether `c` belongs to a word.
pub fn word_char(c: char) -> (r: bool)
    ensures
        r == is_word_char(c),
{
    c == '_' || char_is_alphanumeric(c)
}

/// Whether `c` is white space.
pub fn whitespace_char(c: char) -> (r: bool)
    ensures
        r == is_whitespace(c),
{
    char_is_whitespace(c)
}

/// The first index at or after `j` that does not hold a word character.
pub open spec fn skip_word(cs: Seq<char>, j: nat) -> nat
    decreases cs.len() - j,
{
    if j < cs.len() && is_word_char(cs[j as int]) {
        skip_word(cs, j + 1)
    } else {
        j
    }
}

/// The first index at or after `j` that holds a word character (or the end).
pub open spec fn skip_non_word(cs: Seq<char>, j: nat) -> nat
    decreases cs.len() - j,
{
    if j < cs.len() && !is_word_char(cs[j as int]) {
        skip_non_word(cs, j + 1)
    } else {
        j
    }
}

/// The last index of the word that continues from `j`.
pub open spec fn last_of_word(cs: Seq<char>, j: nat) -> nat
    decreases cs.len() - j,
{
    if j + 1 < cs.len() && is_word_char(cs[j + 1 as int]) {
        last_of_word(cs, j + 1)
    } else {
        j
    }
}

/// Walking back from `j` over non-word characters, stopping at index 0.
pub open spec fn back_non_word(cs: Seq<char>, j: nat) -> nat
    decreases j,
{
    if j > 0 && !is_word_char(cs[j as int]) {
        back_non_word(cs, (j - 1) as nat)
    } else {
        j
    }
}

/// Walking back from `j` to the first character of its word.
pub open spec fn back_word(cs: Seq<char>, j: nat) -> nat
    decreases j,
{
    if j > 0 && is_word_char(cs[j - 1]) {
        back_word(cs, (j - 1) as nat)
    } else {
        j
    }
}

/// Start of the next word after `i`: skips the rest of the current word, then
/// the separators after it; the end of the text when there is none.
pub open spec fn word_forward(cs: Seq<char>, i: nat) -> nat {
    if i >= cs.len() {
        cs.len()
    } else {
        skip_non_word(cs, skip_word(cs, i))
    }
}

/// End of the word at or after `i`: the last character of that word, the end of
/// the text when no word follows.
pub open spec fn word_end(cs: Seq<char>, i: nat) -> nat {
    if cs.len() == 0 {
        0
    } else if i >= cs.len() {
        cs.len()
    } else if skip_non_word(cs, i) >= cs.len() {
        cs.len()
    } else {
        last_of_word(cs, skip_non_word(cs, i))
    }
}

/// Start of the word before `i`: skips separators backwards, then to the first
/// character of the word found; 0 when no word precedes.
pub open spec fn word_backward(cs: Seq<char>, i: nat) -> nat {
    if cs.len() == 0 || i == 0 {
        0
    } else {
        let j0 = (if i < cs.len() {
            i
        } else {
            cs.len()
        } - 1) as nat;
        let j = back_non_word(cs, j0);
        if !is_word_char(cs[j as int]) {
            0
        } else {
            back_word(cs, j)
        }
    }
}

proof fn lemma_skip_word_bound(cs: Seq<char>, j: nat)
    requires
        j <= cs.len(),
    ensures
        j <= skip_word(cs, j) <= cs.len(),
    decreases cs.len() - j,
{
    if j < cs.len() && is_word_char(cs[j as int]) {
        lemma_skip_word_bound(cs, j + 1);
    }
}

proof fn lemma_skip_non_word_bound(cs: Seq<char>, j: nat)
    requires
        j <= cs.len(),
    ensures
        j <= skip_non_word(cs, j) <= cs.len(),
    decreases cs.len() - j,
{
    if j < cs.len() && !is_word_char(cs[j as int]) {
        lemma_skip_non_word_bound(cs, j + 1);
    }
}

proof fn lemma_last_of_word_bound(cs: Seq<char>, j: nat)
    requires
        j < cs.len(),
    ensures
        j <= last_of_word(cs, j) < cs.len(),
    decreases cs.len() - j,
{
    if j + 1 < cs.len() && is_word_char(cs[j + 1 as int]) {
        lemma_last_of_word_bound(cs, j + 1);
    }
}

proof fn lemma_back_non_word_bound(cs: Seq<char>, j: nat)
    ensures
        back_non_word(cs, j) <= j,
    decreases j,
{
    if j > 0 && !is_word_char(cs[j as int]) {
        lemma_back_non_word_bound(cs, (j - 1) as nat);
    }
}

proof fn lemma_back_word_bound(cs: Seq<char>, j: nat)
    ensures
        back_word(cs, j) <= j,
    decreases j,
{
    if j > 0 && is_word_char(cs[j - 1]) {
        lemma_back_word_bound(cs, (j - 1) as nat);
    }
}

/// Word motions never leave the text.
pub proof fn lemma_word_motions_in_bounds(cs: Seq<char>, i: nat)
    ensures
        word_forward(cs, i) <= cs.len(),
        word_end(cs, i) <= cs.len(),
        word_backward(cs, i) <= i,
        word_backward(cs, i) <= cs.len(),
{
    if i < cs.len() {
        lemma_skip_word_bound(cs, i);
        lemma_skip_non_word_bound(cs, skip_word(cs, i));
        lemma_skip_non_word_bound(cs, i);
        if skip_non_word(cs, i) < cs.len() {
            lemma_last_of_word_bound(cs, skip_non_word(cs, i));
        }
    }
    if cs.len() > 0 && i > 0 {
        let j0 = (if i < cs.len() {
            i
        } else {
            cs.len()
        } - 1) as nat;
        lemma_back_non_word_bound(cs, j0);
        lemma_back_word_bound(cs, back_non_word(cs, j0));
    }
}

/// Moves to the start of the next word (see `word_forward`).
pub fn next_word_start(cs: &[char], i: usize) -> (r: usize)
    ensures
        r == word_forward(cs@, i as nat),
{
    let len = cs.len();
    if i >= len {
        return len;
    }
    let mut j = i;
    while j < len && word_char(cs[j])
        invariant
            i <= j <= len,
            len == cs@.len(),
            skip_word(cs@, i as nat) == skip_word(cs@, j as nat),
        decreases len - j,
    {
        j += 1;
    }
    let ghost mid = j;
    while j < len && !word_char(cs[j])
        invariant
            mid <= j <= len,
            len == cs@.len(),
            mid == skip_word(cs@, i as nat),
            skip_non_word(cs@, mid as nat) == skip_non_word(cs@, j as nat),
        decreases len - j,
    {
        j += 1;
    }
    j
}

/// Moves to the end of the current or next word (see `word_end`).
pub fn next_word_end(cs: &[char], i: usize) -> (r: usize)
    ensures
        r == word_end(cs@, i as nat),
{
    let len = cs.len();
    if len == 0 {
        return 0;
    }
    if i >= len {
        return len;
    }
    let mut j = i;
    while j < len && !word_char(cs[j])
        invariant
            i <= j <= len,
            len == cs@.len(),
            skip_non_word(cs@, i as nat) == skip_non_word(cs@, j as nat),
        decreases len - j,
    {
        j += 1;
    }
    if j >= len {
        return len;
    }
    let ghost start = j;
    while j + 1 < len && word_char(cs[j + 1])
        invariant
            start <= j < len,
            len == cs@.len(),
            last_of_word(cs@, start as nat) == last_of_word(cs@, j as nat),
        decreases len - j,
    {
        j += 1;
    }
    j
}

/// Moves to the start of the previous word (see `word_backward`).
pub fn prev_word_start(cs: &[char], i: usize) -> (r: usize)
    ensures
        r == word_backward(cs@, i as nat),
{
    let len = cs.len();
    if len == 0 || i == 0 {
        return 0;
    }
    let mut j = (if i < len { i } else { len }) - 1;
    let ghost j0 = j;
    while j > 0 && !word_char(cs[j])
        invariant
            j <= j0 < len,
            len == cs@.len(),
            back_non_word(cs@, j0 as nat) == back_non_word(cs@, j as nat),
        decreases j,
    {
        j -= 1;
    }
    if !word_char(cs[j]) {
        return 0;
    }
    let ghost k0 = j;
    while j > 0 && word_char(cs[j - 1])
        invariant
            j <= k0 < len,
            len == cs@.len(),
            back_word(cs@, k0 as nat) == back_word(cs@, j as nat),
        decreases j,
    {
        j -= 1;
    }
    j
}


/// Index of the first character of the line that holds index `k`.
pub open spec fn line_start_of(cs: Seq<char>, k: nat) -> nat
    decreases k,
{
    if k == 0 {
        0
    } else if k <= cs.len() && cs[k - 1] == '\n' {
        k
    } else {
        line_start_of(cs, (k - 1) as nat)
    }
}

/// Index of the newline that ends the line holding index `k` (the end of the
/// text on the last line).
pub open spec fn line_end_of(cs: Seq<char>, k: nat) -> nat
    decreases cs.len() - k,
{
    if k >= cs.len() {
        cs.len()
    } else if cs[k as int] == '\n' {
        k
    } else {
        line_end_of(cs, k + 1)
    }
}

/// Number of newlines before index `k`: the row that holds `k`.
pub open spec fn row_of(cs: Seq<char>, k: nat) -> nat
    decreases k,
{
    if k == 0 {
        0
    } else {
        row_of(cs, (k - 1) as nat) + (if k <= cs.len() && cs[k - 1] == '\n' {
            1nat
        } else {
            0nat
        })
    }
}

/// Index where row `row` starts; rows past the last line give the last line.
pub open spec fn line_start_row(cs: Seq<char>, row: nat) -> nat
    decreases row,
{
    if row == 0 {
        0
    } else {
        let p = line_start_row(cs, (row - 1) as nat);
        if line_end_of(cs, p) < cs.len() {
            line_end_of(cs, p) + 1
        } else {
            p
        }
    }
}

/// Byte column of index `k` within its line.
pub open spec fn col_bytes(cs: Seq<char>, k: nat) -> nat {
    byte_len(cs.subrange(line_start_of(cs, k) as int, k as int))
}

/// The index `col` bytes into the line that starts at `start`, rounded down to a
/// character and clamped to the line's end.
pub open spec fn index_in_line(cs: Seq<char>, start: nat, col: nat) -> nat {
    start + index_at_byte(cs.subrange(start as int, line_end_of(cs, start) as int), col)
}

proof fn lemma_line_start_bound(cs: Seq<char>, k: nat)
    ensures
        line_start_of(cs, k) <= k,
    decreases k,
{
    if k > 0 && !(k <= cs.len() && cs[k - 1] == '\n') {
        lemma_line_start_bound(cs, (k - 1) as nat);
    }
}

proof fn lemma_line_end_bound(cs: Seq<char>, k: nat)
    requires
        k <= cs.len(),
    ensures
        k <= line_end_of(cs, k) <= cs.len(),
    decreases cs.len() - k,
{
    if k < cs.len() && cs[k as int] != '\n' {
        lemma_line_end_bound(cs, k + 1);
    }
}

proof fn lemma_line_start_row_bound(cs: Seq<char>, row: nat)
    ensures
        line_start_row(cs, row) <= cs.len(),
    decreases row,
{
    if row > 0 {
        lemma_line_start_row_bound(cs, (row - 1) as nat);
        lemma_line_end_bound(cs, line_start_row(cs, (row - 1) as nat));
    }
}

/// Once a row reaches the last line, every later row starts there too.
proof fn lemma_line_start_row_stuck(cs: Seq<char>, r: nat, r2: nat)
    requires
        r <= r2,
        line_end_of(cs, line_start_row(cs, r)) >= cs.len(),
    ensures
        line_start_row(cs, r2) == line_start_row(cs, r),
    decreases r2 - r,
{
    if r < r2 {
        lemma_line_start_row_stuck(cs, r, (r2 - 1) as nat);
    }
}

/// Index of the first character of the line that holds index `k`.
pub fn line_start(cs: &[char], k: usize) -> (r: usize)
    requires
        k <= cs@.len(),
    ensures
        r == line_start_of(cs@, k as nat),
        r <= k,
{
    let mut j = k;
    while j > 0 && cs[j - 1] != '\n'
        invariant
            j <= k <= cs@.len(),
            line_start_of(cs@, k as nat) == line_start_of(cs@, j as nat),
        decreases j,
    {
        j -= 1;
    }
    j
}

/// Index of the newline that ends the line holding `k`, or the end of the text.
pub fn line_end(cs: &[char], k: usize) -> (r: usize)
    requires
        k <= cs@.len(),
    ensures
        r == line_end_of(cs@, k as nat),
        k <= r <= cs@.len(),
{
    let mut j = k;
    while j < cs.len() && cs[j] != '\n'
        invariant
            k <= j <= cs@.len(),
            line_end_of(cs@, k as nat) == line_end_of(cs@, j as nat),
        decreases cs@.len() - j,
    {
        j += 1;
    }
    j
}

/// The row that holds index `k`.
pub fn row_at(cs: &[char], k: usize) -> (r: usize)
    requires
        k <= cs@.len(),
    ensures
        r == row_of(cs@, k as nat),
        r <= k,
{
    let mut i: usize = 0;
    let mut row: usize = 0;
    while i < k
        invariant
            i <= k <= cs@.len(),
            row == row_of(cs@, i as nat),
            row <= i,
        decreases k - i,
    {
        if cs[i] == '\n' {
            row += 1;
        }
        i += 1;
    }
    row
}

/// Index where row `row` starts (rows past the last line give the last line).
pub fn start_of_row(cs: &[char], row: usize) -> (r: usize)
    ensures
        r == line_start_row(cs@, row as nat),
        r <= cs@.len(),
{
    let len = cs.len();
    let mut r: usize = 0;
    let mut p: usize = 0;
    let mut stuck = false;
    while r < row && !stuck
        invariant
            r <= row,
            len == cs@.len(),
            p == line_start_row(cs@, r as nat),
            p <= len,
            stuck ==> line_end_of(cs@, p as nat) >= len,
        decreases row - r, (if stuck { 0int } else { 1int }),
    {
        let e = line_end(cs, p);
        if e < len {
            p = e + 1;
            r += 1;
        } else {
            stuck = true;
        }
    }
    proof {
        if stuck {
            lemma_line_start_row_stuck(cs@, r as nat, row as nat);
        }
    }
    p
}

/// Byte column of index `k` within its line (saturating, see `byte_offset`).
pub fn column_of(cs: &[char], k: usize) -> (r: usize)
    requires
        k <= cs@.len(),
    ensures
        r == clamp_usize(col_bytes(cs@, k as nat)),
{
    let s = line_start(cs, k);
    let line = vstd::slice::slice_subrange(cs, s, k);
    proof {
        assert(line@.take((k - s) as int) =~= cs@.subrange(s as int, k as int));
    }
    byte_offset(line, k - s)
}

/// The index `col` bytes into the line starting at `start` (see `index_in_line`).
pub fn index_at_column(cs: &[char], start: usize, col: usize) -> (r: usize)
    requires
        start <= cs@.len(),
    ensures
        r == index_in_line(cs@, start as nat, col as nat),
        r <= cs@.len(),
{
    let e = line_end(cs, start);
    let line = vstd::slice::slice_subrange(cs, start, e);
    let i = char_index_at_byte(line, col);
    start + i
}


/// An editing command on a text buffer with a cursor.
#[derive(Clone, Copy, Debug, PartialEq, Eq)]
pub enum TextEdit {
    /// Left by n characters, stopping at the start of the line.
    Left(usize),
    /// Right by n characters, stopping at the end of the line.
    Right(usize),
    /// Up by n rows, keeping the byte column where the row is long enough.
    Up(usize),
    /// Down by n rows, keeping the byte column where the row is long enough.
    Down(usize),
    LineStart,
    LineEnd,
    WordForward(usize),
    WordBackward(usize),
    WordEnd(usize),
    /// One character right, unless already at the end of the line.
    AfterCursor,
    Insert(char),
    Backspace,
    Delete,
}

/// `word_forward` applied `n` times.
pub open spec fn word_forward_n(cs: Seq<char>, k: nat, n: nat) -> nat
    decreases n,
{
    if n == 0 {
        k
    } else {
        word_forward_n(cs, word_forward(cs, k), (n - 1) as nat)
    }
}

/// `word_backward` applied `n` times.
pub open spec fn word_backward_n(cs: Seq<char>, k: nat, n: nat) -> nat
    decreases n,
{
    if n == 0 {
        k
    } else {
        word_backward_n(cs, word_backward(cs, k), (n - 1) as nat)
    }
}

/// `word_end` applied `n` times.
pub open spec fn word_end_n(cs: Seq<char>, k: nat, n: nat) -> nat
    decreases n,
{
    if n == 0 {
        k
    } else {
        word_end_n(cs, word_end(cs, k), (n - 1) as nat)
    }
}

/// The text and cursor after applying `edit` at cursor `k` (`k <= cs.len()`);
/// a single-line buffer does not take newlines.
pub open spec fn edit_result(cs: Seq<char>, k: nat, edit: TextEdit, multiline: bool) -> (
    Seq<char>,
    nat,
) {
    match edit {
        TextEdit::Left(n) => (
            cs,
            if k >= line_start_of(cs, k) + n {
                (k - n) as nat
            } else {
                line_start_of(cs, k)
            },
        ),
        TextEdit::Right(n) => (
            cs,
            if k + n <= line_end_of(cs, k) {
                k + n as nat
            } else {
                line_end_of(cs, k)
            },
        ),
        TextEdit::Up(n) => (
            cs,
            index_in_line(
                cs,
                line_start_row(cs, sat_sub_nat(row_of(cs, k), n as nat)),
                clamp_usize(col_bytes(cs, k)),
            ),
        ),
        TextEdit::Down(n) => (
            cs,
            index_in_line(
                cs,
                line_start_row(cs, clamp_usize(row_of(cs, k) + n as nat)),
                clamp_usize(col_bytes(cs, k)),
            ),
        ),
        TextEdit::LineStart => (cs, line_start_of(cs, k)),
        TextEdit::LineEnd => (cs, line_end_of(cs, k)),
        TextEdit::WordForward(n) => (cs, word_forward_n(cs, k, n as nat)),
        TextEdit::WordBackward(n) => (cs, word_backward_n(cs, k, n as nat)),
        TextEdit::WordEnd(n) => (cs, word_end_n(cs, k, n as nat)),
        TextEdit::AfterCursor => (
            cs,
            if k < line_end_of(cs, k) {
                k + 1
            } else {
                k
            },
        ),
        TextEdit::Insert(c) => if c == '\n' && !multiline {
            (cs, k)
        } else {
            (cs.take(k as int) + seq![c] + cs.skip(k as int), k + 1)
        },
        TextEdit::Backspace => if k > 0 {
            (cs.take(k - 1) + cs.skip(k as int), (k - 1) as nat)
        } else {
            (cs, k)
        },
        TextEdit::Delete => if k < cs.len() {
            (cs.take(k as int) + cs.skip(k + 1 as int), k)
        } else {
            (cs, k)
        },
    }
}

/// `a - b`, or zero when `b` is larger.
pub open spec fn sat_sub_nat(a: nat, b: nat) -> nat {
    if a >= b {
        (a - b) as nat
    } else {
        0
    }
}

/// Every edit leaves the cursor inside the text.
pub proof fn lemma_edit_result_in_bounds(cs: Seq<char>, k: nat, edit: TextEdit, multiline: bool)
    requires
        k <= cs.len(),
    ensures
        edit_result(cs, k, edit, multiline).1 <= edit_result(cs, k, edit, multiline).0.len(),
{
    lemma_line_start_bound(cs, k);
    lemma_line_end_bound(cs, k);
    match edit {
        TextEdit::Up(n) => {
            let start = line_start_row(cs, sat_sub_nat(row_of(cs, k), n as nat));
            lemma_line_start_row_bound(cs, sat_sub_nat(row_of(cs, k), n as nat));
            lemma_line_end_bound(cs, start);
            lemma_index_at_byte_bound(
                cs.subrange(start as int, line_end_of(cs, start) as int),
                clamp_usize(col_bytes(cs, k)),
            );
        },
        TextEdit::Down(n) => {
            let start = line_start_row(cs, clamp_usize(row_of(cs, k) + n as nat));
            lemma_line_start_row_bound(cs, clamp_usize(row_of(cs, k) + n as nat));
            lemma_line_end_bound(cs, start);
            lemma_index_at_byte_bound(
                cs.subrange(start as int, line_end_of(cs, start) as int),
                clamp_usize(col_bytes(cs, k)),
            );
        },
        TextEdit::WordForward(n) => lemma_word_forward_n_bound(cs, k, n as nat),
        TextEdit::WordBackward(n) => lemma_word_backward_n_bound(cs, k, n as nat),
        TextEdit::WordEnd(n) => lemma_word_end_n_bound(cs, k, n as nat),
        _ => {},
    }
}

/// Backspace undoes a typed character: typing `c` at the cursor and then
/// deleting the character before the cursor gives back the text and cursor.
pub proof fn lemma_backspace_undoes_insert(cs: Seq<char>, k: nat, c: char, multiline: bool)
    requires
        k <= cs.len(),
        c != '\n' || multiline,
    ensures
        ({
            let typed = edit_result(cs, k, TextEdit::Insert(c), multiline);
            edit_result(typed.0, typed.1, TextEdit::Backspace, multiline) == (cs, k)
        }),
{
    let typed = edit_result(cs, k, TextEdit::Insert(c), multiline);
    let t = typed.0;
    assert(t.take(k as int) =~= cs.take(k as int));
    assert(t.skip(k + 1 as int) =~= cs.skip(k as int));
    assert(cs.take(k as int) + cs.skip(k as int) =~= cs);
}

proof fn lemma_word_forward_n_bound(cs: Seq<char>, k: nat, n: nat)
    requires
        k <= cs.len(),
    ensures
        word_forward_n(cs, k, n) <= cs.len(),
    decreases n,
{
    if n > 0 {
        lemma_word_motions_in_bounds(cs, k);
        lemma_word_forward_n_bound(cs, word_forward(cs, k), (n - 1) as nat);
    }
}

proof fn lemma_word_backward_n_bound(cs: Seq<char>, k: nat, n: nat)
    requires
        k <= cs.len(),
    ensures
        word_backward_n(cs, k, n) <= cs.len(),
    decreases n,
{
    if n > 0 {
        lemma_word_motions_in_bounds(cs, k);
        lemma_word_backward_n_bound(cs, word_backward(cs, k), (n - 1) as nat);
    }
}

proof fn lemma_word_end_n_bound(cs: Seq<char>, k: nat, n: nat)
    requires
        k <= cs.len(),
    ensures
        word_end_n(cs, k, n) <= cs.len(),
    decreases n,
{
    if n > 0 {
        lemma_word_motions_in_bounds(cs, k);
        lemma_word_end_n_bound(cs, word_end(cs, k), (n - 1) as nat);
    }
}

/// Inserts `c` before index `k`.
fn insert_at(cs: &Vec<char>, k: usize, c: char) -> (r: Vec<char>)
    requires
        k <= cs@.len(),
    ensures
        r@ == cs@.take(k as int) + seq![c] + cs@.skip(k as int),
{
    let mut out: Vec<char> = Vec::new();
    let mut i: usize = 0;
    while i < cs.len()
        invariant
            i <= cs@.len(),
            k <= cs@.len(),
            out@ == (if i <= k {
                cs@.take(i as int)
            } else {
                cs@.take(k as int) + seq![c] + cs@.subrange(k as int, i as int)
            }),
        decreases cs@.len() - i,
    {
        if i == k {
            out.push(c);
        }
        out.push(cs[i]);
        proof {
            if i < k {
                assert(cs@.take(i + 1) =~= cs@.take(i as int).push(cs@[i as int]));
            } else if i == k {
                assert(cs@.take(k as int) + seq![c] + cs@.subrange(k as int, i + 1) =~= cs@.take(
                    i as int,
                ).push(c).push(cs@[i as int]));
            } else {
                assert(cs@.take(k as int) + seq![c] + cs@.subrange(k as int, i + 1) =~= (cs@.take(
                    k as int,
                ) + seq![c] + cs@.subrange(k as int, i as int)).push(cs@[i as int]));
            }
        }
        i += 1;
    }
    if k == cs.len() {
        out.push(c);
    }
    proof {
        assert(cs@.take(k as int) + seq![c] + cs@.skip(k as int) =~= out@);
    }
    out
}

/// Removes the character at index `k`.
fn remove_at(cs: &Vec<char>, k: usize) -> (r: Vec<char>)
    requires
        k < cs@.len(),
    ensures
        r@ == cs@.take(k as int) + cs@.skip(k + 1),
{
    let mut out: Vec<char> = Vec::new();
    let mut i: usize = 0;
    while i < cs.len()
        invariant
            i <= cs@.len(),
            k < cs@.len(),
            out@ == (if i <= k {
                cs@.take(i as int)
            } else {
                cs@.take(k as int) + cs@.subrange(k + 1, i as int)
            }),
        decreases cs@.len() - i,
    {
        if i != k {
            out.push(cs[i]);
        }
        proof {
            if i < k {
                assert(cs@.take(i + 1) =~= cs@.take(i as int).push(cs@[i as int]));
            } else if i == k {
                assert(cs@.take(k as int) + cs@.subrange(k + 1, i + 1) =~= cs@.take(i as int));
            } else {
                assert(cs@.take(k as int) + cs@.subrange(k + 1, i + 1) =~= (cs@.take(k as int)
                    + cs@.subrange(k + 1, i as int)).push(cs@[i as int]));
            }
        }
        i += 1;
    }
    proof {
        assert(cs@.take(k as int) + cs@.skip(k + 1) =~= out@);
    }
    out
}

/// Applies a word motion `n` times.
fn repeat_word_motion(cs: &Vec<char>, k: usize, n: usize, kind: u8) -> (r: usize)
    requires
        k <= cs@.len(),
        kind <= 2,
    ensures
        kind == 0 ==> r == word_forward_n(cs@, k as nat, n as nat),
        kind == 1 ==> r == word_backward_n(cs@, k as nat, n as nat),
        kind == 2 ==> r == word_end_n(cs@, k as nat, n as nat),
{
    let mut pos = k;
    let mut i: usize = 0;
    while i < n
        invariant
            i <= n,
            kind <= 2,
            pos <= cs@.len(),
            kind == 0 ==> word_forward_n(cs@, k as nat, n as nat) == word_forward_n(
                cs@,
                pos as nat,
                (n - i) as nat,
            ),
            kind == 1 ==> word_backward_n(cs@, k as nat, n as nat) == word_backward_n(
                cs@,
                pos as nat,
                (n - i) as nat,
            ),
            kind == 2 ==> word_end_n(cs@, k as nat, n as nat) == word_end_n(
                cs@,
                pos as nat,
                (n - i) as nat,
            ),
        decreases n - i,
    {
        proof {
            lemma_word_motions_in_bounds(cs@, pos as nat);
        }
        pos = if kind == 0 {
            next_word_start(cs.as_slice(), pos)
        } else if kind == 1 {
            prev_word_start(cs.as_slice(), pos)
        } else {
            next_word_end(cs.as_slice(), pos)
        };
        i += 1;
    }
    pos
}

/// Applies `edit` to the buffer `cs` with cursor `k` (see `edit_result`).
pub fn apply_edit(cs: &Vec<char>, k: usize, edit: TextEdit, multiline: bool) -> (r: (
    Vec<char>,
    usize,
))
    requires
        k <= cs@.len(),
    ensures
        (r.0@, r.1 as nat) == edit_result(cs@, k as nat, edit, multiline),
        r.1 <= r.0@.len(),
{
    proof {
        lemma_edit_result_in_bounds(cs@, k as nat, edit, multiline);
    }
    match edit {
        TextEdit::Left(n) => {
            let s = line_start(cs.as_slice(), k);
            let to = if k - s >= n { k - n } else { s };
            (cs.clone(), to)
        },
        TextEdit::Right(n) => {
            let e = line_end(cs.as_slice(), k);
            let to = if n <= e - k { k + n } else { e };
            (cs.clone(), to)
        },
        TextEdit::Up(n) => {
            let row = row_at(cs.as_slice(), k);
            let col = column_of(cs.as_slice(), k);
            let target = if row >= n { row - n } else { 0 };
            let start = start_of_row(cs.as_slice(), target);
            (cs.clone(), index_at_column(cs.as_slice(), start, col))
        },
        TextEdit::Down(n) => {
            let row = row_at(cs.as_slice(), k);
            let col = column_of(cs.as_slice(), k);
            let target = if row <= usize::MAX - n { row + n } else { usize::MAX };
            let start = start_of_row(cs.as_slice(), target);
            (cs.clone(), index_at_column(cs.as_slice(), start, col))
        },
        TextEdit::LineStart => (cs.clone(), line_start(cs.as_slice(), k)),
        TextEdit::LineEnd => (cs.clone(), line_end(cs.as_slice(), k)),
        TextEdit::WordForward(n) => (cs.clone(), repeat_word_motion(cs, k, n, 0)),
        TextEdit::WordBackward(n) => (cs.clone(), repeat_word_motion(cs, k, n, 1)),
        TextEdit::WordEnd(n) => (cs.clone(), repeat_word_motion(cs, k, n, 2)),
        TextEdit::AfterCursor => {
            let e = line_end(cs.as_slice(), k);
            (cs.clone(), if k < e { k + 1 } else { k })
        },
        TextEdit::Insert(c) => {
            if c == '\n' && !multiline {
                (cs.clone(), k)
            } else {
                let out = insert_at(cs, k, c);
                let _ = out.len();
                (out, k + 1)
            }
        },
        TextEdit::Backspace => {
            if k > 0 {
                let out = remove_at(cs, k - 1);
                proof {
                    assert(cs@.take(k - 1) + cs@.skip(k as int) =~= cs@.take(k - 1) + cs@.skip(
                        (k - 1) + 1,
                    ));
                }
                (out, k - 1)
            } else {
                (cs.clone(), k)
            }
        },
        TextEdit::Delete => {
            if k < cs.len() {
                (remove_at(cs, k), k)
            } else {
                (cs.clone(), k)
            }
        },
    }
}


/// Index of the first non-white-space character at or after `i`.
pub open spec fn trim_start_from(cs: Seq<char>, i: nat) -> nat
    decreases cs.len() - i,
{
    if i < cs.len() && is_whitespace(cs[i as int]) {
        trim_start_from(cs, i + 1)
    } else {
        i
    }
}

/// Index just past the last non-white-space character before `j`, not below `lo`.
pub open spec fn trim_end_from(cs: Seq<char>, j: nat, lo: nat) -> nat
    decreases j,
{
    if j > lo && is_whitespace(cs[j - 1]) {
        trim_end_from(cs, (j - 1) as nat, lo)
    } else {
        j
    }
}

/// The text without leading and trailing white space.
pub open spec fn trimmed(cs: Seq<char>) -> Seq<char> {
    let a = trim_start_from(cs, 0);
    cs.subrange(a as int, trim_end_from(cs, cs.len(), a) as int)
}

proof fn lemma_trim_start_bound(cs: Seq<char>, i: nat)
    requires
        i <= cs.len(),
    ensures
        i <= trim_start_from(cs, i) <= cs.len(),
        forall|j: int| i <= j < trim_start_from(cs, i) ==> is_whitespace(#[trigger] cs[j]),
        trim_start_from(cs, i) < cs.len() ==> !is_whitespace(cs[trim_start_from(cs, i) as int]),
    decreases cs.len() - i,
{
    if i < cs.len() && is_whitespace(cs[i as int]) {
        lemma_trim_start_bound(cs, i + 1);
    }
}

proof fn lemma_trim_end_bound(cs: Seq<char>, j: nat, lo: nat)
    requires
        lo <= j <= cs.len(),
    ensures
        lo <= trim_end_from(cs, j, lo) <= j,
    decreases j,
{
    if j > lo && is_whitespace(cs[j - 1]) {
        lemma_trim_end_bound(cs, (j - 1) as nat, lo);
    }
}

/// Trimming leaves nothing exactly when every character is white space.
pub proof fn lemma_trimmed_empty(cs: Seq<char>)
    ensures
        (trimmed(cs).len() == 0) == (forall|i: int| 0 <= i < cs.len() ==> is_whitespace(#[trigger] cs[i])),
{
    lemma_trim_start_bound(cs, 0);
    let a = trim_start_from(cs, 0);
    lemma_trim_end_bound(cs, cs.len(), a);
    if a < cs.len() {
        assert(trim_end_from(cs, cs.len(), a) > a) by {
            lemma_trim_end_above_word(cs, cs.len(), a);
        }
        assert(!is_whitespace(cs[a as int]));
    }
}

proof fn lemma_trim_end_above_word(cs: Seq<char>, j: nat, lo: nat)
    requires
        lo < j <= cs.len(),
        !is_whitespace(cs[lo as int]),
    ensures
        trim_end_from(cs, j, lo) > lo,
    decreases j,
{
    if j > lo + 1 && is_whitespace(cs[j - 1]) {
        lemma_trim_end_above_word(cs, (j - 1) as nat, lo);
    }
}

/// The index of the first `c` at or after `i`, or the length when there is none.
pub open spec fn index_of_from(s: Seq<char>, c: char, i: nat) -> nat
    decreases s.len() - i,
{
    if i >= s.len() {
        s.len()
    } else if s[i as int] == c {
        i
    } else {
        index_of_from(s, c, i + 1)
    }
}

/// The index found by `index_of_from` lies between `i` and the length, and
/// holds `c` when it is not the length.
pub proof fn lemma_index_of_from_bounds(s: Seq<char>, c: char, i: nat)
    requires
        i <= s.len(),
    ensures
        i <= index_of_from(s, c, i) <= s.len(),
        index_of_from(s, c, i) < s.len() ==> s[index_of_from(s, c, i) as int] == c,
    decreases s.len() - i,
{
    if i < s.len() && s[i as int] != c {
        lemma_index_of_from_bounds(s, c, i + 1);
    }
}

/// `str::trim`: the text without leading and trailing white space.
pub fn trim(s: &str) -> (r: String)
    ensures
        r@ == trimmed(s@),
{
    let cs = chars_of(s);
    let len = cs.len();
    let mut a: usize = 0;
    while a < len && whitespace_char(cs[a])
        invariant
            a <= len,
            len == cs@.len(),
            trim_start_from(cs@, 0) == trim_start_from(cs@, a as nat),
        decreases len - a,
    {
        a += 1;
    }
    let mut b: usize = len;
    while b > a && whitespace_char(cs[b - 1])
        invariant
            a <= b <= len,
            len == cs@.len(),
            trim_end_from(cs@, len as nat, a as nat) == trim_end_from(cs@, b as nat, a as nat),
        decreases b,
    {
        b -= 1;
    }
    string_of(vstd::slice::slice_subrange(cs.as_slice(), a, b))
}

/// The length of a text in bytes (saturating at `usize::MAX`, which no real
/// string reaches).
pub fn text_byte_len(s: &str) -> (r: usize)
    ensures
        r == clamp_usize(byte_len(s@)),
{
    let cs = chars_of(s);
    proof {
        assert(cs@.take(cs@.len() as int) =~= cs@);
    }
    byte_offset(cs.as_slice(), cs.len())
}

/// Whether the text is empty after trimming white space.
pub fn is_blank(s: &str) -> (r: bool)
    ensures
        r == (trimmed(s@).len() == 0),
{
    let t = trim(s);
    t.as_str().is_empty()
}

/// Whether two strings hold the same text.
pub fn str_eq(a: &str, b: &str) -> (r: bool)
    ensures
        r == (a@ == b@),
{
    let x = chars_of(a);
    let y = chars_of(b);
    if x.len() != y.len() {
        return false;
    }
    let mut i: usize = 0;
    while i < x.len()
        invariant
            i <= x@.len(),
            x@.len() == y@.len(),
            x@ == a@,
            y@ == b@,
            forall|j: int| 0 <= j < i ==> x@[j] == y@[j],
        decreases x@.len() - i,
    {
        if x[i] != y[i] {
            return false;
        }
        i += 1;
    }
    assert(x@ =~= y@);
    true
}

/// `std::string::String::push`: appends one character.
#[verifier::external_body]
fn string_push(s: &mut String, c: char)
    ensures
        final(s)@ == old(s)@.push(c),
{
    s.push(c);
}

/// The digit character for `d` (below ten).
pub open spec fn digit_char(d: nat) -> char {
    if d == 0 { '0' } else if d == 1 { '1' } else if d == 2 { '2' } else if d == 3 { '3' } else if d == 4 {
        '4'
    } else if d == 5 { '5' } else if d == 6 { '6' } else if d == 7 { '7' } else if d == 8 { '8' } else {
        '9'
    }
}

/// `n` written in decimal, without leading zeros.
pub open spec fn decimal(n: nat) -> Seq<char>
    decreases n,
{
    if n < 10 {
        seq![digit_char(n)]
    } else {
        decimal(n / 10).push(digit_char(n % 10))
    }
}

fn digit(d: usize) -> (r: char)
    requires
        d < 10,
    ensures
        r == digit_char(d as nat),
{
    match d {
        0 => '0',
        1 => '1',
        2 => '2',
        3 => '3',
        4 => '4',
        5 => '5',
        6 => '6',
        7 => '7',
        8 => '8',
        _ => '9',
    }
}

/// `n` in decimal (see `decimal`).
pub fn decimal_text(n: usize) -> (r: String)
    ensures
        r@ == decimal(n as nat),
    decreases n,
{
    if n < 10 {
        let mut s = String::new();
        string_push(&mut s, digit(n));
        assert(s@ =~= seq![digit_char(n as nat)]);
        s
    } else {
        let mut s = decimal_text(n / 10);
        string_push(&mut s, digit(n % 10));
        s
    }
}

/// Copies the characters of `s` into a vector.
pub fn chars_of(s: &str) -> (v: Vec<char>)
    ensures
        v@ == s@,
{
    let mut v: Vec<char> = Vec::new();
    for c in it: s.chars()
        invariant
            v@ == it.seq().take(it.index() as int),
            it.seq() == s@,
    {
        v.push(c);
    }
    v
}

/// Builds a string from a slice of characters.
pub fn string_of(cs: &[char]) -> (s: String)
    ensures
        s@ == cs@,
{
    let mut s = String::new();
    let mut i: usize = 0;
    while i < cs.len()
        invariant
            i <= cs.len(),
            s@ == cs@.take(i as int),
        decreases cs.len() - i,
    {
        string_push(&mut s, cs[i]);
        assert(cs@.take(i + 1) == cs@.take(i as int).push(cs@[i as int]));
        i += 1;
    }
    assert(cs@.take(cs.len() as int) == cs@);
    s
}

} // verus!

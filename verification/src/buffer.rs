//! Line-addressable text buffer.
//!
//! The engine walks the operator's text one line at a time.  `TextBuffer`
//! models the editable buffer as a character sequence plus a caret: lines are
//! the spans delimited by `'\n'`, a line's addressed span includes its
//! terminating `'\n'`, and a line's text excludes it.  The extractor yields
//! the line containing the caret, enforces the length cap, and advances the
//! caret to the start of the following line.

use vstd::prelude::*;

verus! {

/// Hard cap on the addressed length of a single line; a longer line is a
/// reported error, never a silent truncation.
pub const MAX_LINE_LEN: usize = 1024;

/// Number of `'\n'` characters strictly before position `n`.
pub open spec fn newlines_before(text: Seq<char>, n: int) -> nat
    decreases n,
{
    if n <= 0 {
        0
    } else {
        newlines_before(text, n - 1) + if 0 <= n - 1 < text.len() && text[n - 1] == '\n' {
            1nat
        } else {
            0nat
        }
    }
}

/// The index of the line containing the character offset `off`.
pub open spec fn line_of(text: Seq<char>, off: int) -> nat {
    newlines_before(text, off)
}

/// The start of the line following position `from`: one past the first `'\n'`
/// at or after `from`, or `None` if no further line exists.
pub open spec fn next_line_start(text: Seq<char>, from: int) -> Option<int>
    decreases text.len() - from,
{
    if from < 0 || from >= text.len() {
        None
    } else if text[from] == '\n' {
        Some(from + 1)
    } else {
        next_line_start(text, from + 1)
    }
}

/// The character offset at which line `i` starts, or `None` if the buffer has
/// no line `i`.
pub open spec fn line_start(text: Seq<char>, i: nat) -> Option<int>
    decreases i,
{
    if i == 0 {
        Some(0)
    } else {
        match line_start(text, (i - 1) as nat) {
            Option::None => Option::None,
            Option::Some(p) => next_line_start(text, p),
        }
    }
}

proof fn lemma_next_line_start_bounds(text: Seq<char>, from: int)
    requires
        0 <= from <= text.len(),
    ensures
        match next_line_start(text, from) {
            Option::Some(n) => from < n <= text.len() && text[n - 1] == '\n' && (forall|j: int|
                from <= j < n - 1 ==> #[trigger] text[j] != '\n'),
            Option::None => forall|j: int| from <= j < text.len() ==> #[trigger] text[j] != '\n',
        },
    decreases text.len() - from,
{
    if from < text.len() && text[from] != '\n' {
        lemma_next_line_start_bounds(text, from + 1);
    }
}

proof fn lemma_newlines_before_mono(text: Seq<char>, a: int, b: int)
    requires
        a <= b,
    ensures
        newlines_before(text, a) <= newlines_before(text, b),
    decreases b - a,
{
    if a < b {
        lemma_newlines_before_mono(text, a, b - 1);
    }
}

proof fn lemma_newlines_before_strict(text: Seq<char>, a: int, j: int, b: int)
    requires
        a <= j < b,
        0 <= j < text.len(),
        text[j] == '\n',
    ensures
        newlines_before(text, a) < newlines_before(text, b),
{
    lemma_newlines_before_mono(text, a, j);
    assert(newlines_before(text, j + 1) == newlines_before(text, j) + 1);
    lemma_newlines_before_mono(text, j + 1, b);
}

proof fn lemma_next_line_start_found(text: Seq<char>, from: int, m: int)
    requires
        0 <= from <= m < text.len(),
        text[m] == '\n',
        forall|j: int| from <= j < m ==> #[trigger] text[j] != '\n',
    ensures
        next_line_start(text, from) == Some(m + 1),
    decreases m - from,
{
    if from < m {
        lemma_next_line_start_found(text, from + 1, m);
    }
}

/// The start of the line containing offset `off` exists, lies at or before
/// `off`, and no `'\n'` separates it from `off`'s line index.
proof fn lemma_cur_line_start_exists(text: Seq<char>, off: int)
    requires
        0 <= off <= text.len(),
    ensures
        ({
            let ls = line_start(text, line_of(text, off));
            &&& ls matches Some(p)
            &&& 0 <= ls->Some_0 <= off
            &&& newlines_before(text, ls->Some_0) == line_of(text, off)
        }),
    decreases off,
{
    if off == 0 {
    } else {
        lemma_cur_line_start_exists(text, off - 1);
        let p = line_start(text, line_of(text, off - 1))->Some_0;
        if 0 <= off - 1 < text.len() && text[off - 1] == '\n' {
            assert(line_of(text, off) == line_of(text, off - 1) + 1);
            assert forall|j: int| p <= j < off - 1 implies #[trigger] text[j] != '\n' by {
                if 0 <= j < text.len() && text[j] == '\n' {
                    lemma_newlines_before_strict(text, p, j, off - 1);
                }
            }
            lemma_next_line_start_found(text, p, off - 1);
            assert(line_start(text, line_of(text, off)) == next_line_start(text, p));
        } else {
            assert(line_of(text, off) == line_of(text, off - 1));
        }
    }
}

proof fn lemma_line_start_bounds(text: Seq<char>, i: nat)
    ensures
        line_start(text, i) matches Some(p) ==> 0 <= p <= text.len(),
    decreases i,
{
    if i > 0 {
        lemma_line_start_bounds(text, (i - 1) as nat);
        match line_start(text, (i - 1) as nat) {
            Option::Some(p) => {
                lemma_next_line_start_bounds(text, p);
            },
            Option::None => {},
        }
    }
}

proof fn lemma_line_start_none_mono(text: Seq<char>, i: nat, j: nat)
    requires
        i <= j,
        line_start(text, i) is None,
    ensures
        line_start(text, j) is None,
    decreases j,
{
    if i < j {
        lemma_line_start_none_mono(text, i, (j - 1) as nat);
    }
}

/// Law: extraction makes progress.  Whenever a line follows the caret's
/// line, that line starts strictly after the caret, so advancing the caret
/// to it strictly shrinks the text remaining — a continuous session over an
/// unchanging buffer reaches the buffer end after finitely many lines.
pub proof fn lemma_extraction_progress(text: Seq<char>, caret: int)
    requires
        0 <= caret <= text.len(),
        cur_next_start(text, caret) is Some,
    ensures
        caret < cur_next_start(text, caret)->Some_0 <= text.len(),
{
    lemma_cur_line_start_exists(text, caret);
    let p = line_start(text, line_of(text, caret))->Some_0;
    lemma_next_line_start_bounds(text, p);
    let n = cur_next_start(text, caret)->Some_0;
    if n <= caret {
        lemma_newlines_before_strict(text, p, n - 1, caret);
    }
}

/// The text of line `i`, without its terminating `'\n'`; empty if the buffer
/// has no line `i`.
pub open spec fn line_text_at(text: Seq<char>, i: nat) -> Seq<char> {
    match line_start(text, i) {
        Option::None => Seq::empty(),
        Option::Some(p) => match next_line_start(text, p) {
            Option::Some(n) => text.subrange(p, n - 1),
            Option::None => text.subrange(p, text.len() as int),
        },
    }
}

/// The start of the line containing the caret.
pub open spec fn cur_line_start(text: Seq<char>, caret: int) -> int {
    line_start(text, line_of(text, caret))->Some_0
}

/// The start of the line after the caret's line, if one exists.
pub open spec fn cur_next_start(text: Seq<char>, caret: int) -> Option<int> {
    line_start(text, line_of(text, caret) + 1)
}

/// The addressed length of the caret's line: up to the next line's start
/// (including the terminating `'\n'`), or to the buffer end for the last
/// line.
pub open spec fn cur_line_len(text: Seq<char>, caret: int) -> int {
    match cur_next_start(text, caret) {
        Option::Some(n) => n - cur_line_start(text, caret),
        Option::None => text.len() - cur_line_start(text, caret),
    }
}

/// The text of the caret's line, without its terminating `'\n'`.
pub open spec fn cur_line_text(text: Seq<char>, caret: int) -> Seq<char> {
    let ls = cur_line_start(text, caret);
    match cur_next_start(text, caret) {
        Option::Some(n) => text.subrange(ls, n - 1),
        Option::None => text.subrange(ls, text.len() as int),
    }
}

/// Extraction finds no further content at the caret: the caret's line spans
/// no characters, or spans only its terminator.
pub open spec fn extract_no_more(text: Seq<char>, caret: int) -> bool {
    cur_line_len(text, caret) == 0 || cur_line_text(text, caret).len() == 0
}

/// The caret's line exceeds the length cap.
pub open spec fn extract_too_long(text: Seq<char>, caret: int) -> bool {
    !extract_no_more(text, caret) && cur_line_len(text, caret) > MAX_LINE_LEN
}

/// What extracting the caret's line yields.
pub enum Extraction {
    /// The caret's line spans no content: the end of the buffer is reached.
    NoMore,
    /// The caret's line spans `length` characters, over the cap.
    TooLong { length: usize },
    /// The line's text, and the caret position for the following line
    /// (`None`: no line follows, the session ends after this line).
    Line { text: Vec<char>, next_caret: Option<usize> },
}

/// The operator's editable text with its caret, modelled as a character
/// sequence: lines are delimited by `'\n'`.
pub struct TextBuffer {
    chars: Vec<char>,
    caret: usize,
}

impl TextBuffer {
    /// The buffer's text.
    pub closed spec fn text(&self) -> Seq<char> {
        self.chars@
    }

    /// The caret: the offset at which the next extraction starts.
    pub closed spec fn cursor(&self) -> int {
        self.caret as int
    }

    pub open spec fn wf(&self) -> bool {
        &&& self.cursor() <= self.text().len()
        &&& self.text().len() < usize::MAX
    }

    pub fn new() -> (buf: TextBuffer)
        ensures
            buf.wf(),
            buf.text() == Seq::<char>::empty(),
            buf.cursor() == 0,
    {
        let buf = TextBuffer { chars: Vec::new(), caret: 0 };
        proof {
            assert(buf.text() =~= Seq::<char>::empty());
        }
        buf
    }

    /// Replace the whole text and reset the caret to the buffer start.
    pub fn set_text(&mut self, text: Vec<char>)
        requires
            text@.len() < usize::MAX,
        ensures
            final(self).wf(),
            final(self).text() == text@,
            final(self).cursor() == 0,
    {
        self.chars = text;
        self.caret = 0;
    }

    /// The whole text.
    pub fn get_text(&self) -> (text: &Vec<char>)
        ensures
            text@ == self.text(),
    {
        &self.chars
    }

    pub fn text_length(&self) -> (n: usize)
        ensures
            n == self.text().len(),
    {
        self.chars.len()
    }

    /// Move the caret, clamping it to the buffer end.
    pub fn set_selection(&mut self, pos: usize)
        requires
            old(self).wf(),
        ensures
            final(self).wf(),
            final(self).text() == old(self).text(),
            final(self).cursor() == if pos <= old(self).text().len() {
                pos as int
            } else {
                old(self).text().len() as int
            },
    {
        if pos <= self.chars.len() {
            self.caret = pos;
        } else {
            self.caret = self.chars.len();
        }
    }

    pub fn get_selection(&self) -> (pos: usize)
        ensures
            pos == self.cursor(),
    {
        self.caret
    }

    /// The index of the line containing offset `off`.
    pub fn line_index_of(&self, off: usize) -> (i: usize)
        requires
            self.wf(),
            off <= self.text().len(),
        ensures
            i == line_of(self.text(), off as int),
            i <= off,
    {
        let mut count: usize = 0;
        let mut j: usize = 0;
        while j < off
            invariant
                j <= off <= self.text().len() < usize::MAX,
                count == newlines_before(self.text(), j as int),
                count <= j,
            decreases off - j,
        {
            if self.chars[j] == '\n' {
                count = count + 1;
            }
            j = j + 1;
        }
        count
    }

    /// The character offset at which line `i` starts, or `None` if the buffer
    /// has no line `i`.
    pub fn line_char_offset(&self, i: usize) -> (r: Option<usize>)
        requires
            self.wf(),
        ensures
            match line_start(self.text(), i as nat) {
                Option::Some(p) => r matches Some(q) && q == p,
                Option::None => r is None,
            },
    {
        let ghost text = self.text();
        let mut start: usize = 0;
        let mut k: usize = 0;
        while k < i
            invariant
                self.wf(),
                text == self.text(),
                k <= i,
                start <= text.len(),
                line_start(text, k as nat) == Some(start as int),
            decreases i - k,
        {
            let mut j: usize = start;
            while j < self.chars.len() && self.chars[j] != '\n'
                invariant
                    self.wf(),
                    text == self.text(),
                    start <= j <= text.len(),
                    next_line_start(text, start as int) == next_line_start(text, j as int),
                decreases text.len() - j,
            {
                j = j + 1;
            }
            if j == self.chars.len() {
                proof {
                    assert(next_line_start(text, start as int) is None);
                    assert(line_start(text, (k + 1) as nat) is None);
                    lemma_line_start_none_mono(text, (k + 1) as nat, i as nat);
                }
                return None;
            }
            start = j + 1;
            k = k + 1;
        }
        Some(start)
    }

    /// The text of line `i`, without its terminator, cut off after `max_len`
    /// characters; empty if the buffer has no line `i`.
    pub fn get_line_text(&self, i: usize, max_len: usize) -> (r: Vec<char>)
        requires
            self.wf(),
        ensures
            ({
                let lt = line_text_at(self.text(), i as nat);
                r@ == if max_len < lt.len() {
                    lt.take(max_len as int)
                } else {
                    lt
                }
            }),
    {
        let ghost text = self.text();
        let mut r: Vec<char> = Vec::new();
        let p = match self.line_char_offset(i) {
            Option::Some(p) => p,
            Option::None => {
                proof {
                    assert(line_text_at(text, i as nat) =~= Seq::<char>::empty());
                }
                return r;
            },
        };
        proof {
            lemma_line_start_bounds(text, i as nat);
            lemma_next_line_start_bounds(text, p as int);
        }
        let mut j: usize = p;
        while j < self.chars.len() && self.chars[j] != '\n'
            invariant
                self.wf(),
                text == self.text(),
                p <= j <= text.len(),
                next_line_start(text, p as int) == next_line_start(text, j as int),
            decreases text.len() - j,
        {
            j = j + 1;
        }
        proof {
            assert(line_text_at(text, i as nat) == text.subrange(p as int, j as int));
        }
        let cap: usize = if max_len < j - p {
            p + max_len
        } else {
            j
        };
        proof {
            let lt = line_text_at(text, i as nat);
            if max_len < j - p {
                assert(lt.take(max_len as int) =~= text.subrange(p as int, cap as int));
            }
        }
        let mut k: usize = p;
        while k < cap
            invariant
                self.wf(),
                text == self.text(),
                p <= k <= cap <= text.len(),
                r@ == text.subrange(p as int, k as int),
            decreases cap - k,
        {
            r.push(self.chars[k]);
            proof {
                assert(r@ =~= text.subrange(p as int, k + 1));
            }
            k = k + 1;
        }
        r
    }

    /// Extract the line containing the caret and advance the caret to the
    /// start of the following line, if one exists.
    ///
    /// The addressed span of the caret's line runs to the next line's start
    /// (including the terminating `'\n'`) or, for the last line, to the
    /// buffer end.  A span of no characters, or one spanning only its
    /// terminator, signals no more content; a span over `MAX_LINE_LEN`
    /// signals a line-too-long error and leaves the caret unmoved.
    pub fn extract_line(&mut self) -> (r: Extraction)
        requires
            old(self).wf(),
        ensures
            final(self).wf(),
            final(self).text() == old(self).text(),
            ({
                let text = old(self).text();
                let caret = old(self).cursor();
                &&& (r is NoMore <==> extract_no_more(text, caret))
                &&& (r is TooLong <==> extract_too_long(text, caret))
                &&& (r matches Extraction::TooLong { length } ==> length == cur_line_len(
                    text,
                    caret,
                ))
                &&& (r matches Extraction::Line { text: line, next_caret } ==> {
                    &&& line@ == cur_line_text(text, caret)
                    &&& (match next_caret {
                        Option::Some(n) => cur_next_start(text, caret) == Some(n as int)
                            && final(self).cursor() == n,
                        Option::None => cur_next_start(text, caret) is None
                            && final(self).cursor() == caret,
                    })
                })
                &&& (!(r is Line) ==> final(self).cursor() == caret)
            }),
    {
        let ghost text = self.text();
        let ghost caret = self.cursor();
        proof {
            lemma_cur_line_start_exists(text, caret);
        }
        let li = self.line_index_of(self.caret);
        let ls = self.line_char_offset(li).unwrap();
        let nls = self.line_char_offset(li + 1);
        proof {
            assert(line_start(text, (li + 1) as nat) == next_line_start(text, ls as int));
            lemma_next_line_start_bounds(text, ls as int);
        }
        let length: usize = match nls {
            Option::Some(n) => n - ls,
            Option::None => self.chars.len() - ls,
        };
        proof {
            assert(length == cur_line_len(text, caret));
        }
        if length == 0 {
            return Extraction::NoMore;
        }
        let end: usize = match nls {
            Option::Some(n) => n - 1,
            Option::None => self.chars.len(),
        };
        proof {
            assert(cur_line_text(text, caret) == text.subrange(ls as int, end as int));
            assert(cur_line_text(text, caret).len() == end - ls);
        }
        if length > MAX_LINE_LEN {
            return Extraction::TooLong { length };
        }
        let mut line: Vec<char> = Vec::new();
        let mut j: usize = ls;
        while j < end
            invariant
                self.wf(),
                text == self.text(),
                ls <= j <= end <= text.len(),
                line@ == text.subrange(ls as int, j as int),
            decreases end - j,
        {
            line.push(self.chars[j]);
            proof {
                assert(line@ =~= text.subrange(ls as int, j + 1));
            }
            j = j + 1;
        }
        if line.len() == 0 {
            return Extraction::NoMore;
        }
        let next_caret: Option<usize> = match nls {
            Option::Some(n) => Option::Some(n),
            Option::None => {
                if ls + length >= self.chars.len() {
                    Option::None
                } else {
                    Option::Some(self.chars.len())
                }
            },
        };
        if let Option::Some(n) = next_caret {
            self.caret = n;
        }
        Extraction::Line { text: line, next_caret }
    }
}

} // verus!

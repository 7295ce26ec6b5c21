//! Splitting a script into its `;`-separated statements.
//!
//! The scan keeps a stack of lexical contexts so that a `;` inside a quoted
//! literal or inside parentheses does not end a statement. The scan never
//! fails: whatever is still open at the end of the input is ignored.

use vstd::prelude::*;
use vstd::std_specs::iter::IteratorSpec;

verus! {

/// A lexical context that the scan can be inside of.
#[derive(Clone, Copy, Debug, PartialEq, Eq, Structural)]
pub enum State {
    /// Between `(` and the matching `)`.
    Group,
    /// Between `'` and the closing `'`.
    String,
}

/// The position and the context stack once the character at `i` has been read
/// with `stack` open. Every character moves the scan by one position, except
/// a doubled quote inside a literal, which is read as a whole.
pub open spec fn advance(s: Seq<char>, i: int, stack: Seq<State>) -> (int, Seq<State>) {
    let c = s[i];
    if stack.len() == 0 {
        if c == '\'' {
            (i + 1, stack.push(State::String))
        } else if c == '(' {
            (i + 1, stack.push(State::Group))
        } else {
            (i + 1, stack)
        }
    } else if stack.last() == State::Group {
        if c == ')' {
            (i + 1, stack.drop_last())
        } else if c == '(' {
            (i + 1, stack.push(State::Group))
        } else if c == '\'' {
            (i + 1, stack.push(State::String))
        } else {
            (i + 1, stack)
        }
    } else {
        if c == '\'' {
            if i + 1 < s.len() && s[i + 1] == '\'' {
                (i + 2, stack)
            } else {
                (i + 1, stack.drop_last())
            }
        } else {
            (i + 1, stack)
        }
    }
}

/// The index of the first `;` that a scan from `i`, with `stack` open, meets
/// at top level; the length of `s` if it meets none.
pub open spec fn next_cut(s: Seq<char>, i: int, stack: Seq<State>) -> int
    decreases s.len() - i,
{
    if i < 0 || i >= s.len() {
        s.len() as int
    } else if stack.len() == 0 && s[i] == ';' {
        i
    } else {
        let step = advance(s, i, stack);
        next_cut(s, step.0, step.1)
    }
}

/// The segments of `s` from `offset` on: each runs up to the next top-level
/// `;`, and what follows the last one is a segment unless it is empty.
pub open spec fn segments_from(s: Seq<char>, offset: int) -> Seq<Seq<char>>
    decreases s.len() - offset,
{
    let cut = next_cut(s, offset, Seq::empty());
    if offset < 0 {
        Seq::empty()
    } else if offset <= cut < s.len() {
        seq![s.subrange(offset, cut)] + segments_from(s, cut + 1)
    } else if offset < s.len() {
        seq![s.subrange(offset, s.len() as int)]
    } else {
        Seq::empty()
    }
}

/// The segments of a whole script, in source order.
pub open spec fn segments(s: Seq<char>) -> Seq<Seq<char>> {
    segments_from(s, 0)
}

/// A scan from `i` never finds a cut before `i` nor past the end.
pub proof fn lemma_next_cut_bounds(s: Seq<char>, i: int, stack: Seq<State>)
    requires
        0 <= i <= s.len(),
    ensures
        i <= next_cut(s, i, stack) <= s.len(),
        next_cut(s, i, stack) < s.len() ==> s[next_cut(s, i, stack)] == ';',
    decreases s.len() - i,
{
    if i < s.len() && !(stack.len() == 0 && s[i] == ';') {
        let step = advance(s, i, stack);
        lemma_next_cut_bounds(s, step.0, step.1);
    }
}

/// The parts put back together with a `;` between each two neighbours.
pub open spec fn join(parts: Seq<Seq<char>>) -> Seq<char>
    decreases parts.len(),
{
    if parts.len() == 0 {
        Seq::empty()
    } else if parts.len() == 1 {
        parts[0]
    } else {
        parts[0] + seq![';'] + join(parts.drop_first())
    }
}

/// Whether the last character of `s` is a `;` at which the scan from
/// `offset` cuts.
pub open spec fn ends_in_cut(s: Seq<char>, offset: int) -> bool
    decreases s.len() - offset,
{
    let cut = next_cut(s, offset, Seq::empty());
    0 <= offset <= cut < s.len() && (cut + 1 == s.len() || ends_in_cut(s, cut + 1))
}

/// Whether `s` is free of quotes and opening parentheses, so that the scan
/// never leaves the top level.
pub open spec fn is_plain(s: Seq<char>) -> bool {
    forall|i: int| 0 <= i < s.len() ==> s[i] != '\'' && s[i] != '('
}

/// Joining the segments gives the script back, short of a final `;` that
/// ended the last statement: no character is lost or added, and the cuts are
/// exactly the places between the segments.
pub proof fn lemma_join_segments(s: Seq<char>, offset: int)
    requires
        0 <= offset <= s.len(),
    ensures
        join(segments_from(s, offset)) == s.subrange(
            offset,
            s.len() - if ends_in_cut(s, offset) { 1int } else { 0int },
        ),
    decreases s.len() - offset,
{
    let cut = next_cut(s, offset, Seq::empty());
    let end = s.len() - if ends_in_cut(s, offset) { 1int } else { 0int };
    lemma_next_cut_bounds(s, offset, Seq::empty());
    if cut < s.len() {
        let head = s.subrange(offset, cut);
        let rest = segments_from(s, cut + 1);
        let all = segments_from(s, offset);
        assert(all =~= seq![head] + rest);
        lemma_join_segments(s, cut + 1);
        lemma_next_cut_bounds(s, cut + 1, Seq::empty());
        if cut + 1 == s.len() {
            assert(rest =~= Seq::empty());
            assert(all =~= seq![head]);
            assert(join(all) =~= s.subrange(offset, end));
        } else {
            assert(rest.len() > 0);
            assert(all.drop_first() =~= rest);
            assert(join(all) =~= s.subrange(offset, end));
        }
    } else if offset < s.len() {
        assert(join(segments_from(s, offset)) =~= s.subrange(offset, end));
    } else {
        assert(join(segments_from(s, offset)) =~= s.subrange(offset, end));
    }
}

/// At top level, the scan over a plain script stops at the first `;`.
proof fn lemma_plain_next_cut(s: Seq<char>, i: int, j: int)
    requires
        is_plain(s),
        0 <= i <= j < s.len(),
        s[j] == ';',
    ensures
        next_cut(s, i, Seq::empty()) <= j,
    decreases j - i,
{
    if s[i] != ';' {
        assert(advance(s, i, Seq::empty()) == (i + 1, Seq::<State>::empty()));
        lemma_plain_next_cut(s, i + 1, j);
    }
}

/// A plain script ends in a cut exactly when its last character is a `;`.
proof fn lemma_plain_ends_in_cut(s: Seq<char>, offset: int)
    requires
        is_plain(s),
        0 <= offset <= s.len(),
    ensures
        ends_in_cut(s, offset) <==> offset < s.len() && s.last() == ';',
    decreases s.len() - offset,
{
    let cut = next_cut(s, offset, Seq::empty());
    lemma_next_cut_bounds(s, offset, Seq::empty());
    if cut < s.len() {
        if cut + 1 < s.len() {
            lemma_plain_ends_in_cut(s, cut + 1);
        }
    } else if offset < s.len() && s.last() == ';' {
        lemma_plain_next_cut(s, offset, s.len() - 1);
    }
}

/// Round trip: a script without quotes or parentheses that does not end in a
/// `;` is its segments joined by `;`.
pub proof fn lemma_plain_script_roundtrip(s: Seq<char>)
    requires
        is_plain(s),
        s.len() == 0 || s.last() != ';',
    ensures
        join(segments(s)) == s,
{
    lemma_join_segments(s, 0);
    lemma_plain_ends_in_cut(s, 0);
    assert(s.subrange(0, s.len() as int) =~= s);
}

/// A plain script that ends in a `;` loses exactly that last character in
/// the round trip: no empty segment is made for what follows it.
pub proof fn lemma_plain_script_trailing_cut(s: Seq<char>)
    requires
        is_plain(s),
        s.len() > 0,
        s.last() == ';',
    ensures
        join(segments(s)) == s.drop_last(),
{
    lemma_join_segments(s, 0);
    lemma_plain_ends_in_cut(s, 0);
}

/// The segments that are worth compiling: those that hold at least one
/// character, in their order.
pub open spec fn to_prepare(parts: Seq<Seq<char>>) -> Seq<Seq<char>>
    decreases parts.len(),
{
    if parts.len() == 0 {
        Seq::empty()
    } else if parts[0].len() == 0 {
        to_prepare(parts.drop_first())
    } else {
        seq![parts[0]] + to_prepare(parts.drop_first())
    }
}

/// The statements of a script, handed out one at a time.
pub struct Statements<'a> {
    sql: &'a str,
    /// The characters of `sql`, for reading by index.
    chars: Vec<char>,
    /// Index of the next character that the scan reads.
    pos: usize,
    /// Index at which the segment being scanned starts.
    offset: usize,
    state: Vec<State>,
}

impl<'a> View for Statements<'a> {
    type V = Seq<Seq<char>>;

    /// The segments that are still to come.
    closed spec fn view(&self) -> Seq<Seq<char>> {
        segments_from(self.sql@, self.offset as int)
    }
}

impl<'a> Statements<'a> {
    /// The script being split.
    pub closed spec fn script(&self) -> Seq<char> {
        self.sql@
    }

    /// The scan is consistent with the script: the next cut seen from `pos`
    /// with the open contexts is the one that ends the segment starting at
    /// `offset`.
    pub closed spec fn wf(&self) -> bool {
        &&& self.chars@ == self.sql@
        &&& self.offset <= self.pos <= self.chars.len()
        &&& next_cut(self.sql@, self.offset as int, Seq::empty()) == next_cut(
            self.sql@,
            self.pos as int,
            self.state@,
        )
    }

    /// Yields the next statement of the script, or `None` once all of them
    /// have been handed out.
    pub fn next(&mut self) -> (r: Option<&'a str>)
        requires
            old(self).wf(),
        ensures
            final(self).wf(),
            final(self).script() == old(self).script(),
            old(self)@.len() == 0 ==> r is None && final(self)@ == old(self)@,
            old(self)@.len() > 0 ==> r is Some && r->0@ == old(self)@[0] && final(self)@ == old(
                self,
            )@.drop_first(),
    {
        let ghost s = self.sql@;
        proof {
            lemma_next_cut_bounds(s, self.offset as int, Seq::empty());
        }
        while self.pos < self.chars.len()
            invariant
                self.wf(),
                self.sql == old(self).sql,
                self.offset == old(self).offset,
                s == self.sql@,
            decreases self.chars.len() - self.pos,
        {
            let c = self.chars[self.pos];
            if self.state.len() == 0 {
                if c == ';' {
                    let stmt = self.sql.substring_char(self.offset, self.pos);
                    self.offset = self.pos + 1;
                    self.pos = self.pos + 1;
                    proof {
                        assert(self.state@ =~= Seq::empty());
                        assert(old(self)@.drop_first() =~= self@);
                    }
                    return Some(stmt);
                } else if c == '\'' {
                    self.state.push(State::String);
                } else if c == '(' {
                    self.state.push(State::Group);
                }
                self.pos = self.pos + 1;
            } else {
                match self.state[self.state.len() - 1] {
                    State::Group => {
                        if c == ')' {
                            self.state.pop();
                        } else if c == '(' {
                            self.state.push(State::Group);
                        } else if c == '\'' {
                            self.state.push(State::String);
                        }
                        self.pos = self.pos + 1;
                    },
                    State::String => {
                        if c != '\'' {
                            self.pos = self.pos + 1;
                        } else if self.pos + 1 < self.chars.len() && self.chars[self.pos + 1]
                            == '\'' {
                            self.pos = self.pos + 2;
                        } else {
                            self.state.pop();
                            self.pos = self.pos + 1;
                        }
                    },
                }
            }
        }
        if self.offset < self.chars.len() {
            let stmt = self.sql.substring_char(self.offset, self.chars.len());
            self.offset = self.chars.len();
            proof {
                assert(old(self)@.drop_first() =~= self@);
            }
            Some(stmt)
        } else {
            None
        }
    }

    /// Yields the next statement that is not empty, skipping the empty ones
    /// before it, or `None` once no such statement is left.
    pub fn next_nonempty(&mut self) -> (r: Option<&'a str>)
        requires
            old(self).wf(),
        ensures
            final(self).wf(),
            final(self).script() == old(self).script(),
            to_prepare(old(self)@).len() == 0 ==> r is None && final(self)@.len() == 0,
            to_prepare(old(self)@).len() > 0 ==> r is Some && r->0@ == to_prepare(old(self)@)[0]
                && to_prepare(final(self)@) == to_prepare(old(self)@).drop_first(),
    {
        loop
            invariant
                self.wf(),
                self.script() == old(self).script(),
                to_prepare(self@) == to_prepare(old(self)@),
            decreases self@.len(),
        {
            match self.next() {
                None => {
                    return None;
                },
                Some(part) => {
                    if !part.is_empty() {
                        assert(to_prepare(self@) =~= to_prepare(old(self)@).drop_first());
                        return Some(part);
                    }
                },
            }
        }
    }
}

/// The characters of a string, in order.
fn characters(sql: &str) -> (r: Vec<char>)
    ensures
        r@ == sql@,
{
    let mut chars = sql.chars();
    let mut r: Vec<char> = Vec::new();
    loop
        invariant
            r.len() <= sql@.len(),
            r@ == sql@.take(r.len() as int),
            chars.remaining() == sql@.skip(r.len() as int),
        ensures
            r@ == sql@,
        decreases sql@.len() - r.len(),
    {
        match chars.next() {
            Some(c) => {
                r.push(c);
            },
            None => {
                break ;
            },
        }
    }
    r
}

/// Splits a script into its statements.
pub fn split_statement_list<'a>(sql: &'a str) -> (r: Statements<'a>)
    ensures
        r.wf(),
        r.script() == sql@,
        r@ == segments(sql@),
{
    Statements { sql, chars: characters(sql), pos: 0, offset: 0, state: Vec::new() }
}

} // verus!

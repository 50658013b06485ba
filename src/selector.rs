//! The selection loop as a state machine: a cursor over a non-empty list of
//! candidates, moved by key presses, ended by Enter or Escape.
use vstd::prelude::*;

verus! {

/// The key events the selector reacts to; every other event is `Other`.
#[derive(Clone, Copy, Debug, PartialEq, Eq, Structural)]
pub enum Key {
    Up,
    Down,
    Enter,
    Escape,
    Other,
}

/// How a selection session ended.
#[derive(Debug, PartialEq, Eq)]
pub enum Outcome {
    Selected(String),
    Cancelled,
}

/// Why a selection session could not run.
#[derive(Clone, Copy, Debug, PartialEq, Eq, Structural)]
pub enum SelectError {
    /// The selector was given no candidates.
    EmptyInput,
    /// The terminal could not be put into, or taken out of, raw input mode.
    TerminalModeError,
    /// The next input event could not be read.
    InputReadError,
}

/// True of the keys that end a session.
pub open spec fn is_terminal(key: Key) -> bool {
    key == Key::Enter || key == Key::Escape
}

/// The cursor after one key press on a list of `n` candidates: Up and Down
/// move by one and stop at either end; other keys leave it alone.
pub open spec fn next_cursor(cursor: nat, n: nat, key: Key) -> nat {
    match key {
        Key::Up => if cursor > 0 { (cursor - 1) as nat } else { 0 },
        Key::Down => if cursor + 1 < n { cursor + 1 } else { cursor },
        _ => cursor,
    }
}

/// The cursor after a run of key presses that end no session.
pub open spec fn cursor_after(cursor: nat, n: nat, keys: Seq<Key>) -> nat
    decreases keys.len(),
{
    if keys.len() == 0 {
        cursor
    } else {
        cursor_after(next_cursor(cursor, n, keys[0]), n, keys.drop_first())
    }
}

/// What a session over `candidates`, with the cursor at `cursor`, makes of
/// `keys`: the outcome of the first Enter or Escape, or `None` where the keys
/// run out first and the session is still open.
pub open spec fn session(candidates: Seq<String>, cursor: nat, keys: Seq<Key>) -> Option<Outcome>
    decreases keys.len(),
{
    if keys.len() == 0 {
        None
    } else if keys[0] == Key::Enter {
        Some(Outcome::Selected(candidates[cursor as int]))
    } else if keys[0] == Key::Escape {
        Some(Outcome::Cancelled)
    } else {
        session(candidates, next_cursor(cursor, candidates.len(), keys[0]), keys.drop_first())
    }
}

/// The first line of every rendered frame.
pub open spec fn header() -> Seq<char> {
    "Select a commit message:"@
}

/// A rendered candidate row: a marker before the one under the cursor, two
/// spaces before the others.
pub open spec fn row(candidate: Seq<char>, highlighted: bool) -> Seq<char> {
    if highlighted {
        "> "@ + candidate
    } else {
        "  "@ + candidate
    }
}

/// A selection session in progress.
pub struct Selector {
    candidates: Vec<String>,
    cursor: usize,
}

impl Selector {
    pub closed spec fn candidates_view(&self) -> Seq<String> {
        self.candidates@
    }

    pub closed spec fn cursor_view(&self) -> nat {
        self.cursor as nat
    }

    /// The cursor always points at a candidate.
    pub open spec fn wf(&self) -> bool {
        self.cursor_view() < self.candidates_view().len()
    }

    /// Starts a session with the cursor on the first candidate; an empty list
    /// is refused.
    pub fn new(candidates: Vec<String>) -> (r: Result<Selector, SelectError>)
        ensures
            candidates@.len() == 0 <==> r == Err::<Selector, SelectError>(SelectError::EmptyInput),
            candidates@.len() > 0 <==> r is Ok,
            r matches Ok(s) ==> s.wf() && s.candidates_view() == candidates@ && s.cursor_view() == 0,
    {
        if candidates.len() == 0 {
            Err(SelectError::EmptyInput)
        } else {
            Ok(Selector { candidates, cursor: 0 })
        }
    }

    /// The index of the candidate under the cursor.
    pub fn cursor(&self) -> (r: usize)
        ensures
            r as nat == self.cursor_view(),
    {
        self.cursor
    }

    /// The candidates, in display order.
    pub fn candidates(&self) -> (r: &Vec<String>)
        ensures
            r@ == self.candidates_view(),
    {
        &self.candidates
    }

    /// Handles one key press: Up and Down move the cursor, Enter selects the
    /// candidate under it, Escape cancels, and anything else changes nothing.
    /// `None` means that the session goes on.
    pub fn step(&mut self, key: Key) -> (r: Option<Outcome>)
        requires
            old(self).wf(),
        ensures
            final(self).wf(),
            final(self).candidates_view() == old(self).candidates_view(),
            final(self).cursor_view() == next_cursor(
                old(self).cursor_view(),
                old(self).candidates_view().len(),
                key,
            ),
            r == session(old(self).candidates_view(), old(self).cursor_view(), seq![key]),
            r is None <==> !is_terminal(key),
    {
        proof {
            reveal_with_fuel(session, 2);
        }
        match key {
            Key::Up => {
                if self.cursor > 0 {
                    self.cursor = self.cursor - 1;
                }
                None
            },
            Key::Down => {
                if self.cursor < self.candidates.len() - 1 {
                    self.cursor = self.cursor + 1;
                }
                None
            },
            Key::Enter => Some(Outcome::Selected(self.candidates[self.cursor].clone())),
            Key::Escape => Some(Outcome::Cancelled),
            Key::Other => None,
        }
    }

    /// The lines to draw for the current state: the header, then one row per
    /// candidate, the one under the cursor marked.
    pub fn frame(&self) -> (r: Vec<String>)
        requires
            self.wf(),
        ensures
            r@.len() == self.candidates_view().len() + 1,
            r@[0]@ == header(),
            forall|i: int|
                0 <= i < self.candidates_view().len() ==> #[trigger] r@[i + 1]@ == row(
                    self.candidates_view()[i]@,
                    i == self.cursor_view(),
                ),
    {
        let mut lines: Vec<String> = Vec::new();
        lines.push(String::from_str("Select a commit message:"));
        let mut i: usize = 0;
        while i < self.candidates.len()
            invariant
                i <= self.candidates@.len(),
                lines@.len() == i + 1,
                lines@[0]@ == header(),
                forall|j: int|
                    0 <= j < i ==> #[trigger] lines@[j + 1]@ == row(
                        self.candidates@[j]@,
                        j == self.cursor,
                    ),
            decreases self.candidates@.len() - i,
        {
            let mut line = if i == self.cursor {
                String::from_str("> ")
            } else {
                String::from_str("  ")
            };
            line.append(self.candidates[i].as_str());
            lines.push(line);
            i = i + 1;
        }
        lines
    }
}

/// Runs a whole session over `candidates` on the key presses `keys`, as the
/// interactive loop would: `Ok(None)` where no Enter or Escape came.
pub fn simulate(candidates: Vec<String>, keys: &Vec<Key>) -> (r: Result<Option<Outcome>, SelectError>)
    ensures
        candidates@.len() == 0 <==> r == Err::<Option<Outcome>, SelectError>(SelectError::EmptyInput),
        candidates@.len() > 0 ==> r == Ok::<Option<Outcome>, SelectError>(session(candidates@, 0, keys@)),
{
    let ghost cands = candidates@;
    let mut selector = match Selector::new(candidates) {
        Ok(s) => s,
        Err(e) => return Err(e),
    };
    let mut i: usize = 0;
    proof {
        assert(keys@.skip(0) =~= keys@);
    }
    while i < keys.len()
        invariant
            selector.wf(),
            selector.candidates_view() == cands,
            cands == candidates@,
            i <= keys@.len(),
            session(cands, 0, keys@) == session(cands, selector.cursor_view(), keys@.skip(i as int)),
        decreases keys@.len() - i,
    {
        let key = keys[i];
        proof {
            assert(keys@.skip(i as int)[0] == key);
            assert(keys@.skip(i as int).drop_first() =~= keys@.skip(i + 1));
        }
        let r = selector.step(key);
        if r.is_some() {
            return Ok(r);
        }
        i = i + 1;
    }
    proof {
        assert(keys@.skip(i as int).len() == 0);
    }
    Ok(None)
}

/// True where no key of `keys` ends a session.
pub open spec fn all_moves(keys: Seq<Key>) -> bool {
    forall|i: int| 0 <= i < keys.len() ==> !is_terminal(#[trigger] keys[i])
}

/// `k` presses of Down.
pub open spec fn downs(k: nat) -> Seq<Key> {
    Seq::new(k, |i: int| Key::Down)
}

/// A key press never takes the cursor off the list.
pub proof fn lemma_next_cursor_in_range(cursor: nat, n: nat, key: Key)
    requires
        cursor < n,
    ensures
        next_cursor(cursor, n, key) < n,
{
}

/// Keys that end no session only move the cursor: the session then goes on
/// from where they left it, and the cursor stays on the list.
pub proof fn lemma_moves_then(candidates: Seq<String>, cursor: nat, pre: Seq<Key>, rest: Seq<Key>)
    requires
        cursor < candidates.len(),
        all_moves(pre),
    ensures
        cursor_after(cursor, candidates.len(), pre) < candidates.len(),
        session(candidates, cursor, pre + rest) == session(
            candidates,
            cursor_after(cursor, candidates.len(), pre),
            rest,
        ),
    decreases pre.len(),
{
    if pre.len() > 0 {
        let n = candidates.len();
        let next = next_cursor(cursor, n, pre[0]);
        lemma_next_cursor_in_range(cursor, n, pre[0]);
        assert(!is_terminal(pre[0]));
        assert((pre + rest)[0] == pre[0]);
        assert((pre + rest).drop_first() =~= pre.drop_first() + rest);
        assert forall|i: int| 0 <= i < pre.drop_first().len() implies !is_terminal(
            #[trigger] pre.drop_first()[i],
        ) by {
            assert(pre.drop_first()[i] == pre[i + 1]);
        }
        lemma_moves_then(candidates, next, pre.drop_first(), rest);
    } else {
        assert(pre + rest =~= rest);
    }
}

/// Down pressed `k` times from `cursor` leaves the cursor `k` further down,
/// but never past the last candidate.
pub proof fn lemma_cursor_after_downs(cursor: nat, n: nat, k: nat)
    requires
        cursor < n,
    ensures
        cursor_after(cursor, n, downs(k)) == if cursor + k < n { cursor + k } else { (n - 1) as nat },
    decreases k,
{
    if k > 0 {
        assert(downs(k)[0] == Key::Down);
        assert(downs(k).drop_first() =~= downs((k - 1) as nat));
        lemma_cursor_after_downs(next_cursor(cursor, n, Key::Down), n, (k - 1) as nat);
    }
}

/// On any non-empty list, Down pressed `k` times and then Enter selects the
/// candidate at `k`, or the last one where the list is shorter.
pub proof fn down_then_enter_selects(candidates: Seq<String>, k: nat)
    requires
        candidates.len() > 0,
    ensures
        session(candidates, 0, downs(k).push(Key::Enter)) == Some(
            Outcome::Selected(
                candidates[if k < candidates.len() { k as int } else { candidates.len() - 1 }],
            ),
        ),
{
    let n = candidates.len();
    assert(downs(k).push(Key::Enter) =~= downs(k) + seq![Key::Enter]);
    lemma_moves_then(candidates, 0, downs(k), seq![Key::Enter]);
    lemma_cursor_after_downs(0, n, k);
}

/// Up pressed while the cursor is on the first candidate changes nothing
/// that the session later returns.
pub proof fn up_at_top_is_ignored(candidates: Seq<String>, pre: Seq<Key>, rest: Seq<Key>)
    requires
        candidates.len() > 0,
        all_moves(pre),
        cursor_after(0, candidates.len(), pre) == 0,
    ensures
        session(candidates, 0, pre + (seq![Key::Up] + rest)) == session(candidates, 0, pre + rest),
{
    lemma_moves_then(candidates, 0, pre, seq![Key::Up] + rest);
    lemma_moves_then(candidates, 0, pre, rest);
    assert((seq![Key::Up] + rest).drop_first() =~= rest);
}

/// Down pressed while the cursor is on the last candidate changes nothing
/// that the session later returns.
pub proof fn down_at_bottom_is_ignored(candidates: Seq<String>, pre: Seq<Key>, rest: Seq<Key>)
    requires
        candidates.len() > 0,
        all_moves(pre),
        cursor_after(0, candidates.len(), pre) == candidates.len() - 1,
    ensures
        session(candidates, 0, pre + (seq![Key::Down] + rest)) == session(candidates, 0, pre + rest),
{
    lemma_moves_then(candidates, 0, pre, seq![Key::Down] + rest);
    lemma_moves_then(candidates, 0, pre, rest);
    assert((seq![Key::Down] + rest).drop_first() =~= rest);
}

/// Escape cancels the session whatever Up, Down or other keys came before it.
pub proof fn escape_cancels(candidates: Seq<String>, pre: Seq<Key>, rest: Seq<Key>)
    requires
        candidates.len() > 0,
        all_moves(pre),
    ensures
        session(candidates, 0, pre + (seq![Key::Escape] + rest)) == Some(Outcome::Cancelled),
{
    lemma_moves_then(candidates, 0, pre, seq![Key::Escape] + rest);
}

/// Only Enter or Escape ends a session: after any keys without them it is
/// still open.
pub proof fn moves_never_end(candidates: Seq<String>, cursor: nat, keys: Seq<Key>)
    requires
        cursor < candidates.len(),
        all_moves(keys),
    ensures
        session(candidates, cursor, keys) is None,
{
    lemma_moves_then(candidates, cursor, keys, Seq::empty());
    assert(keys + Seq::<Key>::empty() =~= keys);
}

} // verus!

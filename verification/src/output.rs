//! Bounded buffer of output lines.
//!
//! New lines are pushed at the back; once the configured maximum is exceeded
//! the single oldest line is evicted from the front, so the buffer always
//! keeps the newest lines in arrival order.

use vstd::prelude::*;

verus! {

/// One append step on the line sequence: push the new line, then evict the
/// single oldest line if the maximum is now exceeded.
pub open spec fn append_spec(lines: Seq<Seq<char>>, max: usize, line: Seq<char>) -> Seq<Seq<char>> {
    let grown = lines.push(line);
    if grown.len() > max {
        grown.drop_first()
    } else {
        grown
    }
}

/// The line sequence after appending each element of `more` in order.
pub open spec fn append_all_spec(lines: Seq<Seq<char>>, max: usize, more: Seq<Seq<char>>) -> Seq<Seq<char>>
    decreases more.len(),
{
    if more.len() == 0 {
        lines
    } else {
        append_all_spec(append_spec(lines, max, more.first()), max, more.drop_first())
    }
}

/// Text lines of the supervised process, newest last, never more than the
/// configured maximum.
pub struct OutputBuffer {
    /// The stored lines, oldest first.
    pub lines: Vec<String>,
    /// Configured maximum number of stored lines.
    pub max_lines: usize,
}

impl OutputBuffer {
    /// The buffer never holds more lines than its configured maximum.
    pub open spec fn wf(self) -> bool {
        self.lines.deep_view().len() <= self.max_lines
    }

    /// The stored lines as a sequence of character sequences, oldest first.
    pub open spec fn view_lines(self) -> Seq<Seq<char>> {
        self.lines.deep_view()
    }

    /// An empty buffer with the given maximum.
    pub fn new(max_lines: usize) -> (b: OutputBuffer)
        ensures
            b.view_lines() == Seq::<Seq<char>>::empty(),
            b.max_lines == max_lines,
            b.wf(),
    {
        let b = OutputBuffer { lines: Vec::new(), max_lines };
        proof {
            assert(b.lines.deep_view() =~= Seq::<Seq<char>>::empty());
        }
        b
    }

    /// Number of stored lines.
    pub fn len(&self) -> (n: usize)
        ensures
            n == self.view_lines().len(),
    {
        self.lines.len()
    }

    /// Append one line, evicting exactly the oldest line if the maximum is
    /// now exceeded.
    pub fn append(&mut self, line: String)
        ensures
            final(self).view_lines() == append_spec(old(self).view_lines(), old(self).max_lines, line@),
            final(self).max_lines == old(self).max_lines,
            old(self).wf() ==> final(self).wf(),
    {
        let ghost pre = self.lines.deep_view();
        self.lines.push(line);
        proof {
            assert(self.lines.deep_view() =~= pre.push(line@));
        }
        if self.lines.len() > self.max_lines {
            let ghost grown = self.lines.deep_view();
            let _evicted = self.lines.remove(0);
            proof {
                assert(self.lines.deep_view() =~= grown.drop_first());
            }
        }
    }
}

/// Appending any sequence of lines to a buffer within its bound leaves it
/// within its bound, and the surviving lines are exactly the newest ones, in
/// arrival order: the buffer after the appends is a suffix of the old
/// contents followed by all appended lines.
pub proof fn lemma_append_all_bounded(lines: Seq<Seq<char>>, max: usize, more: Seq<Seq<char>>)
    requires
        lines.len() <= max,
    ensures
        append_all_spec(lines, max, more).len() <= max,
        (lines + more).len() >= append_all_spec(lines, max, more).len(),
        append_all_spec(lines, max, more)
            == (lines + more).skip((lines + more).len() - append_all_spec(lines, max, more).len()),
    decreases more.len(),
{
    if more.len() == 0 {
        assert(lines + more =~= lines);
        assert((lines + more).skip(0) =~= lines + more);
    } else {
        let stepped = append_spec(lines, max, more.first());
        assert(stepped.len() <= max);
        lemma_append_all_bounded(stepped, max, more.drop_first());
        let rest = more.drop_first();
        let full = lines + more;
        let full_stepped = stepped + rest;
        let result = append_all_spec(lines, max, more);
        assert(result == append_all_spec(stepped, max, rest));
        if lines.push(more.first()).len() > max {
            assert(full_stepped =~= full.skip(1));
        } else {
            assert(full_stepped =~= full);
        }
        assert(result == full_stepped.skip(full_stepped.len() - result.len()));
        assert(full_stepped.skip(full_stepped.len() - result.len())
            =~= full.skip(full.len() - result.len()));
    }
}

} // verus!

//! The stateful part of the engine: a single memory register and a bounded
//! history of recent operations.
//!
//! The memory register holds the encoding of one `f64` value, initially
//! zero.  The history is an insertion-ordered buffer of at most ten lines;
//! recording an eleventh line evicts the oldest (first-in, first-out).  The
//! eviction law is stated and proved in [`lemma_record_all_window`].

use vstd::prelude::*;

use crate::text::{concat3, spec_dec, u64_to_dec};

verus! {

/// What recording one line does to the history: the line is appended, and
/// when the buffer would exceed ten lines the oldest is evicted.
pub open spec fn spec_record(h: Seq<Seq<char>>, line: Seq<char>) -> Seq<Seq<char>> {
    let grown = h.push(line);
    if grown.len() > 10 {
        grown.drop_first()
    } else {
        grown
    }
}

/// Recording a sequence of lines, oldest first.
pub open spec fn spec_record_all(h: Seq<Seq<char>>, lines: Seq<Seq<char>>) -> Seq<Seq<char>>
    decreases lines.len(),
{
    if lines.len() == 0 {
        h
    } else {
        spec_record_all(spec_record(h, lines.first()), lines.drop_first())
    }
}

/// The eviction law of the bounded history: recording lines into a
/// well-formed buffer leaves exactly the newest ten of everything seen.
/// In particular, after recording eleven lines into an empty buffer the
/// buffer holds ten lines and its first is the second line recorded.
pub proof fn lemma_record_all_window(h: Seq<Seq<char>>, lines: Seq<Seq<char>>)
    requires
        h.len() <= 10,
    ensures
        spec_record_all(h, lines) == if h.len() + lines.len() <= 10 {
            h + lines
        } else {
            (h + lines).skip(h.len() + lines.len() - 10)
        },
    decreases lines.len(),
{
    let all = h + lines;
    if lines.len() == 0 {
        assert(all =~= h);
    } else {
        let l0 = lines.first();
        let rest = lines.drop_first();
        let h2 = spec_record(h, l0);
        lemma_record_all_window(h2, rest);
        if h.len() < 10 {
            assert(h2 =~= h.push(l0));
            assert(h2 + rest =~= all);
        } else {
            assert(h2 =~= h.push(l0).drop_first());
            assert(h2 + rest =~= all.skip(1));
            if h2.len() + rest.len() <= 10 {
                assert(rest.len() == 0);
                assert(spec_record_all(h, lines) == all.skip(1));
                assert(all.len() == 11);
            } else {
                assert(spec_record_all(h, lines) == all.skip(1).skip(rest.len() as int));
                assert(all.skip(1).skip(rest.len() as int) =~= all.skip(
                    all.len() - 10,
                ));
            }
        }
    }
}

/// The lines the history view shows: a header, then each recorded line with
/// its 1-based ordinal — or an explicit message when the buffer is empty —
/// then a footer.
pub open spec fn spec_history_lines(h: Seq<Seq<char>>) -> Seq<Seq<char>> {
    if h.len() == 0 {
        seq![
            "=== Calculation History ==="@,
            "No operations in history"@,
            "=========================="@,
        ]
    } else {
        seq!["=== Calculation History ==="@] + Seq::new(
            h.len(),
            |i: int| spec_dec((i + 1) as nat) + ". "@ + h[i],
        ) + seq!["=========================="@]
    }
}

/// The calculation engine's state: the memory register (as the encoding of
/// an `f64` value) and the bounded history.
pub struct Calculator {
    memory: u64,
    history: Vec<String>,
}

impl Calculator {
    /// The encoding of the value in the memory register.
    pub closed spec fn memory_bits(&self) -> u64 {
        self.memory
    }

    /// The recorded history lines, oldest first.
    pub closed spec fn entries(&self) -> Seq<Seq<char>> {
        self.history.deep_view()
    }

    /// The history never holds more than ten lines.
    pub open spec fn wf(&self) -> bool {
        self.entries().len() <= 10
    }

    /// A fresh engine: memory reads as zero, history empty.
    pub fn new() -> (c: Calculator)
        ensures
            c.wf(),
            c.memory_bits() == 0,
            c.entries() == Seq::<Seq<char>>::empty(),
    {
        let c = Calculator { memory: 0, history: Vec::new() };
        proof {
            assert(c.entries() =~= Seq::<Seq<char>>::empty());
        }
        c
    }

    /// Records one formatted line, evicting the oldest line when the buffer
    /// is full.  The caller formats the line; this function never rewords
    /// it.
    pub fn add_to_history(&mut self, operation: &str)
        requires
            old(self).wf(),
        ensures
            final(self).wf(),
            final(self).entries() == spec_record(old(self).entries(), operation@),
            final(self).memory_bits() == old(self).memory_bits(),
    {
        self.history.push(operation.to_owned());
        proof {
            assert(self.history.deep_view() =~= old(self).entries().push(operation@));
        }
        if self.history.len() > 10 {
            let ghost grown = self.history.deep_view();
            self.history.remove(0);
            proof {
                assert(self.history.deep_view() =~= grown.drop_first());
            }
        }
    }

    /// Stores a value in memory and records `Stored {value} in memory`,
    /// with `rendered` standing for the value's decimal text.
    pub fn store_memory(&mut self, bits: u64, rendered: &str)
        requires
            old(self).wf(),
        ensures
            final(self).wf(),
            final(self).memory_bits() == bits,
            final(self).entries() == spec_record(
                old(self).entries(),
                "Stored "@ + rendered@ + " in memory"@,
            ),
    {
        self.memory = bits;
        let line = concat3("Stored ", rendered, " in memory");
        self.add_to_history(line.as_str());
    }

    /// Reads the memory register; the history is untouched.
    pub fn recall_memory(&self) -> (r: u64)
        ensures
            r == self.memory_bits(),
    {
        self.memory
    }

    /// Resets the memory register to zero and records `Memory cleared`.
    pub fn clear_memory(&mut self)
        requires
            old(self).wf(),
        ensures
            final(self).wf(),
            final(self).memory_bits() == 0,
            final(self).entries() == spec_record(old(self).entries(), "Memory cleared"@),
    {
        self.memory = 0;
        self.add_to_history("Memory cleared");
    }

    /// How many lines the history holds.
    pub fn history_len(&self) -> (n: usize)
        ensures
            n == self.entries().len(),
    {
        self.history.len()
    }

    /// One recorded line, oldest first.
    pub fn history_line(&self, i: usize) -> (r: &String)
        requires
            i < self.entries().len(),
        ensures
            r@ == self.entries()[i as int],
    {
        &self.history[i]
    }

    /// Renders the history view: header, numbered lines (or the empty
    /// message), footer.
    pub fn show_history(&self) -> (r: Vec<String>)
        requires
            self.wf(),
        ensures
            r.deep_view() == spec_history_lines(self.entries()),
    {
        let mut lines: Vec<String> = Vec::new();
        lines.push("=== Calculation History ===".to_owned());
        if self.history.len() == 0 {
            lines.push("No operations in history".to_owned());
        } else {
            let mut i: usize = 0;
            while i < self.history.len()
                invariant
                    self.wf(),
                    i <= self.history.len(),
                    self.history.len() == self.entries().len(),
                    lines.deep_view().len() == i + 1,
                    lines.deep_view()[0] == "=== Calculation History ==="@,
                    forall|j: int|
                        0 <= j < i ==> lines.deep_view()[j + 1] == spec_dec((j + 1) as nat)
                            + ". "@ + self.entries()[j],
                decreases self.history.len() - i,
            {
                let num = u64_to_dec((i as u64) + 1);
                let line = concat3(num.as_str(), ". ", self.history[i].as_str());
                let ghost before = lines.deep_view();
                lines.push(line);
                proof {
                    assert(lines.deep_view() =~= before.push(line@));
                }
                i = i + 1;
            }
        }
        let ghost before = lines.deep_view();
        lines.push("==========================".to_owned());
        proof {
            assert(lines.deep_view() =~= before.push("=========================="@));
            assert(lines.deep_view() =~= spec_history_lines(self.entries()));
        }
        lines
    }
}

} // verus!

//! A processing stage, and a pipeline that holds a row of stages for a driver
//! to run.

use vstd::prelude::*;
use vstd::string::StrSliceExecFns;

verus! {

/// One processing step: consumes an input value, produces an output value.
pub trait Stage {
    type Input;

    type Output;

    fn process(&mut self, input: Self::Input) -> Self::Output;
}

/// A row of stages of one kind, kept in the order a driver runs them.
pub struct Pipeline<S> {
    stages: Vec<S>,
}

impl<S> Pipeline<S> {
    /// The stages the pipeline holds, in order.
    pub closed spec fn stages_view(self) -> Seq<S> {
        self.stages@
    }

    pub fn new(stages: Vec<S>) -> (r: Pipeline<S>)
        ensures
            r.stages_view() == stages@,
    {
        Pipeline { stages }
    }

    /// How many stages the pipeline holds.
    pub fn num_stages(&self) -> (n: usize)
        ensures
            n == self.stages_view().len(),
    {
        self.stages.len()
    }
}

/// Splits a string into its characters.
struct StringToChars;

impl Stage for StringToChars {
    type Input = String;

    type Output = Vec<char>;

    fn process(&mut self, input: String) -> (out: Vec<char>)
        ensures
            out@ == input@,
    {
        let text = input.as_str();
        let len = text.unicode_len();
        let mut out: Vec<char> = Vec::new();
        let mut i: usize = 0;
        while i < len
            invariant
                len == text@.len(),
                0 <= i <= len,
                out@ == text@.subrange(0, i as int),
            decreases len - i,
        {
            out.push(text.get_char(i));
            proof {
                assert(out@ =~= text@.subrange(0, i as int + 1));
            }
            i = i + 1;
        }
        out
    }
}

/// Replaces each character by its code point.
struct CharsToInts;

impl Stage for CharsToInts {
    type Input = Vec<char>;

    type Output = Vec<u32>;

    fn process(&mut self, input: Vec<char>) -> (out: Vec<u32>)
        ensures
            out@.len() == input@.len(),
            forall|k: int| 0 <= k < input@.len() ==> out@[k] == #[trigger] input@[k] as u32,
    {
        let mut out: Vec<u32> = Vec::new();
        let mut i: usize = 0;
        while i < input.len()
            invariant
                0 <= i <= input@.len(),
                out@.len() == i,
                forall|k: int| 0 <= k < i ==> out@[k] == #[trigger] input@[k] as u32,
            decreases input@.len() - i,
        {
            out.push(input[i] as u32);
            i = i + 1;
        }
        out
    }
}

} // verus!

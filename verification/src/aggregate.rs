//! ResponseAggregator: accumulates decoded content strings across the
//! lifetime of a stream, either into a single concatenated answer that is
//! trimmed at stream end, or into an ordered list of labeled sections
//! returned verbatim.

use vstd::prelude::*;

verus! {

use vstd::string::StrSliceExecFns;
use vstd::string::StringExecFns;
use crate::text::{spec_trim, trim_str};

/// The caller-selected operating mode of the aggregator.
#[derive(Debug, Clone, Copy, PartialEq, Eq, Structural)]
pub enum Mode {
    /// Append every content string to one running answer; trim it at
    /// stream end.
    Concatenate,
    /// Turn every content string into one labeled section; return the
    /// list verbatim at stream end.
    Sectioned,
}

/// One labeled output section. The range spans from position 0 to the
/// character length of the label itself: a self-referential span used for
/// downstream highlighting, not a position within a larger document.
#[derive(Debug)]
pub struct OutputSection {
    pub label: String,
    pub range_start: usize,
    pub range_end: usize,
}

/// The terminal artifact of a successful invocation: the output text and
/// zero or more labeled sections.
#[derive(Debug)]
pub struct CommandOutput {
    pub text: String,
    pub sections: Vec<OutputSection>,
}

/// Accumulates decoded content strings; created empty at stream start,
/// fed once per decoded fragment, finalized at stream end.
pub struct Aggregator {
    pub mode: Mode,
    pub text: String,
    pub sections: Vec<OutputSection>,
}

/// How one batch of decoded content strings extends a section list: the
/// old sections stay in place and each content string appends one section
/// labeled by itself, spanning position 0 to its own character length.
pub open spec fn sections_extended(
    olds: Seq<OutputSection>,
    news: Seq<OutputSection>,
    cs: Seq<Seq<char>>,
) -> bool {
    &&& news.len() == olds.len() + cs.len()
    &&& news.subrange(0, olds.len() as int) == olds
    &&& forall|j: int|
        olds.len() <= j < news.len() ==> {
            &&& (#[trigger] news[j]).label@ == cs[j - olds.len()]
            &&& news[j].range_start == 0
            &&& news[j].range_end == cs[j - olds.len()].len()
        }
}

impl Aggregator {
    /// The mode's unused side stays empty for the whole stream.
    pub open spec fn wf(self) -> bool {
        match self.mode {
            Mode::Concatenate => self.sections@.len() == 0,
            Mode::Sectioned => self.text@.len() == 0,
        }
    }

    /// An empty aggregator in the given mode.
    pub fn new(mode: Mode) -> (a: Aggregator)
        ensures
            a.wf(),
            a.mode == mode,
            a.text@.len() == 0,
            a.sections@.len() == 0,
    {
        Aggregator { mode, text: String::new(), sections: Vec::new() }
    }

    /// Feeds one decoded content string: appended to the running answer
    /// in concatenation mode, turned into one labeled section in
    /// sectioned mode.
    pub fn push_content(&mut self, content: &str)
        requires
            old(self).wf(),
        ensures
            final(self).wf(),
            final(self).mode == old(self).mode,
            old(self).mode is Concatenate ==> {
                &&& final(self).text@ == old(self).text@ + content@
                &&& final(self).sections@ == old(self).sections@
            },
            old(self).mode is Sectioned ==> {
                &&& final(self).text@ == old(self).text@
                &&& sections_extended(old(self).sections@, final(self).sections@, seq![content@])
            },
    {
        match self.mode {
            Mode::Concatenate => {
                self.text.append(content);
            },
            Mode::Sectioned => {
                let len: usize = content.unicode_len();
                let label = String::from_str(content);
                self.sections.push(OutputSection { label, range_start: 0, range_end: len });
                proof {
                    assert(self.sections@.subrange(0, old(self).sections@.len() as int)
                        =~= old(self).sections@);
                }
            },
        }
    }

    /// Feeds one decoded fragment: every content string of one chunk, in
    /// arrival order.
    pub fn push_fragment(&mut self, contents: &Vec<String>)
        requires
            old(self).wf(),
        ensures
            final(self).wf(),
            final(self).mode == old(self).mode,
            old(self).mode is Concatenate ==> {
                &&& final(self).text@ == old(self).text@ + contents.deep_view().flatten()
                &&& final(self).sections@ == old(self).sections@
            },
            old(self).mode is Sectioned ==> {
                &&& final(self).text@ == old(self).text@
                &&& sections_extended(old(self).sections@, final(self).sections@, contents.deep_view())
            },
    {
        let ghost dv = contents.deep_view();
        proof {
            assert(self.text@ =~= old(self).text@ + dv.take(0).flatten());
            assert(self.sections@.subrange(0, old(self).sections@.len() as int)
                =~= old(self).sections@);
        }
        let mut i: usize = 0;
        while i < contents.len()
            invariant
                0 <= i <= contents.len(),
                dv == contents.deep_view(),
                self.wf(),
                self.mode == old(self).mode,
                old(self).mode is Concatenate ==> {
                    &&& self.text@ == old(self).text@ + dv.take(i as int).flatten()
                    &&& self.sections@ == old(self).sections@
                },
                old(self).mode is Sectioned ==> {
                    &&& self.text@ == old(self).text@
                    &&& sections_extended(old(self).sections@, self.sections@, dv.take(i as int))
                },
            decreases contents.len() - i,
        {
            let ghost pre = *self;
            self.push_content(contents[i].as_str());
            proof {
                assert(dv[i as int] == contents@[i as int]@);
                assert(dv.take(i as int).push(dv[i as int]) =~= dv.take(i + 1 as int));
                if old(self).mode is Concatenate {
                    dv.take(i as int).lemma_flatten_push(dv[i as int]);
                    assert(self.text@ =~= old(self).text@ + dv.take(i + 1 as int).flatten());
                } else {
                    lemma_sections_extend(old(self).sections@, pre.sections@, self.sections@,
                        dv.take(i as int), dv[i as int]);
                }
            }
            i = i + 1;
        }
        proof {
            assert(dv.take(contents.len() as int) =~= dv);
        }
    }

    /// Closes the stream: in concatenation mode the answer with leading
    /// and trailing whitespace trimmed and no sections; in sectioned mode
    /// the section list verbatim and empty text.
    pub fn finish(self) -> (out: CommandOutput)
        requires
            self.wf(),
        ensures
            self.mode is Concatenate ==> {
                &&& out.text@ == spec_trim(self.text@)
                &&& out.sections@.len() == 0
            },
            self.mode is Sectioned ==> {
                &&& out.text@.len() == 0
                &&& out.sections@ == self.sections@
            },
    {
        match self.mode {
            Mode::Concatenate => {
                let trimmed = String::from_str(trim_str(self.text.as_str()));
                CommandOutput { text: trimmed, sections: Vec::new() }
            },
            Mode::Sectioned => CommandOutput { text: String::new(), sections: self.sections },
        }
    }
}

proof fn lemma_sections_extend(
    olds: Seq<OutputSection>,
    mid: Seq<OutputSection>,
    news: Seq<OutputSection>,
    cs: Seq<Seq<char>>,
    c: Seq<char>,
)
    requires
        sections_extended(olds, mid, cs),
        sections_extended(mid, news, seq![c]),
    ensures
        sections_extended(olds, news, cs.push(c)),
{
    assert(news.subrange(0, olds.len() as int) =~= mid.subrange(0, olds.len() as int));
    assert forall|j: int| olds.len() <= j < news.len() implies {
        &&& (#[trigger] news[j]).label@ == cs.push(c)[j - olds.len()]
        &&& news[j].range_start == 0
        &&& news[j].range_end == cs.push(c)[j - olds.len()].len()
    } by {
        if j < mid.len() {
            assert(news.subrange(0, mid.len() as int)[j] == news[j]);
            assert(mid[j].label@ == cs[j - olds.len()]);
            assert(cs.push(c)[j - olds.len()] == cs[j - olds.len()]);
        } else {
            assert(news[j].label@ == seq![c][j - mid.len()]);
            assert(cs.push(c)[j - olds.len()] == c);
        }
    }
}

} // verus!

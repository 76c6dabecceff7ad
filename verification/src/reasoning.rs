//! Aggregation of streamed reasoning text into sections.
//!
//! One aggregator lives for the length of a single prompt turn. Streamed
//! reasoning deltas are appended to an in-progress section; explicit section
//! breaks move the in-progress text to the list of completed sections. When
//! the turn needs the collected text, [`ReasoningAggregator::take_text`]
//! joins the sections with one blank line between them, trimming trailing
//! whitespace per section and dropping blank sections, and resets the
//! aggregator.

use vstd::prelude::*;
use vstd::string::*;

use crate::text::{
    is_blank, is_blank_str, join_with, trim_end_spec, trim_end_str, trim_spec, trimmed_len,
};

verus! {

/// The separator written between adjacent sections: one blank line.
pub open spec fn section_sep() -> Seq<char> {
    seq!['\n', '\n']
}

/// The sections that survive draining: blank sections are dropped and the
/// rest lose their trailing whitespace, in order.
pub open spec fn clean_sections(ss: Seq<Seq<char>>) -> Seq<Seq<char>>
    decreases ss.len(),
{
    if ss.len() == 0 {
        Seq::empty()
    } else {
        let rest = clean_sections(ss.drop_last());
        if is_blank(ss.last()) {
            rest
        } else {
            rest.push(trim_end_spec(ss.last()))
        }
    }
}

/// What draining an aggregator with pending sections `ss` returns: `None`
/// when nothing non-blank was accumulated, otherwise the surviving sections
/// joined with one blank line between them.
pub open spec fn take_text_spec(ss: Seq<Seq<char>>) -> Option<Seq<char>> {
    if clean_sections(ss).len() == 0 {
        None
    } else {
        Some(join_with(clean_sections(ss), section_sep()))
    }
}

/// The view of an optional owned string.
pub open spec fn opt_text_view(o: Option<String>) -> Option<Seq<char>> {
    match o {
        Some(t) => Some(t@),
        None => None,
    }
}

/// Which of the aggregated text and an authoritative final text a turn
/// forwards: the one whose trimmed form is longer, the aggregated one on a
/// tie, and the present one when only one exists.
pub open spec fn choose_spec(agg: Option<Seq<char>>, fin: Option<Seq<char>>) -> Option<Seq<char>> {
    match (agg, fin) {
        (Some(a), Some(f)) => if trim_spec(f).len() > trim_spec(a).len() {
            Some(f)
        } else {
            Some(a)
        },
        (Some(a), None) => Some(a),
        (None, Some(f)) => Some(f),
        (None, None) => None,
    }
}

/// Accumulates streamed reasoning text for one prompt turn.
pub struct ReasoningAggregator {
    sections: Vec<String>,
    current: String,
}

impl ReasoningAggregator {
    /// The completed sections, as character sequences.
    pub closed spec fn sections_view(self) -> Seq<Seq<char>> {
        self.sections.deep_view()
    }

    /// The in-progress section.
    pub closed spec fn current_view(self) -> Seq<char> {
        self.current@
    }

    /// Everything accumulated so far: the completed sections followed by the
    /// in-progress one.
    pub open spec fn pending(self) -> Seq<Seq<char>> {
        self.sections_view().push(self.current_view())
    }

    /// Nothing is held: no completed section and an empty in-progress one.
    pub open spec fn is_drained(self) -> bool {
        self.sections_view().len() == 0 && self.current_view().len() == 0
    }

    pub fn new() -> (r: ReasoningAggregator)
        ensures
            r.is_drained(),
    {
        ReasoningAggregator { sections: Vec::new(), current: String::new() }
    }

    /// Drop everything accumulated so far.
    pub fn reset(&mut self)
        ensures
            final(self).is_drained(),
    {
        self.sections = Vec::new();
        self.current = String::new();
    }

    /// Append streamed text to the in-progress section.
    pub fn append_delta(&mut self, delta: &str)
        ensures
            final(self).sections_view() == old(self).sections_view(),
            final(self).current_view() == old(self).current_view() + delta@,
    {
        self.current.append(delta);
    }

    /// Complete the in-progress section, if it holds anything; a no-op
    /// otherwise.
    pub fn section_break(&mut self)
        ensures
            old(self).current_view().len() == 0 ==> *final(self) == *old(self),
            old(self).current_view().len() > 0 ==> {
                &&& final(self).sections_view() == old(self).sections_view().push(
                    old(self).current_view(),
                )
                &&& final(self).current_view() == Seq::<char>::empty()
            },
    {
        if !self.current.as_str().is_empty() {
            let done = self.current.clone();
            self.current = String::new();
            self.sections.push(done);
        }
    }

    /// Drain the aggregator: return the surviving sections joined with one
    /// blank line between them, or `None` when only blank text was
    /// accumulated, and clear all state either way.
    pub fn take_text(&mut self) -> (r: Option<String>)
        ensures
            final(self).is_drained(),
            match r {
                Some(t) => take_text_spec(old(self).pending()) == Some(t@),
                None => take_text_spec(old(self).pending()) is None,
            },
    {
        let ghost all = self.pending();
        let mut combined = String::new();
        let mut nonempty = false;
        let n = self.sections.len();
        let mut i: usize = 0;
        proof {
            assert(self.sections.deep_view().subrange(0, 0) =~= Seq::<Seq<char>>::empty());
        }
        while i < n
            invariant
                i <= n,
                n == self.sections@.len(),
                *self == *old(self),
                nonempty == (clean_sections(self.sections.deep_view().subrange(0, i as int)).len()
                    > 0),
                combined@ == join_with(
                    clean_sections(self.sections.deep_view().subrange(0, i as int)),
                    section_sep(),
                ),
            decreases n - i,
        {
            let ghost prefix = self.sections.deep_view().subrange(0, i as int);
            let ghost next_prefix = self.sections.deep_view().subrange(0, i as int + 1);
            proof {
                assert(next_prefix.drop_last() =~= prefix);
                assert(next_prefix.last() == self.sections.deep_view()[i as int]);
                assert(self.sections.deep_view()[i as int] == self.sections@[i as int]@);
            }
            let sec = &self.sections[i];
            if !is_blank_str(sec.as_str()) {
                if nonempty {
                    combined.append("\n\n");
                    proof {
                        reveal_strlit("\n\n");
                        assert("\n\n"@ =~= section_sep());
                    }
                }
                let t = trim_end_str(sec.as_str());
                combined.append(t.as_str());
                proof {
                    let cs = clean_sections(prefix);
                    let cs2 = clean_sections(next_prefix);
                    assert(cs2 == cs.push(trim_end_spec(sec@)));
                    if cs.len() == 0 {
                        assert(cs2.len() == 1);
                        assert(join_with(cs2, section_sep()) == cs2[0]);
                    } else {
                        assert(cs2.drop_last() =~= cs);
                        assert(join_with(cs2, section_sep()) == join_with(cs, section_sep())
                            + section_sep() + trim_end_spec(sec@));
                    }
                }
                nonempty = true;
            }
            i = i + 1;
        }
        proof {
            assert(self.sections.deep_view().subrange(0, n as int) =~= self.sections.deep_view());
            assert(all.drop_last() =~= self.sections.deep_view());
            assert(all.last() == self.current@);
        }
        if !is_blank_str(self.current.as_str()) {
            if nonempty {
                combined.append("\n\n");
                proof {
                    reveal_strlit("\n\n");
                    assert("\n\n"@ =~= section_sep());
                }
            }
            let t = trim_end_str(self.current.as_str());
            combined.append(t.as_str());
            proof {
                let cs = clean_sections(self.sections.deep_view());
                let cs2 = clean_sections(all);
                assert(cs2 == cs.push(trim_end_spec(self.current@)));
                if cs.len() == 0 {
                    assert(cs2.len() == 1);
                    assert(join_with(cs2, section_sep()) == cs2[0]);
                } else {
                    assert(cs2.drop_last() =~= cs);
                    assert(join_with(cs2, section_sep()) == join_with(cs, section_sep())
                        + section_sep() + trim_end_spec(self.current@));
                }
            }
            nonempty = true;
        }
        self.sections = Vec::new();
        self.current = String::new();
        if nonempty {
            Some(combined)
        } else {
            None
        }
    }

    /// Drain the aggregator and pick between the drained text and an
    /// authoritative final text: whichever is longer once trimmed, preferring
    /// the drained text on a tie, and a present value over an absent one.
    pub fn choose_final_text(&mut self, final_text: Option<String>) -> (r: Option<String>)
        ensures
            final(self).is_drained(),
            opt_text_view(r) == choose_spec(
                take_text_spec(old(self).pending()),
                opt_text_view(final_text),
            ),
    {
        let aggregated = self.take_text();
        match (aggregated, final_text) {
            (Some(agg), Some(fin)) => {
                if trimmed_len(fin.as_str()) > trimmed_len(agg.as_str()) {
                    Some(fin)
                } else {
                    Some(agg)
                }
            },
            (Some(agg), None) => Some(agg),
            (None, Some(fin)) => Some(fin),
            (None, None) => None,
        }
    }
}

/// Each clean section is non-empty, non-blank, and ends in a non-whitespace
/// character; and no clean section survives exactly when every accumulated
/// section was blank.
pub proof fn lemma_clean_sections_props(ss: Seq<Seq<char>>)
    ensures
        (clean_sections(ss).len() == 0) <==> (forall|i: int|
            0 <= i < ss.len() ==> is_blank(ss[i])),
        forall|i: int|
            0 <= i < clean_sections(ss).len() ==> {
                &&& (#[trigger] clean_sections(ss)[i]).len() > 0
                &&& !crate::text::is_wschar(clean_sections(ss)[i].last())
                &&& !is_blank(clean_sections(ss)[i])
            },
    decreases ss.len(),
{
    if ss.len() > 0 {
        lemma_clean_sections_props(ss.drop_last());
        let rest = clean_sections(ss.drop_last());
        if is_blank(ss.last()) {
            if clean_sections(ss).len() == 0 {
                assert forall|i: int| 0 <= i < ss.len() implies is_blank(ss[i]) by {
                    if i < ss.len() - 1 {
                        assert(ss.drop_last()[i] == ss[i]);
                    }
                }
            } else {
                let j = choose|j: int|
                    0 <= j < ss.drop_last().len() && !is_blank(ss.drop_last()[j]);
                assert(ss[j] == ss.drop_last()[j]);
            }
        } else {
            crate::text::lemma_trim_end_nonblank(ss.last());
            assert(!is_blank(ss[ss.len() - 1]));
            assert forall|i: int|
                0 <= i < clean_sections(ss).len() implies {
                &&& (#[trigger] clean_sections(ss)[i]).len() > 0
                &&& !crate::text::is_wschar(clean_sections(ss)[i].last())
                &&& !is_blank(clean_sections(ss)[i])
            } by {
                if i < rest.len() {
                    assert(clean_sections(ss)[i] == rest[i]);
                } else {
                    assert(clean_sections(ss)[i] == trim_end_spec(ss.last()));
                }
            }
        }
    }
}

/// What a drain returns, in full: `None` exactly when every accumulated
/// section is blank; otherwise the surviving sections joined with one blank
/// line between adjacent ones, each non-empty, non-blank, and free of
/// trailing whitespace.
pub proof fn lemma_take_text_shape(ss: Seq<Seq<char>>)
    ensures
        match take_text_spec(ss) {
            None => forall|i: int| 0 <= i < ss.len() ==> is_blank(ss[i]),
            Some(t) => {
                let cs = clean_sections(ss);
                &&& cs.len() > 0
                &&& t == join_with(cs, section_sep())
                &&& forall|i: int|
                    0 <= i < cs.len() ==> {
                        &&& (#[trigger] cs[i]).len() > 0
                        &&& !crate::text::is_wschar(cs[i].last())
                        &&& !is_blank(cs[i])
                    }
            },
        },
{
    lemma_clean_sections_props(ss);
}

/// Draining trims trailing whitespace only: when no accumulated section
/// starts with a whitespace character, no drained section does either.
pub proof fn lemma_take_text_no_leading_ws(ss: Seq<Seq<char>>)
    requires
        forall|i: int|
            0 <= i < ss.len() ==> ((#[trigger] ss[i]).len() > 0 ==> !crate::text::is_wschar(
                ss[i][0],
            )),
    ensures
        forall|i: int|
            0 <= i < clean_sections(ss).len() ==> !crate::text::is_wschar(
                (#[trigger] clean_sections(ss)[i])[0],
            ),
    decreases ss.len(),
{
    if ss.len() > 0 {
        assert(forall|i: int|
            0 <= i < ss.drop_last().len() ==> #[trigger] ss.drop_last()[i] == ss[i]);
        lemma_take_text_no_leading_ws(ss.drop_last());
        let rest = clean_sections(ss.drop_last());
        if !is_blank(ss.last()) {
            crate::text::lemma_trim_end_nonblank(ss.last());
            crate::text::lemma_trim_end_prefix(ss.last());
            assert(trim_end_spec(ss.last())[0] == ss.last()[0]);
            assert(ss[ss.len() - 1].len() > 0);
            assert(!crate::text::is_wschar(ss.last()[0]));
            assert forall|i: int|
                0 <= i < clean_sections(ss).len() implies !crate::text::is_wschar(
                (#[trigger] clean_sections(ss)[i])[0],
            ) by {
                if i < rest.len() {
                    assert(clean_sections(ss)[i] == rest[i]);
                } else {
                    assert(clean_sections(ss)[i] == trim_end_spec(ss.last()));
                }
            }
        }
    }
}

/// Draining is idempotent: a drained aggregator holds only one empty (hence
/// blank) pending section, so a second drain returns `None`.
pub proof fn lemma_drained_take_none(agg: ReasoningAggregator)
    requires
        agg.is_drained(),
    ensures
        take_text_spec(agg.pending()) is None,
{
    let p = agg.pending();
    assert(p.len() == 1);
    assert(p.drop_last().len() == 0);
    assert(clean_sections(p.drop_last()).len() == 0);
    assert(is_blank(p.last()));
    assert(clean_sections(p) == clean_sections(p.drop_last()));
}

} // verus!

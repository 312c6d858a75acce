//! What a finished utterance offers: ranked hypotheses and the words of a
//! hypothesis with their place in time.
//!
//! The engine ranks its hypotheses and lists the words of each in time
//! order. The values of this module hold to that: a list that is out of
//! order is refused when it is taken in, as a failure of the engine, so
//! that every cursor hands its items out in order.

use crate::cursor::{first, rest};
use crate::error::{Error, ErrorKind};
use vstd::prelude::*;

verus! {

/// The first frame of every utterance.
pub const FIRST_FRAME: i32 = 0;

/// The frame number that stands for the last frame of an utterance,
/// wherever that is.
pub const LAST_FRAME: i32 = -1;

/// The scores of one word, all in the engine's log domain.
#[derive(Clone, Copy, Debug, PartialEq, Eq, Structural)]
pub struct SegProbs {
    /// Posterior probability of the word.
    pub prob: i32,
    /// Acoustic score.
    pub ascr: i32,
    /// Language model score.
    pub lscr: i32,
    /// Language model back-off mode.
    pub lback: i32,
}

/// One word of a hypothesis: its text, the frames it covers and its scores.
pub struct SegModel {
    pub word: Seq<char>,
    pub start_frame: int,
    pub end_frame: int,
    pub probs: SegProbs,
}

/// One ranked hypothesis. The engine may leave the text out.
pub struct NBestModel {
    pub hyp: Option<Seq<char>>,
    pub score: int,
    pub segments: Seq<SegModel>,
    pub segments_score: int,
}

/// What each word of `items` stands for, in the same order.
pub open spec fn seg_models(items: Seq<Seg>) -> Seq<SegModel> {
    Seq::new(items.len(), |i: int| items[i]@)
}

/// What each hypothesis of `items` stands for, in the same order.
pub open spec fn nbest_models(items: Seq<NBest>) -> Seq<NBestModel> {
    Seq::new(items.len(), |i: int| items[i]@)
}

/// The score that a hypothesis reads as: its own where it has a text, and
/// 0 where it has none.
pub open spec fn shown_score(entry: NBestModel) -> int {
    if entry.hyp is Some {
        entry.score
    } else {
        0
    }
}

/// Each hypothesis reads as a score at least as high as the one after it.
pub open spec fn descending(hyps: Seq<NBestModel>) -> bool {
    forall|i: int|
        0 <= i && i + 1 < hyps.len() ==> shown_score(hyps[i]) >= shown_score(
            #[trigger] hyps[i + 1],
        )
}

/// Each word ends no earlier than it starts and no later than the word
/// after it starts.
pub open spec fn in_time_order(segs: Seq<SegModel>) -> bool {
    &&& forall|i: int| 0 <= i < segs.len() ==> (#[trigger] segs[i]).start_frame <= segs[i].end_frame
    &&& forall|i: int|
        0 <= i && i + 1 < segs.len() ==> segs[i].end_frame <= (#[trigger] segs[i + 1]).start_frame
}

/// The word `word` comes before every word of `later` and does not reach
/// into any of them.
pub open spec fn precedes(word: SegModel, later: Seq<SegModel>) -> bool {
    forall|i: int|
        0 <= i < later.len() ==> word.end_frame <= (#[trigger] later[i]).start_frame
            && word.start_frame <= later[i].start_frame
}

/// The hypothesis `entry` reads as a score at least as high as every
/// hypothesis of `later`.
pub open spec fn outranks(entry: NBestModel, later: Seq<NBestModel>) -> bool {
    forall|i: int| 0 <= i < later.len() ==> shown_score(entry) >= shown_score(#[trigger] later[i])
}

/// In a ranked list an entry scores at least as high as every entry that
/// is handed out after it.
pub proof fn lemma_scores_never_rise(hyps: Seq<NBestModel>, i: int, j: int)
    requires
        descending(hyps),
        0 <= i <= j < hyps.len(),
    ensures
        shown_score(hyps[i]) >= shown_score(hyps[j]),
    decreases j - i,
{
    if i < j {
        lemma_scores_never_rise(hyps, i, j - 1);
        assert(shown_score(hyps[j - 1]) >= shown_score(hyps[j - 1 + 1]));
    }
}

/// What is left of a ranked list after some of its entries were handed out
/// is a ranked list.
pub proof fn lemma_rest_is_ranked(hyps: Seq<NBestModel>, count: int)
    requires
        descending(hyps),
        0 <= count <= hyps.len(),
    ensures
        descending(hyps.skip(count)),
{
    let left = hyps.skip(count);
    assert forall|i: int| 0 <= i && i + 1 < left.len() implies shown_score(left[i])
        >= shown_score(#[trigger] left[i + 1]) by {
        assert(shown_score(hyps[count + i]) >= shown_score(hyps[count + i + 1]));
    }
}

/// In a segmentation in time order a word ends before any later word
/// starts, and starts no later than it.
pub proof fn lemma_words_do_not_overlap(segs: Seq<SegModel>, i: int, j: int)
    requires
        in_time_order(segs),
        0 <= i < j < segs.len(),
    ensures
        segs[i].end_frame <= segs[j].start_frame,
        segs[i].start_frame <= segs[j].start_frame,
    decreases j - i,
{
    assert(segs[i].start_frame <= segs[i].end_frame);
    if i + 1 < j {
        lemma_words_do_not_overlap(segs, i, j - 1);
        assert(segs[j - 1].start_frame <= segs[j - 1].end_frame);
        assert(segs[j - 1].end_frame <= segs[j - 1 + 1].start_frame);
    } else {
        assert(segs[i].end_frame <= segs[i + 1].start_frame);
    }
}

/// What is left of a segmentation in time order after some of its words
/// were handed out is in time order.
pub proof fn lemma_rest_is_in_time_order(segs: Seq<SegModel>, count: int)
    requires
        in_time_order(segs),
        0 <= count <= segs.len(),
    ensures
        in_time_order(segs.skip(count)),
{
    let left = segs.skip(count);
    assert forall|i: int| 0 <= i < left.len() implies (#[trigger] left[i]).start_frame
        <= left[i].end_frame by {
        assert(segs[count + i].start_frame <= segs[count + i].end_frame);
    }
    assert forall|i: int| 0 <= i && i + 1 < left.len() implies left[i].end_frame <= (
    #[trigger] left[i + 1]).start_frame by {
        assert(segs[count + i].end_frame <= segs[count + i + 1].start_frame);
    }
}

/// One word of a hypothesis.
#[derive(Debug)]
pub struct Seg {
    word: String,
    start_frame: i32,
    end_frame: i32,
    probs: SegProbs,
}

impl View for Seg {
    type V = SegModel;

    closed spec fn view(&self) -> SegModel {
        SegModel {
            word: self.word@,
            start_frame: self.start_frame as int,
            end_frame: self.end_frame as int,
            probs: self.probs,
        }
    }
}

impl Clone for Seg {
    fn clone(&self) -> (copy: Seg)
        ensures
            copy@ == self@,
    {
        Seg {
            word: self.word.clone(),
            start_frame: self.start_frame,
            end_frame: self.end_frame,
            probs: self.probs,
        }
    }
}

impl Seg {
    pub fn new(word: String, start_frame: i32, end_frame: i32, probs: SegProbs) -> (seg: Seg)
        ensures
            seg@ == (SegModel {
                word: word@,
                start_frame: start_frame as int,
                end_frame: end_frame as int,
                probs,
            }),
    {
        Seg { word, start_frame, end_frame, probs }
    }

    pub fn prob(&self) -> (probs: SegProbs)
        ensures
            probs == self@.probs,
    {
        self.probs
    }

    pub fn word(&self) -> (word: &str)
        ensures
            word@ == self@.word,
    {
        self.word.as_str()
    }

    /// The frame at which the word starts and the frame at which it ends.
    pub fn frames(&self) -> (frames: (i32, i32))
        ensures
            frames.0 == self@.start_frame,
            frames.1 == self@.end_frame,
    {
        (self.start_frame, self.end_frame)
    }
}

/// Whether the words of `segs` follow each other in time without
/// overlapping.
pub fn is_in_time_order(segs: &[Seg]) -> (ordered: bool)
    ensures
        ordered == in_time_order(seg_models(segs@)),
{
    let ghost models = seg_models(segs@);
    let mut i: usize = 0;
    while i < segs.len()
        invariant
            i <= segs.len(),
            models == seg_models(segs@),
            forall|k: int| 0 <= k < i ==> (#[trigger] models[k]).start_frame <= models[k].end_frame,
            forall|k: int|
                0 <= k && k + 1 < i ==> models[k].end_frame <= (#[trigger] models[k + 1]).start_frame,
        decreases segs.len() - i,
    {
        if segs[i].start_frame > segs[i].end_frame {
            assert(models[i as int].start_frame > models[i as int].end_frame);
            return false;
        }
        if i > 0 && segs[i - 1].end_frame > segs[i].start_frame {
            assert(models[i - 1].end_frame > models[i - 1 + 1].start_frame);
            return false;
        }
        i += 1;
    }
    true
}

/// A copy of the words `segs`.
fn copy_words(segs: &Vec<Seg>) -> (copy: Vec<Seg>)
    ensures
        seg_models(copy@) == seg_models(segs@),
{
    let mut copy: Vec<Seg> = Vec::new();
    let mut i: usize = 0;
    while i < segs.len()
        invariant
            i <= segs.len(),
            copy@.len() == i,
            forall|k: int| 0 <= k < i ==> (#[trigger] copy@[k])@ == segs@[k]@,
        decreases segs.len() - i,
    {
        copy.push(segs[i].clone());
        i += 1;
    }
    assert(seg_models(copy@) =~= seg_models(segs@));
    copy
}

/// A cursor over the words of one hypothesis. The words are in time
/// order and do not overlap.
#[derive(Debug)]
pub struct SegIter {
    words: Vec<Seg>,
    at: usize,
}

impl View for SegIter {
    type V = Seq<SegModel>;

    /// The words that have not been handed out yet.
    closed spec fn view(&self) -> Seq<SegModel> {
        seg_models(self.words@).skip(self.at as int)
    }
}

impl SegIter {
    #[verifier::type_invariant]
    spec fn well_formed(&self) -> bool {
        &&& self.at <= self.words@.len()
        &&& in_time_order(seg_models(self.words@))
    }

    /// A cursor over `segs`, the words of a hypothesis as the engine lists
    /// them. Words that are out of time order or overlap are a failure of
    /// the engine.
    pub fn new(segs: Vec<Seg>) -> (made: Result<SegIter, Error>)
        ensures
            made is Ok <==> in_time_order(seg_models(segs@)),
            made matches Ok(cursor) ==> cursor@ == seg_models(segs@),
            made matches Err(e) ==> e.kind == ErrorKind::EngineFailure,
    {
        if is_in_time_order(segs.as_slice()) {
            let cursor = SegIter { words: segs, at: 0 };
            assert(cursor@ =~= seg_models(segs@));
            Ok(cursor)
        } else {
            Err(Error::new(ErrorKind::EngineFailure))
        }
    }

    /// Hands out the next word, if one is left. It ends before every word
    /// that is handed out after it begins.
    pub fn next(&mut self) -> (seg: Option<Seg>)
        ensures
            match seg {
                Some(handed) => first(old(self)@) == Some(handed@),
                None => first(old(self)@) is None,
            },
            final(self)@ == rest(old(self)@),
            in_time_order(old(self)@),
            seg matches Some(handed) ==> precedes(handed@, final(self)@),
    {
        proof {
            use_type_invariant(&*self);
            lemma_rest_is_in_time_order(seg_models(self.words@), self.at as int);
        }
        if self.at >= self.words.len() {
            return None;
        }
        let ghost all = seg_models(self.words@);
        let ghost at = self.at as int;
        let seg = self.words[self.at].clone();
        self.at = self.at + 1;
        proof {
            assert(self@ =~= old(self)@.drop_first());
            assert forall|i: int| 0 <= i < self@.len() implies seg@.end_frame <= (
            #[trigger] self@[i]).start_frame && seg@.start_frame <= self@[i].start_frame by {
                lemma_words_do_not_overlap(all, at, at + 1 + i);
            }
        }
        Some(seg)
    }
}

/// One entry of an N-best list. Its words are in time order and do not
/// overlap.
#[derive(Debug)]
pub struct NBest {
    hyp: Option<String>,
    score: i32,
    segments: Vec<Seg>,
    segments_score: i32,
}

impl View for NBest {
    type V = NBestModel;

    closed spec fn view(&self) -> NBestModel {
        NBestModel {
            hyp: match self.hyp {
                Some(text) => Some(text@),
                None => None,
            },
            score: self.score as int,
            segments: seg_models(self.segments@),
            segments_score: self.segments_score as int,
        }
    }
}

impl Clone for NBest {
    fn clone(&self) -> (copy: NBest)
        ensures
            copy@ == self@,
    {
        proof {
            use_type_invariant(self);
        }
        let hyp: Option<String> = match &self.hyp {
            Some(text) => Some(text.clone()),
            None => None,
        };
        NBest {
            hyp,
            score: self.score,
            segments: copy_words(&self.segments),
            segments_score: self.segments_score,
        }
    }
}

impl NBest {
    #[verifier::type_invariant]
    spec fn well_formed(&self) -> bool {
        in_time_order(seg_models(self.segments@))
    }

    /// An entry as the engine reports it: a text, if it has one, with its
    /// score, and its words with the score of that segmentation. Words
    /// that are out of time order or overlap are a failure of the engine.
    pub fn new(hyp: Option<String>, score: i32, segments: Vec<Seg>, segments_score: i32) -> (made:
        Result<NBest, Error>)
        ensures
            made is Ok <==> in_time_order(seg_models(segments@)),
            made matches Ok(entry) ==> entry@ == (NBestModel {
                hyp: match hyp {
                    Some(text) => Some(text@),
                    None => None,
                },
                score: score as int,
                segments: seg_models(segments@),
                segments_score: segments_score as int,
            }),
            made matches Err(e) ==> e.kind == ErrorKind::EngineFailure,
    {
        if is_in_time_order(segments.as_slice()) {
            Ok(NBest { hyp, score, segments, segments_score })
        } else {
            Err(Error::new(ErrorKind::EngineFailure))
        }
    }

    /// The text and the score of the entry; an entry without text reads as
    /// the empty text with score 0.
    pub fn hyp(&self) -> (hyp: (&str, i32))
        ensures
            hyp.0@ == match self@.hyp {
                Some(text) => text,
                None => Seq::<char>::empty(),
            },
            hyp.1 == shown_score(self@),
    {
        match &self.hyp {
            Some(text) => (text.as_str(), self.score),
            None => {
                proof {
                    reveal_strlit("");
                }
                assert(""@ =~= Seq::<char>::empty());
                ("", 0)
            },
        }
    }

    /// A fresh cursor over the words of the entry, and the score of that
    /// segmentation.
    pub fn segments(&self) -> (found: (SegIter, i32))
        ensures
            found.0@ == self@.segments,
            found.1 == self@.segments_score,
    {
        proof {
            use_type_invariant(self);
        }
        let cursor = SegIter { words: copy_words(&self.segments), at: 0 };
        assert(cursor@ =~= self@.segments);
        (cursor, self.segments_score)
    }
}

/// Whether `hyps` is ranked: no entry reads as a higher score than the one
/// before it.
pub fn is_descending(hyps: &[NBest]) -> (ranked: bool)
    ensures
        ranked == descending(nbest_models(hyps@)),
{
    let ghost models = nbest_models(hyps@);
    if hyps.len() < 2 {
        return true;
    }
    let mut i: usize = 0;
    while i + 1 < hyps.len()
        invariant
            i + 1 <= hyps.len(),
            models == nbest_models(hyps@),
            forall|k: int|
                0 <= k < i ==> shown_score(models[k]) >= shown_score(#[trigger] models[k + 1]),
        decreases hyps.len() - i,
    {
        let (_, now) = hyps[i].hyp();
        let (_, after) = hyps[i + 1].hyp();
        if now < after {
            assert(shown_score(models[i as int]) < shown_score(models[i + 1]));
            return false;
        }
        i += 1;
    }
    true
}

/// A cursor over an N-best list, best entry first.
#[derive(Debug)]
pub struct NBestIter {
    entries: Vec<NBest>,
    at: usize,
}

impl View for NBestIter {
    type V = Seq<NBestModel>;

    /// The entries that have not been handed out yet.
    closed spec fn view(&self) -> Seq<NBestModel> {
        nbest_models(self.entries@).skip(self.at as int)
    }
}

impl NBestIter {
    #[verifier::type_invariant]
    spec fn well_formed(&self) -> bool {
        &&& self.at <= self.entries@.len()
        &&& descending(nbest_models(self.entries@))
    }

    /// A cursor over `hyps`, the hypotheses as the engine lists them. A
    /// list in which a score rises is a failure of the engine.
    pub fn new(hyps: Vec<NBest>) -> (made: Result<NBestIter, Error>)
        ensures
            made is Ok <==> descending(nbest_models(hyps@)),
            made matches Ok(cursor) ==> cursor@ == nbest_models(hyps@),
            made matches Err(e) ==> e.kind == ErrorKind::EngineFailure,
    {
        if is_descending(hyps.as_slice()) {
            let cursor = NBestIter { entries: hyps, at: 0 };
            assert(cursor@ =~= nbest_models(hyps@));
            Ok(cursor)
        } else {
            Err(Error::new(ErrorKind::EngineFailure))
        }
    }

    /// Hands out the next entry, if one is left. No entry that is handed
    /// out after it reads as a higher score.
    pub fn next(&mut self) -> (entry: Option<NBest>)
        ensures
            match entry {
                Some(handed) => first(old(self)@) == Some(handed@),
                None => first(old(self)@) is None,
            },
            final(self)@ == rest(old(self)@),
            descending(old(self)@),
            entry matches Some(handed) ==> outranks(handed@, final(self)@),
    {
        proof {
            use_type_invariant(&*self);
            lemma_rest_is_ranked(nbest_models(self.entries@), self.at as int);
        }
        if self.at >= self.entries.len() {
            return None;
        }
        let ghost all = nbest_models(self.entries@);
        let ghost at = self.at as int;
        let entry = self.entries[self.at].clone();
        self.at = self.at + 1;
        proof {
            assert(self@ =~= old(self)@.drop_first());
            assert forall|i: int| 0 <= i < self@.len() implies shown_score(entry@) >= shown_score(
                #[trigger] self@[i],
            ) by {
                lemma_scores_never_rise(all, at, at + 1 + i);
            }
        }
        Some(entry)
    }
}

} // verus!

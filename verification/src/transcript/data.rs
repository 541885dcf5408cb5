//! Transcripts: the service's raw shape, the internal shape, and the record
//! that is stored for an episode.

use vstd::prelude::*;
use vstd::std_specs::convert::FromSpecImpl;
use vstd::string::*;

verus! {

/// An episode as the datastore holds it.
#[derive(Clone, Debug, PartialEq, Eq)]
pub struct Episode {
    pub id: u32,
    pub title: String,
    pub download_url: String,
}

/// One timed piece of text, as a mathematical value. Times are in
/// milliseconds from the start of the audio.
pub struct SegmentView {
    pub start: nat,
    pub end: nat,
    pub text: Seq<char>,
}

/// One segment of the transcription service's answer.
#[derive(Clone, Debug, PartialEq, Eq)]
pub struct SegmentAlt {
    pub start: u64,
    pub end: u64,
    pub text: String,
}

impl View for SegmentAlt {
    type V = SegmentView;

    open spec fn view(&self) -> SegmentView {
        SegmentView { start: self.start as nat, end: self.end as nat, text: self.text@ }
    }
}

/// The transcription service's answer: its segments in the order it gave them.
#[derive(Clone, Debug, PartialEq, Eq)]
pub struct TranscriptAlt {
    pub segments: Vec<SegmentAlt>,
}

impl View for TranscriptAlt {
    type V = Seq<SegmentView>;

    open spec fn view(&self) -> Seq<SegmentView> {
        self.segments@.map_values(|s: SegmentAlt| s@)
    }
}

/// One segment of a transcript: from when to when, and what was said.
#[derive(Clone, Debug, PartialEq, Eq)]
pub struct Segment {
    pub from: u64,
    pub to: u64,
    pub text: String,
}

impl View for Segment {
    type V = SegmentView;

    open spec fn view(&self) -> SegmentView {
        SegmentView { start: self.from as nat, end: self.to as nat, text: self.text@ }
    }
}

/// A transcript in the form that is searched and stored.
#[derive(Clone, Debug, PartialEq, Eq)]
pub struct Transcript {
    pub segments: Vec<Segment>,
}

impl View for Transcript {
    type V = Seq<SegmentView>;

    open spec fn view(&self) -> Seq<SegmentView> {
        self.segments@.map_values(|s: Segment| s@)
    }
}

/// The stored record: an episode's id with its transcript.
#[derive(Clone, Debug, PartialEq, Eq)]
pub struct EpisodeTranscript {
    pub episode_id: u32,
    pub transcript: Transcript,
}

impl View for EpisodeTranscript {
    type V = (u32, Seq<SegmentView>);

    open spec fn view(&self) -> (u32, Seq<SegmentView>) {
        (self.episode_id, self.transcript@)
    }
}

impl Segment {
    /// The segment with the times and the text of `raw`.
    pub fn from_alt(raw: &SegmentAlt) -> (seg: Segment)
        ensures
            seg@ == raw@,
    {
        Segment { from: raw.start, to: raw.end, text: raw.text.clone() }
    }
}

impl Transcript {
    /// A transcript without segments.
    pub fn new() -> (t: Transcript)
        ensures
            t@ == Seq::<SegmentView>::empty(),
    {
        let t = Transcript { segments: Vec::new() };
        assert(t@ =~= Seq::<SegmentView>::empty());
        t
    }

    /// How many segments the transcript has.
    pub fn len(&self) -> (n: usize)
        ensures
            n == self@.len(),
    {
        self.segments.len()
    }

    /// The transcript of a raw answer: segment for segment, in the same
    /// order, with the same times and text.
    pub fn from_alt(raw: &TranscriptAlt) -> (t: Transcript)
        ensures
            t@ == raw@,
    {
        let mut segments: Vec<Segment> = Vec::new();
        let mut i: usize = 0;
        while i < raw.segments.len()
            invariant
                i <= raw.segments.len(),
                segments@.len() == i,
                forall|j: int| 0 <= j < i ==> (#[trigger] segments@[j])@ == raw.segments@[j]@,
            decreases raw.segments.len() - i,
        {
            segments.push(Segment::from_alt(&raw.segments[i]));
            i = i + 1;
        }
        let t = Transcript { segments };
        assert(t@ =~= raw@);
        t
    }
}

impl EpisodeTranscript {
    /// The record for episode `id` with transcript `transcript`.
    pub fn new(id: u32, transcript: Transcript) -> (record: EpisodeTranscript)
        ensures
            record.episode_id == id,
            record.transcript == transcript,
            record@ == (id, transcript@),
    {
        EpisodeTranscript { episode_id: id, transcript }
    }
}

impl From<(u32, Transcript)> for EpisodeTranscript {
    fn from(pair: (u32, Transcript)) -> (record: Self) {
        EpisodeTranscript { episode_id: pair.0, transcript: pair.1 }
    }
}

impl FromSpecImpl<(u32, Transcript)> for EpisodeTranscript {
    open spec fn obeys_from_spec() -> bool {
        true
    }

    open spec fn from_spec(pair: (u32, Transcript)) -> Self {
        EpisodeTranscript { episode_id: pair.0, transcript: pair.1 }
    }
}

/// Converting a raw answer keeps the number of segments, their order, and
/// each segment's times to the millisecond and its text.
pub proof fn lemma_conversion_preserves(raw: TranscriptAlt, t: Transcript)
    requires
        t@ == raw@,
    ensures
        t.segments@.len() == raw.segments@.len(),
        forall|i: int|
            0 <= i < raw.segments@.len() ==> {
                &&& (#[trigger] t.segments@[i]).from == raw.segments@[i].start
                &&& t.segments@[i].to == raw.segments@[i].end
                &&& t.segments@[i].text@ == raw.segments@[i].text@
            },
{
    let tv = t.segments@.map_values(|s: Segment| s@);
    let rv = raw.segments@.map_values(|s: SegmentAlt| s@);
    assert(tv == rv);
    assert(tv.len() == t.segments@.len());
    assert(rv.len() == raw.segments@.len());
    assert forall|i: int| 0 <= i < raw.segments@.len() implies {
        &&& (#[trigger] t.segments@[i]).from == raw.segments@[i].start
        &&& t.segments@[i].to == raw.segments@[i].end
        &&& t.segments@[i].text@ == raw.segments@[i].text@
    } by {
        assert(tv[i] == t.segments@[i]@);
        assert(rv[i] == raw.segments@[i]@);
    }
}

/// Two conversions of answers with the same segments give transcripts with
/// the same segments: converting again changes nothing.
pub proof fn lemma_conversion_repeatable(
    raw1: TranscriptAlt,
    raw2: TranscriptAlt,
    t1: Transcript,
    t2: Transcript,
)
    requires
        raw1@ == raw2@,
        t1@ == raw1@,
        t2@ == raw2@,
    ensures
        t1@ == t2@,
{
}

} // verus!

//! Post-processing of recognition results: absent lines and lines that are too
//! short to be trusted are dropped, the rest keep their order.

use vstd::prelude::*;
use vstd::string::*;

verus! {

/// The length, in characters, that a line's text must exceed to be kept.
///
/// A single glyph is far more often a speck of dirt than a line of text.
pub const DEFAULT_MIN_CHARS: usize = 1;

/// The text recognized for one line group.
#[derive(Clone, Debug, PartialEq, Eq)]
pub struct RecognizedLine {
    /// The characters, in reading order.
    pub text: String,
    /// The position of the line group that this text was read from.
    pub source: usize,
}

/// The mathematical content of a [`RecognizedLine`].
pub struct LineView {
    pub text: Seq<char>,
    pub source: nat,
}

impl View for RecognizedLine {
    type V = LineView;

    open spec fn view(&self) -> LineView {
        LineView { text: self.text@, source: self.source as nat }
    }
}

/// The views of a sequence of lines.
pub open spec fn views(lines: Seq<RecognizedLine>) -> Seq<LineView> {
    lines.map_values(|l: RecognizedLine| l@)
}

/// The views of a sequence of lines of which some may be absent.
pub open spec fn optional_views(lines: Seq<Option<RecognizedLine>>) -> Seq<Option<LineView>> {
    lines.map_values(
        |l: Option<RecognizedLine>|
            match l {
                Some(line) => Some(line@),
                None => None,
            },
    )
}

/// Whether a line's text is long enough to be kept.
pub open spec fn long_enough(line: LineView, min_chars: nat) -> bool {
    line.text.len() > min_chars
}

/// The lines that are there, in their order.
pub open spec fn present(lines: Seq<Option<LineView>>) -> Seq<LineView>
    decreases lines.len(),
{
    if lines.len() == 0 {
        Seq::empty()
    } else {
        match lines.last() {
            Some(line) => present(lines.drop_last()).push(line),
            None => present(lines.drop_last()),
        }
    }
}

/// The lines whose text is longer than `min_chars`, in their order.
pub open spec fn without_short(lines: Seq<LineView>, min_chars: nat) -> Seq<LineView> {
    lines.filter(|l: LineView| long_enough(l, min_chars))
}

/// What is left of a recognition result: the lines that are there and whose
/// text is longer than `min_chars`, in their order.
pub open spec fn filtered(lines: Seq<Option<LineView>>, min_chars: nat) -> Seq<LineView> {
    without_short(present(lines), min_chars)
}

/// The texts of a sequence of lines.
pub open spec fn texts(lines: Seq<LineView>) -> Seq<Seq<char>> {
    lines.map_values(|l: LineView| l.text)
}

impl RecognizedLine {
    /// A copy of this line.
    pub fn duplicate(&self) -> (copy: RecognizedLine)
        ensures
            copy@ == self@,
    {
        RecognizedLine { text: self.text.clone(), source: self.source }
    }

    /// Whether the text has more than `min_chars` characters.
    pub fn is_long_enough(&self, min_chars: usize) -> (keep: bool)
        ensures
            keep == long_enough(self@, min_chars as nat),
    {
        self.text.as_str().unicode_len() > min_chars
    }
}

/// The texts of a recognition result, each with the position of its line
/// group.
pub open spec fn attributed(found: Seq<Option<Seq<char>>>) -> Seq<Option<LineView>> {
    Seq::new(
        found.len(),
        |i: int|
            match found[i] {
                Some(text) => Some(LineView { text, source: i as nat }),
                None => None,
            },
    )
}

/// The views of the texts of a recognition result.
pub open spec fn text_views(found: Seq<Option<String>>) -> Seq<Option<Seq<char>>> {
    found.map_values(
        |t: Option<String>|
            match t {
                Some(text) => Some(text@),
                None => None,
            },
    )
}

/// Gives each text of a recognition result the position of its line group:
/// entry `i` is the text of line group `i`.
pub fn attribute(found: Vec<Option<String>>) -> (recognized: Vec<Option<RecognizedLine>>)
    ensures
        optional_views(recognized@) == attributed(text_views(found@)),
        recognized@.len() == found@.len(),
{
    let mut recognized: Vec<Option<RecognizedLine>> = Vec::new();
    let mut i: usize = 0;
    while i < found.len()
        invariant
            i <= found.len(),
            recognized@.len() == i,
            forall|k: int|
                0 <= k < i ==> #[trigger] optional_views(recognized@)[k] == attributed(
                    text_views(found@),
                )[k],
        decreases found.len() - i,
    {
        let ghost before = recognized@;
        let entry = match &found[i] {
            Some(text) => Some(RecognizedLine { text: text.clone(), source: i }),
            None => None,
        };
        recognized.push(entry);
        assert forall|k: int| 0 <= k < i + 1 implies #[trigger] optional_views(recognized@)[k]
            == attributed(text_views(found@))[k] by {
            if k < i {
                assert(optional_views(before)[k] == optional_views(recognized@)[k]);
            }
        }
        i += 1;
    }
    recognized
}

/// Drops the absent entries of a recognition result.
pub fn present_lines(recognized: &Vec<Option<RecognizedLine>>) -> (lines: Vec<RecognizedLine>)
    ensures
        views(lines@) == present(optional_views(recognized@)),
{
    let mut lines: Vec<RecognizedLine> = Vec::new();
    let mut i: usize = 0;
    while i < recognized.len()
        invariant
            i <= recognized.len(),
            views(lines@) == present(optional_views(recognized@).take(i as int)),
        decreases recognized.len() - i,
    {
        proof {
            let all = optional_views(recognized@);
            assert(all.take(i + 1).drop_last() =~= all.take(i as int));
        }
        match &recognized[i] {
            Some(line) => {
                lines.push(line.duplicate());
            },
            None => {},
        }
        i += 1;
    }
    assert(optional_views(recognized@).take(i as int) =~= optional_views(recognized@));
    lines
}

/// Drops the lines whose text has `min_chars` characters or fewer.
pub fn drop_short(lines: &Vec<RecognizedLine>, min_chars: usize) -> (kept: Vec<RecognizedLine>)
    ensures
        views(kept@) == without_short(views(lines@), min_chars as nat),
{
    let ghost pred = |l: LineView| long_enough(l, min_chars as nat);
    let mut kept: Vec<RecognizedLine> = Vec::new();
    let mut i: usize = 0;
    proof {
        reveal(Seq::filter);
    }
    while i < lines.len()
        invariant
            i <= lines.len(),
            pred == |l: LineView| long_enough(l, min_chars as nat),
            views(kept@) == views(lines@).take(i as int).filter(pred),
        decreases lines.len() - i,
    {
        proof {
            reveal(Seq::filter);
            let all = views(lines@);
            assert(all.take(i + 1).drop_last() =~= all.take(i as int));
        }
        if lines[i].is_long_enough(min_chars) {
            kept.push(lines[i].duplicate());
        }
        i += 1;
    }
    assert(views(lines@).take(i as int) =~= views(lines@));
    kept
}

/// Filters a recognition result: drops the absent entries, then the lines whose
/// text has `min_chars` characters or fewer. What is left keeps its order.
pub fn filter_lines(recognized: &Vec<Option<RecognizedLine>>, min_chars: usize) -> (kept: Vec<
    RecognizedLine,
>)
    ensures
        views(kept@) == filtered(optional_views(recognized@), min_chars as nat),
        kept@.len() <= recognized@.len(),
{
    let there = present_lines(recognized);
    let kept = drop_short(&there, min_chars);
    proof {
        lemma_filtered_is_no_longer(optional_views(recognized@), min_chars as nat);
    }
    kept
}

/// The text of each line, one output record per line, in the lines' order.
pub fn render(lines: &Vec<RecognizedLine>) -> (records: Vec<String>)
    ensures
        records@.map_values(|s: String| s@) == texts(views(lines@)),
{
    let mut records: Vec<String> = Vec::new();
    let mut i: usize = 0;
    while i < lines.len()
        invariant
            i <= lines.len(),
            records@.len() == i,
            forall|k: int| 0 <= k < i ==> (#[trigger] records@[k])@ == lines@[k].text@,
        decreases lines.len() - i,
    {
        records.push(lines[i].text.clone());
        i += 1;
    }
    records
}

/// Dropping the absent entries never lengthens a sequence.
pub proof fn lemma_present_is_no_longer(lines: Seq<Option<LineView>>)
    ensures
        present(lines).len() <= lines.len(),
    decreases lines.len(),
{
    if lines.len() > 0 {
        lemma_present_is_no_longer(lines.drop_last());
    }
}

/// Filtering never lengthens a recognition result: there are at most as many
/// lines after it as there were line groups.
pub proof fn lemma_filtered_is_no_longer(lines: Seq<Option<LineView>>, min_chars: nat)
    ensures
        filtered(lines, min_chars).len() <= lines.len(),
{
    lemma_present_is_no_longer(lines);
    present(lines).lemma_filter_len(|l: LineView| long_enough(l, min_chars));
}

/// Every line that is left after dropping the short ones is long enough.
pub proof fn lemma_without_short_all_long(lines: Seq<LineView>, min_chars: nat)
    ensures
        forall|i: int|
            0 <= i < without_short(lines, min_chars).len() ==> long_enough(
                #[trigger] without_short(lines, min_chars)[i],
                min_chars,
            ),
{
    let pred = |l: LineView| long_enough(l, min_chars);
    assert forall|i: int| 0 <= i < lines.filter(pred).len() implies long_enough(
        #[trigger] lines.filter(pred)[i],
        min_chars,
    ) by {
        lines.lemma_filter_pred(pred, i);
    }
}

/// A sequence in which every line is long enough is left as it is.
pub proof fn lemma_without_short_keeps_long(lines: Seq<LineView>, min_chars: nat)
    requires
        forall|i: int| 0 <= i < lines.len() ==> long_enough(#[trigger] lines[i], min_chars),
    ensures
        without_short(lines, min_chars) == lines,
    decreases lines.len(),
{
    reveal(Seq::filter);
    if lines.len() > 0 {
        lemma_without_short_keeps_long(lines.drop_last(), min_chars);
    }
}

/// Dropping the short lines is idempotent: applied to what it left, it drops
/// nothing more.
pub proof fn lemma_without_short_idempotent(lines: Seq<LineView>, min_chars: nat)
    ensures
        without_short(without_short(lines, min_chars), min_chars) == without_short(
            lines,
            min_chars,
        ),
{
    lemma_without_short_all_long(lines, min_chars);
    lemma_without_short_keeps_long(without_short(lines, min_chars), min_chars);
}

/// Lines that are all there are left as they are by dropping the absent ones.
pub proof fn lemma_present_of_all_some(lines: Seq<LineView>)
    ensures
        present(lines.map_values(|l: LineView| Some(l))) == lines,
    decreases lines.len(),
{
    let wrapped = lines.map_values(|l: LineView| Some(l));
    if lines.len() > 0 {
        lemma_present_of_all_some(lines.drop_last());
        assert(wrapped.drop_last() =~= lines.drop_last().map_values(|l: LineView| Some(l)));
    }
}

/// Filtering is idempotent: a filtered result, handed in again with every line
/// present, comes out unchanged.
pub proof fn lemma_filter_idempotent(lines: Seq<Option<LineView>>, min_chars: nat)
    ensures
        filtered(filtered(lines, min_chars).map_values(|l: LineView| Some(l)), min_chars)
            == filtered(lines, min_chars),
{
    lemma_present_of_all_some(filtered(lines, min_chars));
    lemma_without_short_idempotent(present(lines), min_chars);
}

} // verus!

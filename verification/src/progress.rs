//! Following VSPipe's progress report: its standard error is read chunk by
//! chunk (each ends in a carriage return), and each chunk is turned into
//! what the progress bar should do.
use vstd::prelude::*;
use crate::pattern::{find_captures, find_match, pattern_captures, pattern_matches};
use crate::text::{parse_u64, parsed_u64};

verus! {

/// The report line that carries the frame counter.
pub open spec fn frame_pattern() -> Seq<char> {
    "Frame: (?P<current>\\d+)/(?P<total>\\d+)"@
}

/// The word with which VSPipe ends its report.
pub open spec fn output_pattern() -> Seq<char> {
    "Output"@
}

/// What the progress bar does for one chunk of the report.
#[derive(Debug, PartialEq, Eq, Structural)]
pub enum ProgressAction {
    /// The report is over: stop reading.
    Finish,
    /// A frame counter: set the bar's length (the first time only) and its position.
    Advance { length: Option<u64>, position: u64 },
    /// Nothing to show for this chunk.
    Skip,
}

/// The text of capture group `i`, where it took part in the match.
pub open spec fn group(groups: Seq<Option<Seq<char>>>, i: int) -> Option<Seq<char>> {
    if 0 <= i < groups.len() {
        groups[i]
    } else {
        None
    }
}

/// The number that a group spells, where it took part and parses.
pub open spec fn group_number(groups: Seq<Option<Seq<char>>>, i: int) -> Option<u64> {
    match group(groups, i) {
        Some(text) => parsed_u64(text),
        None => None,
    }
}

/// Group 1 is `current`, group 2 is `total` in the frame pattern.
pub open spec fn current_frame(groups: Seq<Option<Seq<char>>>) -> Option<u64> {
    group_number(groups, 1)
}

pub open spec fn total_frames(groups: Seq<Option<Seq<char>>>) -> Option<u64> {
    group_number(groups, 2)
}

/// The numbers that a frame counter must yield: the current frame always,
/// the total only while the length is still unknown.
pub open spec fn counter_readable(length_known: bool, groups: Seq<Option<Seq<char>>>) -> bool {
    &&& current_frame(groups) is Some
    &&& (length_known || total_frames(groups) is Some)
}

/// The action for a chunk, given whether the bar's length is already known,
/// whether the chunk holds the end word, and the frame pattern's captures.
pub open spec fn chunk_action(
    length_known: bool,
    output_found: bool,
    counter: Option<Seq<Option<Seq<char>>>>,
) -> ProgressAction {
    if output_found {
        ProgressAction::Finish
    } else {
        match counter {
            Some(groups) => ProgressAction::Advance {
                length: if length_known {
                    None
                } else {
                    Some(total_frames(groups)->0)
                },
                position: current_frame(groups)->0,
            },
            None => ProgressAction::Skip,
        }
    }
}

/// Whether the bar's length is known after a chunk.
pub open spec fn next_length_known(
    length_known: bool,
    output_found: bool,
    counter: Option<Seq<Option<Seq<char>>>>,
) -> bool {
    length_known || (!output_found && counter is Some)
}

pub open spec fn counter_view(counter: &Option<Vec<Option<String>>>) -> Option<Seq<Option<Seq<char>>>> {
    counter.deep_view()
}

/// The number in capture group `i`.
fn read_group(groups: &Vec<Option<String>>, i: usize) -> (r: Option<u64>)
    ensures
        r == group_number(groups.deep_view(), i as int),
{
    if i < groups.len() {
        match &groups[i] {
            Some(text) => parse_u64(text.as_str()),
            None => None,
        }
    } else {
        None
    }
}

/// The action for a chunk, from the regex results for it: whether it holds
/// the end word, and the frame pattern's captures.
pub fn chunk_action_of(
    length_known: bool,
    output_found: bool,
    counter: &Option<Vec<Option<String>>>,
) -> (a: ProgressAction)
    requires
        !output_found ==> match counter_view(counter) {
            Some(groups) => counter_readable(length_known, groups),
            None => true,
        },
    ensures
        a == chunk_action(length_known, output_found, counter_view(counter)),
        (a == ProgressAction::Finish) <==> output_found,
        (a == ProgressAction::Skip) <==> (!output_found && counter is None),
        !output_found && counter is Some ==> {
            &&& a matches ProgressAction::Advance { position, length }
            &&& Some(position) == parsed_u64(counter_view(counter)->0[1]->0)
            &&& (length_known ==> length is None)
            &&& (!length_known ==> length == parsed_u64(counter_view(counter)->0[2]->0))
        },
{
    if output_found {
        return ProgressAction::Finish;
    }
    match counter {
        Some(groups) => {
            let position = match read_group(groups, 1) {
                Some(p) => p,
                None => 0,
            };
            let length = if length_known {
                None
            } else {
                read_group(groups, 2)
            };
            ProgressAction::Advance { length, position }
        },
        None => ProgressAction::Skip,
    }
}

/// Whether the regex results for a chunk can be acted on: both patterns
/// compiled, and a frame counter yields the numbers it must.
pub open spec fn chunk_readable(length_known: bool, chunk: Seq<char>) -> bool {
    &&& pattern_matches(output_pattern(), chunk) is Some
    &&& pattern_captures(frame_pattern(), chunk) is Some
    &&& (pattern_matches(output_pattern(), chunk) == Some(false)
        ==> match pattern_captures(frame_pattern(), chunk)->0 {
        Some(groups) => counter_readable(length_known, groups),
        None => true,
    })
}

/// The end word ends the report whatever else the chunk holds.
pub proof fn lemma_end_word_finishes(
    length_known: bool,
    counter: Option<Seq<Option<Seq<char>>>>,
)
    ensures
        chunk_action(length_known, true, counter) == ProgressAction::Finish,
        next_length_known(length_known, true, counter) == length_known,
{
}

/// The bar's length is set once: the first frame counter sets it, and no
/// later chunk sets it again, since the length stays known from then on.
pub proof fn lemma_length_set_once(
    length_known: bool,
    output_found: bool,
    counter: Option<Seq<Option<Seq<char>>>>,
)
    ensures
        length_known ==> next_length_known(length_known, output_found, counter),
        length_known ==> !(chunk_action(length_known, output_found, counter) matches ProgressAction::Advance {
            length: Some(_),
            ..
        }),
        !length_known && !output_found && counter is Some ==> {
            &&& chunk_action(length_known, output_found, counter) matches ProgressAction::Advance {
                length: Some(_),
                ..
            }
            &&& next_length_known(length_known, output_found, counter)
        },
{
}

/// A chunk without the end word and without a frame counter changes nothing.
pub proof fn lemma_other_chunks_skipped(length_known: bool)
    ensures
        chunk_action(length_known, false, None) == ProgressAction::Skip,
        next_length_known(length_known, false, None) == length_known,
{
}

/// A frame counter always moves the bar to the frame that it reports in
/// its first group (`current`), whether or not the length is known, and
/// sets the length to the number in its second group (`total`) exactly
/// while the length is unknown. The bar stays put only for a chunk that
/// holds neither the end word nor a frame counter, and the report ends
/// exactly at the end word.
pub proof fn lemma_counter_moves_bar(
    length_known: bool,
    output_found: bool,
    counter: Option<Seq<Option<Seq<char>>>>,
    current: Seq<char>,
    n: u64,
)
    ensures
        (chunk_action(length_known, output_found, counter) == ProgressAction::Finish) <==> output_found,
        (chunk_action(length_known, output_found, counter) == ProgressAction::Skip) <==> (!output_found
            && counter is None),
        ({
            let groups = counter->0;
            !output_found && counter is Some && 1 < groups.len() && groups[1] == Some(current)
                && parsed_u64(current) == Some(n) ==> {
                &&& chunk_action(length_known, output_found, counter) matches ProgressAction::Advance {
                    position,
                    length,
                }
                &&& position == n
                &&& (length_known ==> length is None)
                &&& (!length_known && 2 < groups.len() && groups[2] is Some && parsed_u64(
                    groups[2]->0,
                ) is Some ==> length == parsed_u64(groups[2]->0))
            }
        }),
{
}

/// Follows the progress report chunk by chunk.
pub struct ProgressTracker {
    /// Whether the bar's length has been set.
    pub length_known: bool,
}

impl ProgressTracker {
    /// A tracker that has seen no frame counter yet.
    pub fn new() -> (t: ProgressTracker)
        ensures
            !t.length_known,
    {
        ProgressTracker { length_known: false }
    }

    /// Takes one chunk of the report. `None` where the chunk cannot be read:
    /// a pattern fails to compile, or a frame counter lacks a number it
    /// must give (the tracker is then left as it was).
    pub fn step(&mut self, chunk: &str) -> (a: Option<ProgressAction>)
        ensures
            ({
                let found = pattern_matches(output_pattern(), chunk@);
                let caps = pattern_captures(frame_pattern(), chunk@);
                if chunk_readable(old(self).length_known, chunk@) {
                    &&& a == Some(chunk_action(old(self).length_known, found->0, caps->0))
                    &&& final(self).length_known == next_length_known(
                        old(self).length_known,
                        found->0,
                        caps->0,
                    )
                } else {
                    a is None && final(self).length_known == old(self).length_known
                }
            }),
            ({
                let found = pattern_matches(output_pattern(), chunk@);
                let caps = pattern_captures(frame_pattern(), chunk@);
                chunk_readable(old(self).length_known, chunk@) && found == Some(false)
                    && caps is Some && caps->0 is Some ==> {
                    &&& a matches Some(ProgressAction::Advance { position, .. })
                    &&& Some(position) == parsed_u64(caps->0->0[1]->0)
                }
            }),
    {
        let found = match find_match("Output", chunk) {
            Some(found) => found,
            None => return None,
        };
        let caps = match find_captures("Frame: (?P<current>\\d+)/(?P<total>\\d+)", chunk) {
            Some(caps) => caps,
            None => return None,
        };
        if !found {
            if let Some(groups) = &caps {
                if read_group(groups, 1).is_none() {
                    return None;
                }
                if !self.length_known && read_group(groups, 2).is_none() {
                    return None;
                }
            }
        }
        let a = chunk_action_of(self.length_known, found, &caps);
        self.length_known = self.length_known || (!found && caps.is_some());
        Some(a)
    }
}

} // verus!

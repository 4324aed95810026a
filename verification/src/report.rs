//! The cuts that were found, written out for a reader.

use vstd::prelude::*;
use crate::text::{decimal, decimal_text};

verus! {

/// The numerals of `frames`, with a comma and a blank between each two.
pub open spec fn joined_text(frames: Seq<u32>) -> Seq<char>
    decreases frames.len(),
{
    if frames.len() == 0 {
        Seq::empty()
    } else if frames.len() == 1 {
        decimal_text(frames[0] as nat)
    } else {
        joined_text(frames.drop_last()) + ", "@ + decimal_text(frames.last() as nat)
    }
}

/// The one line that says at which frames the scenes change.
pub open spec fn simple_text(frames: Seq<u32>) -> Seq<char> {
    "Scene changes detected at frames: ["@ + joined_text(frames) + "]"@
}

/// The line for the scene with the index `index`, which starts at `frame`.
/// Scenes are numbered from one.
pub open spec fn scene_line_text(index: nat, frame: u32) -> Seq<char> {
    "    Scene "@ + decimal_text(index + 1) + ": Frame "@ + decimal_text(frame as nat)
}

/// The time that the detection took, in milliseconds.
pub open spec fn time_line_text(millis: nat) -> Seq<char> {
    "  Detection time: "@ + decimal_text(millis) + "ms"@
}

/// The number of scenes.
pub open spec fn count_line_text(count: nat) -> Seq<char> {
    "  Scenes found: "@ + decimal_text(count)
}

/// The lines of the detailed report: a heading, the time, the number of
/// scenes, and then either the word that there are none or a line for
/// each scene.
pub open spec fn detailed_text(frames: Seq<u32>, millis: nat) -> Seq<Seq<char>> {
    let head = seq![
        "Scene Detection Results:"@,
        time_line_text(millis),
        count_line_text(frames.len()),
    ];
    if frames.len() == 0 {
        head.push("  No scene changes detected"@)
    } else {
        head.push("  Scene cuts:"@) + Seq::new(
            frames.len(),
            |i: int| scene_line_text(i as nat, frames[i]),
        )
    }
}

/// Whether `lines` are the lines `text`.
pub open spec fn lines_are(lines: Seq<String>, text: Seq<Seq<char>>) -> bool {
    &&& lines.len() == text.len()
    &&& forall|i: int| 0 <= i < lines.len() ==> (#[trigger] lines[i])@ == text[i]
}

/// Writes the frames out in one line.
pub fn simple_report(frames: &Vec<u32>) -> (line: String)
    ensures
        line@ == simple_text(frames@),
{
    let mut joined: String = String::new();
    let mut i: usize = 0;
    while i < frames.len()
        invariant
            i <= frames@.len(),
            joined@ == joined_text(frames@.take(i as int)),
        decreases frames@.len() - i,
    {
        let numeral: String = decimal(frames[i] as u128);
        proof {
            let done = frames@.take(i as int);
            let more = frames@.take(i + 1);
            assert(more.drop_last() == done);
            assert(more.last() == frames@[i as int]);
            assert(Seq::<char>::empty() + numeral@ == numeral@);
        }
        if i > 0 {
            joined.append(", ");
        }
        joined.append(numeral.as_str());
        i = i + 1;
    }
    assert(frames@.take(frames@.len() as int) == frames@);
    String::from_str("Scene changes detected at frames: [").concat(joined.as_str()).concat("]")
}

/// Writes the detailed report, one string for each line.
pub fn detailed_report(frames: &Vec<u32>, detection_millis: u128) -> (lines: Vec<String>)
    ensures
        lines_are(lines@, detailed_text(frames@, detection_millis as nat)),
{
    let ghost text = detailed_text(frames@, detection_millis as nat);
    let mut lines: Vec<String> = Vec::new();
    lines.push(String::from_str("Scene Detection Results:"));
    let millis: String = decimal(detection_millis);
    lines.push(String::from_str("  Detection time: ").concat(millis.as_str()).concat("ms"));
    let count: String = decimal(frames.len() as u128);
    lines.push(String::from_str("  Scenes found: ").concat(count.as_str()));
    if frames.len() == 0 {
        lines.push(String::from_str("  No scene changes detected"));
        return lines;
    }
    lines.push(String::from_str("  Scene cuts:"));
    let mut i: usize = 0;
    while i < frames.len()
        invariant
            i <= frames@.len(),
            frames@.len() > 0,
            text == detailed_text(frames@, detection_millis as nat),
            lines@.len() == 4 + i,
            forall|j: int| 0 <= j < lines@.len() ==> (#[trigger] lines@[j])@ == text[j],
        decreases frames@.len() - i,
    {
        let number: String = decimal(i as u128 + 1);
        let frame: String = decimal(frames[i] as u128);
        lines.push(
            String::from_str("    Scene ").concat(number.as_str()).concat(": Frame ").concat(
                frame.as_str(),
            ),
        );
        i = i + 1;
    }
    lines
}

} // verus!

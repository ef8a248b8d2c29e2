//! What the presentation needs from the state beyond its fields: the glyph
//! of a goal, which pulses with the frame count.

use vstd::prelude::*;

verus! {

/// How far the goal's pulse has risen at `frame_count`, from 0 to 8. The
/// pulse takes 32 frames: it rises by one step every two frames up to its
/// peak at frame 16 of the cycle, and falls back the same way.
pub open spec fn goal_phase(frame_count: u32) -> int {
    let frame = frame_count as int % 32;
    if frame <= 16 {
        frame / 2
    } else {
        (32 - frame) / 2
    }
}

/// The glyph of the pulse at `phase`: nine glyphs in a row of the private
/// use area, from U+E010 at rest to U+E018 at the peak.
pub open spec fn phase_glyph(phase: int) -> char {
    if phase <= 0 {
        '\u{E010}'
    } else if phase == 1 {
        '\u{E011}'
    } else if phase == 2 {
        '\u{E012}'
    } else if phase == 3 {
        '\u{E013}'
    } else if phase == 4 {
        '\u{E014}'
    } else if phase == 5 {
        '\u{E015}'
    } else if phase == 6 {
        '\u{E016}'
    } else if phase == 7 {
        '\u{E017}'
    } else {
        '\u{E018}'
    }
}

/// The text that draws a goal at `frame_count`: the one glyph of its phase.
pub fn goal_string(frame_count: u32) -> (text: &'static str)
    ensures
        text@ == seq![phase_glyph(goal_phase(frame_count))],
{
    proof {
        reveal_strlit("\u{E010}");
        reveal_strlit("\u{E011}");
        reveal_strlit("\u{E012}");
        reveal_strlit("\u{E013}");
        reveal_strlit("\u{E014}");
        reveal_strlit("\u{E015}");
        reveal_strlit("\u{E016}");
        reveal_strlit("\u{E017}");
        reveal_strlit("\u{E018}");
    }
    let frame: u32 = frame_count & 31;
    assert(frame == frame_count % 32) by (bit_vector)
        requires
            frame == frame_count & 31,
    ;
    let text = match frame {
        1 => "\u{E010}",
        2 => "\u{E011}",
        3 => "\u{E011}",
        4 => "\u{E012}",
        5 => "\u{E012}",
        6 => "\u{E013}",
        7 => "\u{E013}",
        8 => "\u{E014}",
        9 => "\u{E014}",
        10 => "\u{E015}",
        11 => "\u{E015}",
        12 => "\u{E016}",
        13 => "\u{E016}",
        14 => "\u{E017}",
        15 => "\u{E017}",
        16 => "\u{E018}",
        17 => "\u{E017}",
        18 => "\u{E017}",
        19 => "\u{E016}",
        20 => "\u{E016}",
        21 => "\u{E015}",
        22 => "\u{E015}",
        23 => "\u{E014}",
        24 => "\u{E014}",
        25 => "\u{E013}",
        26 => "\u{E013}",
        27 => "\u{E012}",
        28 => "\u{E012}",
        29 => "\u{E011}",
        30 => "\u{E011}",
        31 => "\u{E010}",
        _ => "\u{E010}",
    };
    assert(text@ =~= seq![phase_glyph(goal_phase(frame_count))]);
    text
}

} // verus!

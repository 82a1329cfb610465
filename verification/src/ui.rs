//! Plain-value display helpers: the texts and glyphs the renderer shows for
//! a network's signal, band and an in-flight operation. The renderer itself
//! (layout, styling) lives outside the crate.

use vstd::prelude::*;
use vstd::string::*;

use crate::text::{decimal_rep, push_char, usize_to_string};

verus! {

/// Number of filled cells in the 20-cell signal graph for a 0-100 strength.
pub open spec fn bar_count(strength: u8) -> int {
    strength * 20 / 100
}

/// A 20-cell bar graph of the signal strength: filled cells first, then
/// empty ones.
pub fn create_signal_graph(strength: u8) -> (r: String)
    requires
        strength <= 100,
    ensures
        r@.len() == 20,
        forall|i: int| 0 <= i < bar_count(strength) ==> r@[i] == '█',
        forall|i: int| bar_count(strength) <= i < 20 ==> r@[i] == '░',
{
    let bars: usize = (strength as usize) * 20 / 100;
    let mut s = String::new();
    let mut i: usize = 0;
    while i < bars
        invariant
            i <= bars,
            bars == bar_count(strength),
            bars <= 20,
            s@.len() == i,
            forall|j: int| 0 <= j < i ==> s@[j] == '█',
        decreases bars - i,
    {
        push_char(&mut s, '█');
        i += 1;
    }
    while i < 20
        invariant
            bars <= i <= 20,
            bars == bar_count(strength),
            s@.len() == i,
            forall|j: int| 0 <= j < bars ==> s@[j] == '█',
            forall|j: int| bars <= j < i ==> s@[j] == '░',
        decreases 20 - i,
    {
        push_char(&mut s, '░');
        i += 1;
    }
    s
}

/// The band label of a channel frequency: the higher band at and above
/// 5000 MHz, the lower band below.
pub fn get_frequency_band(frequency: u32) -> (r: &'static str)
    ensures
        frequency >= 5000 ==> r@ == "5G"@,
        frequency < 5000 ==> r@ == "2.4G"@,
{
    if frequency >= 5000 {
        "5G"
    } else {
        "2.4G"
    }
}

/// The signal strength as a percentage text.
pub fn format_signal_strength(strength: u8) -> (r: String)
    ensures
        r@ == decimal_rep(strength as nat) + "%"@,
{
    usize_to_string(strength as usize).concat("%")
}

/// The spinner glyph for one step of the ten-step connection animation.
pub open spec fn spinner_frame(step: int) -> char {
    if step == 0 {
        '⠋'
    } else if step == 1 {
        '⠙'
    } else if step == 2 {
        '⠹'
    } else if step == 3 {
        '⠸'
    } else if step == 4 {
        '⠼'
    } else if step == 5 {
        '⠴'
    } else if step == 6 {
        '⠦'
    } else if step == 7 {
        '⠧'
    } else if step == 8 {
        '⠇'
    } else {
        '⠏'
    }
}

/// The spinner glyph shown after `elapsed_ms` milliseconds of an in-flight
/// operation: the animation advances every 100 ms and cycles through ten
/// frames.
pub fn get_connection_animation_frame(elapsed_ms: u128) -> (c: char)
    ensures
        c == spinner_frame(((elapsed_ms / 100) % 10) as int),
{
    let step: u128 = (elapsed_ms / 100) % 10;
    if step == 0 {
        '⠋'
    } else if step == 1 {
        '⠙'
    } else if step == 2 {
        '⠹'
    } else if step == 3 {
        '⠸'
    } else if step == 4 {
        '⠼'
    } else if step == 5 {
        '⠴'
    } else if step == 6 {
        '⠦'
    } else if step == 7 {
        '⠧'
    } else if step == 8 {
        '⠇'
    } else {
        '⠏'
    }
}

} // verus!

//! What is drawn from the window system: wide texts for its calls, and the
//! choice among the windows in front.

use vstd::prelude::*;
use crate::processes::{select_executables, selected, Candidate};
use crate::text::{contains, is_infix, lowercase_of, to_lowercase};

verus! {

/// One top-level window, as the window system describes it. `executable`
/// is the path of the program that owns it, where that could be read, and
/// `file_name` the last component of that path, where it has one.
#[derive(Debug, PartialEq)]
pub struct ForegroundWindow {
    pub visible: bool,
    pub title: String,
    pub executable: Option<String>,
    pub file_name: Option<String>,
}

/// The UTF-16 code units of one character: itself below U+10000, and a high
/// and a low surrogate above.
pub open spec fn utf16_of_char(c: char) -> Seq<u16> {
    let value = c as u32 as int;
    if value < 0x10000 {
        seq![value as u16]
    } else {
        seq![
            (0xD800 + (value - 0x10000) / 0x400) as u16,
            (0xDC00 + (value - 0x10000) % 0x400) as u16,
        ]
    }
}

/// The UTF-16 code units of a text.
pub open spec fn utf16_of(text: Seq<char>) -> Seq<u16>
    decreases text.len(),
{
    if text.len() == 0 {
        Seq::empty()
    } else {
        utf16_of(text.drop_last()) + utf16_of_char(text.last())
    }
}

/// What the choice among the windows makes of one window: it counts when it
/// is visible, has a title, and the lowercase name of its executable holds
/// `needle`.
pub open spec fn window_candidate(needle: Seq<char>, window: ForegroundWindow) -> Candidate {
    Candidate {
        matches: window.visible && window.title@.len() > 0 && window.executable is Some && (
        match window.file_name {
            Some(name) => is_infix(needle, lowercase_of(name@)),
            None => false,
        }),
        in_system_folder: false,
        executable: window.executable,
    }
}

/// Returns `text` in UTF-16 with a closing zero, as the window system's
/// calls take a text.
pub fn encode_wide(text: &str) -> (wide: Vec<u16>)
    ensures
        wide@ == utf16_of(text@).push(0),
{
    let mut wide: Vec<u16> = Vec::new();
    for c in iter: text.chars()
        invariant
            iter.seq() == text@,
            wide@ == utf16_of(text@.take(iter.index() as int)),
    {
        proof {
            assert(text@.take(iter.index() + 1).drop_last() == text@.take(iter.index() as int));
            assert(text@.take(iter.index() + 1).last() == text@[iter.index() as int]);
        }
        let value: u32 = c as u32;
        if value < 0x10000 {
            wide.push(value as u16);
            assert(wide@ == utf16_of(text@.take(iter.index() as int)) + utf16_of_char(c));
        } else {
            let offset: u32 = value - 0x10000;
            let high: u32 = 0xD800 + offset / 0x400;
            let low: u32 = 0xDC00 + offset % 0x400;
            wide.push(high as u16);
            wide.push(low as u16);
            assert(wide@ == utf16_of(text@.take(iter.index() as int)) + utf16_of_char(c));
        }
    }
    proof {
        assert(text@.take(text@.len() as int) == text@);
    }
    wide.push(0);
    wide
}

/// Returns the executables, each once and in the order of the windows, of
/// the visible, titled windows whose executable's lowercase name holds
/// `needle`.
pub fn foreground_apps(needle: &str, windows: &Vec<ForegroundWindow>) -> (executables: Vec<String>)
    ensures
        executables@ == selected(
            windows@.map_values(|window: ForegroundWindow| window_candidate(needle@, window)),
        ),
{
    let mut candidates: Vec<Candidate> = Vec::new();
    let ghost goal = windows@.map_values(
        |window: ForegroundWindow| window_candidate(needle@, window),
    );
    let mut i: usize = 0;
    while i < windows.len()
        invariant
            i <= windows.len(),
            goal == windows@.map_values(
                |window: ForegroundWindow| window_candidate(needle@, window),
            ),
            candidates@ == goal.take(i as int),
        decreases windows.len() - i,
    {
        let window = &windows[i];
        let named = match &window.file_name {
            Some(name) => {
                let lower = to_lowercase(name.as_str());
                contains(lower.as_str(), needle)
            },
            None => false,
        };
        let executable = match &window.executable {
            Some(path) => Some(path.clone()),
            None => None,
        };
        let matches = window.visible && !window.title.as_str().is_empty()
            && executable.is_some() && named;
        candidates.push(Candidate { matches, in_system_folder: false, executable });
        proof {
            assert(candidates@ =~= goal.take(i + 1));
        }
        i += 1;
    }
    proof {
        assert(goal.take(windows.len() as int) == goal);
    }
    select_executables(&candidates)
}

/// The number of bytes of an icon of `width` by `height` pixels with four
/// bytes to the pixel, where both are not negative and the number fits.
pub open spec fn icon_bytes(width: i32, height: i32) -> Option<usize> {
    if width >= 0 && height >= 0 && width * height * 4 <= usize::MAX {
        Some((width * height * 4) as usize)
    } else {
        None
    }
}

/// The place from which the byte at `at` comes when red and blue change
/// places in every whole pixel of `length` bytes: in a whole pixel the
/// first and the third byte change places, every other byte stays.
pub open spec fn swapped_place(length: int, at: int) -> int {
    if at >= length - length % 4 {
        at
    } else if at % 4 == 0 {
        at + 2
    } else if at % 4 == 2 {
        at - 2
    } else {
        at
    }
}

/// Returns the size of the buffer that holds an icon of `width` by
/// `height` pixels, or nothing where a side is negative or the size does
/// not fit.
pub fn icon_buffer_size(width: i32, height: i32) -> (size: Option<usize>)
    ensures
        size == icon_bytes(width, height),
{
    if width < 0 || height < 0 {
        return None;
    }
    let wide: u64 = width as u64;
    let high: u64 = height as u64;
    assert(wide * high <= 0x7FFF_FFFF * 0x7FFF_FFFF) by (nonlinear_arith)
        requires
            wide <= 0x7FFF_FFFF,
            high <= 0x7FFF_FFFF,
    ;
    let pixels: u64 = wide * high;
    let bytes: u128 = pixels as u128 * 4;
    if bytes <= usize::MAX as u128 {
        Some(bytes as usize)
    } else {
        None
    }
}

/// Turns pixels in the order blue, green, red, alpha into pixels in the
/// order red, green, blue, alpha. Bytes behind the last whole pixel stay.
pub fn bgra_to_rgba(pixels: &mut Vec<u8>)
    ensures
        final(pixels)@.len() == old(pixels)@.len(),
        forall|at: int|
            0 <= at < old(pixels)@.len() ==> final(pixels)@[at] == old(pixels)@[swapped_place(
                old(pixels)@.len() as int,
                at,
            )],
{
    let length = pixels.len();
    let whole = length - length % 4;
    let mut i: usize = 0;
    while i < whole
        invariant
            i <= whole,
            i % 4 == 0,
            whole == length - length % 4,
            length == old(pixels)@.len(),
            pixels@.len() == length,
            forall|at: int|
                0 <= at < i ==> pixels@[at] == old(pixels)@[swapped_place(length as int, at)],
            forall|at: int| i <= at < length ==> pixels@[at] == old(pixels)@[at],
        decreases whole - i,
    {
        let blue = pixels[i];
        let red = pixels[i + 2];
        pixels.set(i, red);
        pixels.set(i + 2, blue);
        i += 4;
    }
}

} // verus!

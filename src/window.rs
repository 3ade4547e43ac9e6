use vstd::prelude::*;

verus! {

/// `i`, but no further than `len`.
pub open spec fn clip(i: int, len: int) -> int {
    if i < len { i } else { len }
}

/// Where the shown text starts: at most a third of the width before the cursor.
pub open spec fn prefix_start(cursor: int, width: int) -> int {
    if cursor > width / 3 { cursor - width / 3 } else { 0 }
}

pub open spec fn prefix_len(cursor: int, width: int) -> int {
    cursor - prefix_start(cursor, width)
}

/// Two thirds of the width, plus what the prefix left of its own third.
pub open spec fn suffix_budget(cursor: int, width: int) -> int {
    2 * (width / 3) - prefix_len(cursor, width)
}

pub open spec fn window_prefix(story: Seq<char>, cursor: int, width: int) -> Seq<char> {
    story.subrange(clip(prefix_start(cursor, width), story.len() as int), clip(cursor, story.len() as int))
}

pub open spec fn window_current(story: Seq<char>, cursor: int) -> Seq<char> {
    story.subrange(clip(cursor, story.len() as int), clip(cursor + 1, story.len() as int))
}

pub open spec fn window_suffix(story: Seq<char>, cursor: int, width: int) -> Seq<char> {
    story.subrange(
        clip(cursor + 1, story.len() as int),
        clip(cursor + 1 + suffix_budget(cursor, width), story.len() as int),
    )
}

pub open spec fn window_len(story: Seq<char>, cursor: int, width: int) -> nat {
    window_prefix(story, cursor, width).len() + window_current(story, cursor).len()
        + window_suffix(story, cursor, width).len()
}

/// The part of the story shown around the cursor.
pub struct StoryWindow {
    pub prefix: Vec<char>,
    pub current: Vec<char>,
    pub suffix: Vec<char>,
}

fn copy_range(s: &Vec<char>, from: usize, to: usize) -> (r: Vec<char>)
    requires
        from <= to <= s@.len(),
    ensures
        r@ == s@.subrange(from as int, to as int),
{
    let mut out: Vec<char> = Vec::new();
    let mut i: usize = from;
    while i < to
        invariant
            from <= i <= to <= s@.len(),
            out@ == s@.subrange(from as int, i as int),
        decreases to - i,
    {
        out.push(s[i]);
        proof {
            assert(s@.subrange(from as int, i + 1) == s@.subrange(from as int, i as int).push(s@[i as int]));
        }
        i = i + 1;
    }
    out
}

/// Splits the text around the cursor for a line of the given width: up to a
/// third of the width before the cursor, the character under it, and after
/// it the remaining two thirds plus whatever the part before left unused.
pub fn window(story: &Vec<char>, cursor: usize, width: usize) -> (r: StoryWindow)
    ensures
        r.prefix@ == window_prefix(story@, cursor as int, width as int),
        r.current@ == window_current(story@, cursor as int),
        r.suffix@ == window_suffix(story@, cursor as int, width as int),
{
    let len = story.len();
    let third = width / 3;
    let start = if cursor > third { cursor - third } else { 0 };
    let before = cursor - start;
    let after = 2 * third - before;
    let start_c = if start < len { start } else { len };
    let cursor_c = if cursor < len { cursor } else { len };
    let current_end = if cursor < len { cursor + 1 } else { len };
    let suffix_end = if after <= len - current_end { current_end + after } else { len };
    StoryWindow {
        prefix: copy_range(story, start_c, cursor_c),
        current: copy_range(story, cursor_c, current_end),
        suffix: copy_range(story, current_end, suffix_end),
    }
}

/// The shown text never runs past the width (one character at least is
/// shown), and never past two thirds of the width plus one. Where the text
/// does not end first, its length is exactly that, so the line keeps its
/// width; at widths one and three, that is the width itself. Near the start,
/// the part before the cursor is all the text typed so far, and the part
/// after it takes up the budget that the part before left.
pub proof fn lemma_window_width(story: Seq<char>, cursor: int, width: int)
    requires
        0 <= cursor,
        0 <= width,
    ensures
        window_len(story, cursor, width) <= 2 * (width / 3) + 1,
        width >= 1 ==> window_len(story, cursor, width) <= width,
        cursor + 1 + suffix_budget(cursor, width) <= story.len() ==> window_len(story, cursor, width)
            == 2 * (width / 3) + 1,
        cursor + 1 + suffix_budget(cursor, width) <= story.len() && (width == 1 || width == 3)
            ==> window_len(story, cursor, width) == width,
        cursor <= width / 3 ==> suffix_budget(cursor, width) == 2 * (width / 3) - cursor,
        cursor <= width / 3 && cursor <= story.len() ==> window_prefix(story, cursor, width).len()
            == cursor,
        cursor <= width / 3 && 2 * (width / 3) + 1 <= story.len() ==> window_suffix(story, cursor, width).len()
            == 2 * (width / 3) - cursor,
{
}

} // verus!

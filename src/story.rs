use vstd::prelude::*;

verus! {

/// The glyph that stands for a line break in a story.
pub const RETURN_GLYPH: char = '\u{21A9}';

/// How one character of a raw story reads once loaded: line breaks become the
/// return glyph, the em dash and curly quotes fold to their ASCII forms.
pub open spec fn normalize_char(c: char) -> char {
    if c == '\n' {
        RETURN_GLYPH
    } else if c == '\u{2014}' {
        '-'
    } else if c == '\u{2019}' {
        '\''
    } else if c == '\u{201C}' || c == '\u{201D}' {
        '"'
    } else {
        c
    }
}

pub open spec fn normalize_spec(raw: Seq<char>) -> Seq<char> {
    raw.map_values(|c: char| normalize_char(c))
}

/// The story text as the tutor reads it.
pub fn normalize(raw: &Vec<char>) -> (r: Vec<char>)
    ensures
        r@ == normalize_spec(raw@),
{
    let mut out: Vec<char> = Vec::new();
    let mut i: usize = 0;
    while i < raw.len()
        invariant
            0 <= i <= raw.len(),
            out@ == normalize_spec(raw@.subrange(0, i as int)),
        decreases raw.len() - i,
    {
        let c = raw[i];
        let n = if c == '\n' {
            RETURN_GLYPH
        } else if c == '\u{2014}' {
            '-'
        } else if c == '\u{2019}' {
            '\''
        } else if c == '\u{201C}' || c == '\u{201D}' {
            '"'
        } else {
            c
        };
        out.push(n);
        proof {
            assert(raw@.subrange(0, i + 1) == raw@.subrange(0, i as int).push(c));
        }
        i = i + 1;
    }
    proof {
        assert(raw@.subrange(0, raw@.len() as int) == raw@);
    }
    out
}

/// How far the reader has typed: the number of characters typed correctly.
#[derive(Clone, Copy, Debug, PartialEq, Eq, Structural)]
pub struct Progress {
    pub chars: usize,
}

impl Default for Progress {
    fn default() -> (r: Progress)
        ensures
            r.chars == 0,
    {
        Progress { chars: 0 }
    }
}

/// The character expected at cursor `k`, none at or past the end.
pub open spec fn next_spec(story: Seq<char>, k: int) -> Option<char> {
    if 0 <= k < story.len() {
        Some(story[k])
    } else {
        None
    }
}

impl Progress {
    /// The character that the reader must type next.
    pub fn next(&self, story: &Vec<char>) -> (r: Option<char>)
        ensures
            r == next_spec(story@, self.chars as int),
    {
        if self.chars < story.len() {
            Some(story[self.chars])
        } else {
            None
        }
    }

    /// Counts one more character as typed; only while one is left to type.
    pub fn advance(&mut self, story: &Vec<char>)
        requires
            old(self).chars < story@.len(),
        ensures
            final(self).chars == old(self).chars + 1,
    {
        if self.chars < story.len() {
            self.chars = self.chars + 1;
        }
    }
}

/// The story of one session and the reader's progress through it.
pub struct FileData {
    pub progress_path: String,
    pub progress: Progress,
    pub story: Vec<char>,
}

impl FileData {
    /// Builds the session from what was read: the raw story text, the path of
    /// its progress record, and the progress stored there.
    pub fn load(raw_story: &Vec<char>, progress_path: String, progress: Progress) -> (r: FileData)
        ensures
            r.story@ == normalize_spec(raw_story@),
            r.progress == progress,
            r.progress_path@ == progress_path@,
    {
        FileData { progress_path, progress, story: normalize(raw_story) }
    }

    /// What is to be written back: the record's path and the progress.
    pub fn save(&self) -> (r: (String, Progress))
        ensures
            r.0@ == self.progress_path@,
            r.1 == self.progress,
    {
        (self.progress_path.clone(), self.progress)
    }
}

} // verus!

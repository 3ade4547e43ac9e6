use vstd::prelude::*;
use crate::keyboard::{Keyboard, KeyboardView};
use crate::layout::{Layout, LayoutKind, Location, builtin};
use crate::story::{FileData, RETURN_GLYPH, next_spec};
use crate::window::{StoryWindow, window, window_current, window_prefix, window_suffix};

verus! {

/// A key press, as far as the tutor tells presses apart.
#[derive(Clone, Copy, Debug, PartialEq, Eq, Structural)]
pub enum KeyInput {
    Esc,
    Char { c: char, control: bool },
    Enter,
    Tab,
    Other,
}

/// Control-n: switch to the next layout.
pub open spec fn is_layout_hotkey(input: KeyInput) -> bool {
    input == (KeyInput::Char { c: 'n', control: true })
}

/// Control-h: show or hide the keyboard.
pub open spec fn is_draw_hotkey(input: KeyInput) -> bool {
    input == (KeyInput::Char { c: 'h', control: true })
}

/// The press counts as typing the expected character: the character itself,
/// Enter for the return glyph, or Tab, which skips any character.
pub open spec fn advances(story: Seq<char>, k: int, input: KeyInput) -> bool {
    match input {
        KeyInput::Char { c, control } => !is_layout_hotkey(input) && !is_draw_hotkey(input)
            && next_spec(story, k) == Some(c),
        KeyInput::Enter => next_spec(story, k) == Some(RETURN_GLYPH),
        KeyInput::Tab => 0 <= k < story.len(),
        _ => false,
    }
}

/// The cursor after one press.
pub open spec fn cursor_step(story: Seq<char>, k: int, input: KeyInput) -> int {
    if advances(story, k, input) { k + 1 } else { k }
}

/// The cursor after a run of presses.
pub open spec fn cursor_run(story: Seq<char>, k: int, inputs: Seq<KeyInput>) -> int
    decreases inputs.len(),
{
    if inputs.len() == 0 {
        k
    } else {
        cursor_run(story, cursor_step(story, k, inputs[0]), inputs.drop_first())
    }
}

/// The press that types `c`.
pub open spec fn press_for(c: char) -> KeyInput {
    if c == RETURN_GLYPH { KeyInput::Enter } else { KeyInput::Char { c, control: false } }
}

/// Typing the next `n` characters of the story, each with its own press,
/// moves the cursor from `k` to `k + n`; at the end of the story no press
/// moves it.
pub proof fn lemma_typing_in_order(story: Seq<char>, k: int, n: int)
    requires
        0 <= k,
        0 <= n,
        k + n <= story.len(),
    ensures
        cursor_run(story, k, Seq::new(n as nat, |i: int| press_for(story[k + i]))) == k + n,
        forall|input: KeyInput| #[trigger] cursor_step(story, story.len() as int, input) == story.len(),
    decreases n,
{
    let inputs = Seq::new(n as nat, |i: int| press_for(story[k + i]));
    if n > 0 {
        assert(cursor_step(story, k, inputs[0]) == k + 1);
        lemma_typing_in_order(story, k + 1, n - 1);
        assert(inputs.drop_first() == Seq::new((n - 1) as nat, |i: int| press_for(story[k + 1 + i])));
    }
}

pub struct AppView {
    pub keyboard: KeyboardView,
    pub story: Seq<char>,
    pub chars: int,
    pub progress_path: Seq<char>,
    pub exit: bool,
}

/// One typing session: the keyboard, the story and progress, and whether
/// the session is ending.
pub struct App {
    keyboard: Keyboard,
    file_data: FileData,
    exit: bool,
}

impl View for App {
    type V = AppView;

    closed spec fn view(&self) -> AppView {
        AppView {
            keyboard: self.keyboard@,
            story: self.file_data.story@,
            chars: self.file_data.progress.chars as int,
            progress_path: self.file_data.progress_path@,
            exit: self.exit,
        }
    }
}

impl App {
    pub closed spec fn wf(&self) -> bool {
        self.keyboard@.wf()
    }

    /// A session over the loaded story, on the QWERTY layout, nothing hinted.
    pub fn load(file_data: FileData) -> (r: App)
        ensures
            r.wf(),
            r@.keyboard.layout == builtin(LayoutKind::Qwerty),
            r@.keyboard.draw,
            r@.keyboard.themed(None),
            r@.story == file_data.story@,
            r@.chars == file_data.progress.chars,
            r@.progress_path == file_data.progress_path@,
            !r@.exit,
    {
        App { keyboard: Keyboard::from_layout(Layout::qwerty()), file_data, exit: false }
    }

    /// The character the reader must type next; none once the story is done.
    pub fn next(&self) -> (r: Option<char>)
        ensures
            r == next_spec(self@.story, self@.chars),
    {
        self.file_data.progress.next(&self.file_data.story)
    }

    /// Marks the session as ending.
    pub fn exit(&mut self)
        ensures
            final(self)@ == (AppView { exit: true, ..old(self)@ }),
            final(self).wf() == old(self).wf(),
    {
        self.exit = true;
    }

    pub fn is_exiting(&self) -> (r: bool)
        ensures
            r == self@.exit,
    {
        self.exit
    }

    pub fn keyboard(&self) -> (r: &Keyboard)
        ensures
            r@ == self@.keyboard,
    {
        &self.keyboard
    }

    pub fn file_data(&self) -> (r: &FileData)
        ensures
            r.story@ == self@.story,
            r.progress.chars == self@.chars,
            r.progress_path@ == self@.progress_path,
    {
        &self.file_data
    }

    /// Brings the keyboard's hints up to date with the expected character,
    /// when the keyboard is shown: exactly the key and modifier that produce
    /// it are hinted, and nothing once the story is done.
    pub fn update_hints(&mut self)
        requires
            old(self).wf(),
        ensures
            final(self).wf(),
            final(self)@.story == old(self)@.story,
            final(self)@.chars == old(self)@.chars,
            final(self)@.progress_path == old(self)@.progress_path,
            final(self)@.exit == old(self)@.exit,
            final(self)@.keyboard.layout == old(self)@.keyboard.layout,
            final(self)@.keyboard.draw == old(self)@.keyboard.draw,
            !old(self)@.keyboard.draw ==> final(self)@.keyboard == old(self)@.keyboard,
            old(self)@.keyboard.draw ==> final(self)@.keyboard.themed(
                match next_spec(old(self)@.story, old(self)@.chars) {
                    Some(c) => old(self)@.keyboard.layout.locate(c),
                    None => None::<Location>,
                },
            ),
    {
        if self.keyboard.draw() {
            match self.next() {
                Some(c) => self.keyboard.update(c),
                None => self.keyboard.clear_hints(),
            }
        }
    }

    /// The story text around the cursor, for a line of `width` cells.
    pub fn story_window(&self, width: usize) -> (r: StoryWindow)
        ensures
            r.prefix@ == window_prefix(self@.story, self@.chars, width as int),
            r.current@ == window_current(self@.story, self@.chars),
            r.suffix@ == window_suffix(self@.story, self@.chars, width as int),
    {
        window(&self.file_data.story, self.file_data.progress.chars, width)
    }

    /// Acts on one key press: Escape ends the session, control-n switches
    /// layout, control-h shows or hides the keyboard, and a press that types
    /// the expected character moves the cursor on by one.
    pub fn handle_key_event(&mut self, input: KeyInput)
        requires
            old(self).wf(),
        ensures
            final(self).wf(),
            final(self)@.story == old(self)@.story,
            final(self)@.progress_path == old(self)@.progress_path,
            final(self)@.exit == (old(self)@.exit || input == KeyInput::Esc),
            final(self)@.chars == cursor_step(old(self)@.story, old(self)@.chars, input),
            is_layout_hotkey(input) ==> {
                &&& final(self)@.keyboard.layout == builtin(old(self)@.keyboard.layout.kind.next_spec())
                &&& final(self)@.keyboard.draw
                &&& final(self)@.keyboard.themed(None)
            },
            is_draw_hotkey(input) ==> final(self)@.keyboard == (KeyboardView {
                draw: !old(self)@.keyboard.draw,
                ..old(self)@.keyboard
            }),
            !is_layout_hotkey(input) && !is_draw_hotkey(input) ==> final(self)@.keyboard
                == old(self)@.keyboard,
    {
        match input {
            KeyInput::Esc => self.exit(),
            KeyInput::Char { c: 'n', control: true } => self.keyboard.next_layout(),
            KeyInput::Char { c: 'h', control: true } => self.keyboard.toggle_draw(),
            KeyInput::Char { c, control: _ } => {
                if self.next() == Some(c) {
                    self.file_data.progress.advance(&self.file_data.story);
                }
            },
            KeyInput::Enter => {
                if self.next() == Some(RETURN_GLYPH) {
                    self.file_data.progress.advance(&self.file_data.story);
                }
            },
            KeyInput::Tab => {
                if self.next().is_some() {
                    self.file_data.progress.advance(&self.file_data.story);
                }
            },
            KeyInput::Other => {},
        }
    }
}

} // verus!

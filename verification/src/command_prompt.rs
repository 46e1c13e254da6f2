use vstd::prelude::*;
use crate::lexing::{chars_to_string, push_char, slice_chars, str_chars};

verus! {

/// The text state of the command line: what has been typed, whether the cursor is shown,
/// and the last message given back to the player.
pub struct CommandPrompt {
    pub input: String,
    pub show_cursor: bool,
    pub message: String,
}

/// The line shown for `input`: a slash, the input, and an underscore for a visible cursor.
pub open spec fn display_text(input: Seq<char>, show_cursor: bool) -> Seq<char> {
    if show_cursor {
        "/"@ + input + "_"@
    } else {
        "/"@ + input
    }
}

/// `input` with its last character removed, if it has one.
pub open spec fn erase_last(input: Seq<char>) -> Seq<char> {
    if input.len() > 0 {
        input.drop_last()
    } else {
        input
    }
}

/// Erasing right after typing a character gives back what was typed before, and the line
/// shown always begins with the slash.
pub proof fn law_backspace_undoes_typing(input: Seq<char>, c: char, show_cursor: bool)
    ensures
        erase_last(input.push(c)) == input,
        display_text(input, show_cursor).len() > 0,
        display_text(input, show_cursor)[0] == '/',
{
    assert(input.push(c).drop_last() =~= input);
    reveal_strlit("/");
    reveal_strlit("_");
}

impl CommandPrompt {
    /// An empty prompt with the cursor shown and no message.
    pub fn new() -> (r: CommandPrompt)
        ensures
            r.input@ == Seq::<char>::empty(),
            r.show_cursor,
            r.message@ == Seq::<char>::empty(),
    {
        CommandPrompt { input: String::new(), show_cursor: true, message: String::new() }
    }

    /// Types one character.
    pub fn add_char(&mut self, c: char)
        ensures
            final(self).input@ == old(self).input@.push(c),
            final(self).show_cursor == old(self).show_cursor,
            final(self).message@ == old(self).message@,
    {
        push_char(&mut self.input, c);
    }

    /// Erases the last character typed, if any.
    pub fn backspace(&mut self)
        ensures
            final(self).input@ == erase_last(old(self).input@),
            final(self).show_cursor == old(self).show_cursor,
            final(self).message@ == old(self).message@,
    {
        let chars = str_chars(self.input.as_str());
        if chars.len() > 0 {
            let kept = slice_chars(&chars, 0, chars.len() - 1);
            assert(kept@ =~= chars@.drop_last());
            self.input = chars_to_string(&kept);
        }
    }

    /// Erases everything typed.
    pub fn clear(&mut self)
        ensures
            final(self).input@ == Seq::<char>::empty(),
            final(self).show_cursor == old(self).show_cursor,
            final(self).message@ == old(self).message@,
    {
        self.input = String::new();
    }

    /// The line to draw: `/`, the input, and `_` while the cursor is shown.
    pub fn get_display_text(&self) -> (r: String)
        ensures
            r@ == display_text(self.input@, self.show_cursor),
    {
        let text = String::from_str("/").concat(self.input.as_str());
        if self.show_cursor {
            text.concat("_")
        } else {
            text
        }
    }

    /// Shows a hidden cursor and hides a shown one.
    pub fn blink(&mut self)
        ensures
            final(self).show_cursor == !old(self).show_cursor,
            final(self).input@ == old(self).input@,
            final(self).message@ == old(self).message@,
    {
        self.show_cursor = !self.show_cursor;
    }

    /// Empties the input and shows the cursor.
    pub fn reset(&mut self)
        ensures
            final(self).input@ == Seq::<char>::empty(),
            final(self).show_cursor,
            final(self).message@ == old(self).message@,
    {
        self.input = String::new();
        self.show_cursor = true;
    }

    /// Opening or closing the prompt starts it afresh.
    pub fn toggle(&mut self)
        ensures
            final(self).input@ == Seq::<char>::empty(),
            final(self).show_cursor,
            final(self).message@ == old(self).message@,
    {
        self.reset();
    }

    /// Replaces the message shown to the player.
    pub fn set_message(&mut self, msg: String)
        ensures
            final(self).message@ == msg@,
            final(self).input@ == old(self).input@,
            final(self).show_cursor == old(self).show_cursor,
    {
        self.message = msg;
    }
}

} // verus!

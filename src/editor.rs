use vstd::prelude::*;

use crate::buffer::{AppData, EditState, Nibble};

verus! {

/// One of the two panes that show the buffer.
#[derive(PartialEq, Eq, Structural, Clone, Copy, Debug)]
pub enum Window {
    Ascii,
    Hex,
}

/// The pane that owns the cursor; it decides what each command means.
#[derive(PartialEq, Eq, Structural, Clone, Copy, Debug)]
pub enum Editor {
    Ascii,
    Hex,
}

/// What the host has to do after a command.
#[derive(Debug)]
pub enum Effect {
    /// Neither the cursor nor the bytes moved.
    Nothing,
    /// The offset or the bytes changed: refresh the status text from the
    /// bytes at the new offset and scroll the view to the cursor.
    Sync,
    /// The input was refused; show this message.
    Warning(String),
}

/// One editing command, as the host dispatches it.
pub enum Command {
    Left,
    Right,
    Up,
    Down,
    Home,
    End,
    Backspace,
    Delete,
    Char(char),
    Enter,
}

/// The value of a hexadecimal digit (`0-9`, `a-f`, `A-F`), if `c` is one.
pub open spec fn hex_digit_value(c: char) -> Option<u8> {
    if '0' <= c && c <= '9' {
        Some((c as u32 - '0' as u32) as u8)
    } else if 'a' <= c && c <= 'f' {
        Some((c as u32 - 'a' as u32 + 10) as u8)
    } else if 'A' <= c && c <= 'F' {
        Some((c as u32 - 'A' as u32 + 10) as u8)
    } else {
        None
    }
}

/// `b` with the half named by `nibble` replaced by `digit`.
pub open spec fn with_nibble(b: u8, nibble: Nibble, digit: u8) -> u8 {
    match nibble {
        Nibble::Beginning => (digit * 16 + b % 16) as u8,
        Nibble::End => (b / 16 * 16 + digit) as u8,
    }
}

/// One step back, floored at 0.
pub open spec fn step_back(offset: int) -> int {
    if offset > 0 {
        offset - 1
    } else {
        0
    }
}

/// One step forward, capped at the last index `len - 1`.
pub open spec fn step_forward(offset: int, len: int) -> int {
    if offset + 1 < len {
        offset + 1
    } else {
        len - 1
    }
}

/// The text shown when `c` is typed in the hex pane and is no digit.
pub open spec fn invalid_hex_text(c: char) -> Seq<char> {
    "Invalid Hex: "@.push(c)
}

/// The effect owed for a command that took `before` to `after` and refused
/// nothing: a sync exactly when the offset or the bytes changed.
pub open spec fn sync_for(before: EditState, after: EditState) -> Effect {
    if before.offset != after.offset || before.contents != after.contents {
        Effect::Sync
    } else {
        Effect::Nothing
    }
}

/// Relies on `char`'s `ToString`: the string of that one character.
#[verifier::external_body]
fn char_to_string(c: char) -> (r: String)
    ensures
        r@ == seq![c],
{
    c.to_string()
}

fn hex_digit(c: char) -> (r: Option<u8>)
    ensures
        r == hex_digit_value(c),
        r matches Some(d) ==> d < 16,
{
    if '0' <= c && c <= '9' {
        Some((c as u32 - '0' as u32) as u8)
    } else if 'a' <= c && c <= 'f' {
        Some((c as u32 - 'a' as u32 + 10) as u8)
    } else if 'A' <= c && c <= 'F' {
        Some((c as u32 - 'A' as u32 + 10) as u8)
    } else {
        None
    }
}

fn invalid_hex_message(c: char) -> (r: String)
    ensures
        r@ == invalid_hex_text(c),
{
    let mut msg = String::from_str("Invalid Hex: ");
    let tail = char_to_string(c);
    msg.append(tail.as_str());
    proof {
        assert(seq![c] == Seq::<char>::empty().push(c));
        assert(msg@ =~= "Invalid Hex: "@.push(c));
    }
    msg
}

impl Editor {
    /// The pane this editor stands for.
    pub open spec fn pane(self) -> Window {
        match self {
            Editor::Ascii => Window::Ascii,
            Editor::Hex => Window::Hex,
        }
    }

    /// The state after Left.
    pub open spec fn after_left(self, s: EditState) -> EditState {
        match self {
            Editor::Ascii => EditState { offset: step_back(s.offset), ..s },
            Editor::Hex => EditState {
                offset: if s.nibble == Nibble::Beginning {
                    step_back(s.offset)
                } else {
                    s.offset
                },
                nibble: s.nibble.toggled(),
                ..s
            },
        }
    }

    /// The state after Right.
    pub open spec fn after_right(self, s: EditState) -> EditState {
        match self {
            Editor::Ascii => EditState {
                offset: step_forward(s.offset, s.contents.len() as int),
                ..s
            },
            Editor::Hex => EditState {
                offset: if s.nibble == Nibble::End {
                    step_forward(s.offset, s.contents.len() as int)
                } else {
                    s.offset
                },
                nibble: s.nibble.toggled(),
                ..s
            },
        }
    }

    /// The state after Up, with `width` bytes to a row.
    pub open spec fn after_up(self, s: EditState, width: int) -> EditState {
        if s.offset >= width {
            EditState { offset: s.offset - width, ..s }
        } else {
            s
        }
    }

    /// The state after Down, with `width` bytes to a row.
    pub open spec fn after_down(self, s: EditState, width: int) -> EditState {
        if s.offset + width < s.contents.len() {
            EditState { offset: s.offset + width, ..s }
        } else {
            s
        }
    }

    /// The state after Home, with `width` bytes to a row.
    pub open spec fn after_home(self, s: EditState, width: int) -> EditState {
        EditState {
            offset: s.offset / width * width,
            nibble: if self == Editor::Hex {
                Nibble::Beginning
            } else {
                s.nibble
            },
            ..s
        }
    }

    /// The state after End, with `width` bytes to a row.
    pub open spec fn after_end(self, s: EditState, width: int) -> EditState {
        let row_end = s.offset + (width - 1 - s.offset % width);
        EditState {
            offset: if row_end < s.contents.len() - 1 {
                row_end
            } else {
                s.contents.len() - 1
            },
            nibble: if self == Editor::Hex {
                Nibble::End
            } else {
                s.nibble
            },
            ..s
        }
    }

    /// The state after Backspace.
    pub open spec fn after_backspace(self, s: EditState) -> EditState {
        if s.offset > 0 {
            EditState { contents: s.contents.remove(s.offset - 1), offset: s.offset - 1, ..s }
        } else {
            s
        }
    }

    /// The state after Delete; the cursor is pulled back onto the new last
    /// byte where the removed byte was the last.
    pub open spec fn after_delete(self, s: EditState) -> EditState {
        if s.contents.len() > 1 {
            EditState {
                contents: s.contents.remove(s.offset),
                offset: if s.offset < s.contents.len() - 1 {
                    s.offset
                } else {
                    s.contents.len() - 2
                },
                ..s
            }
        } else {
            s
        }
    }

    /// The state after typing `c`.
    pub open spec fn after_char(self, s: EditState, c: char) -> EditState {
        match self {
            Editor::Ascii => EditState {
                contents: s.contents.update(s.offset, c as u8),
                offset: step_forward(s.offset, s.contents.len() as int),
                ..s
            },
            Editor::Hex => match hex_digit_value(c) {
                Some(d) => EditState {
                    contents: s.contents.update(
                        s.offset,
                        with_nibble(s.contents[s.offset], s.nibble, d),
                    ),
                    offset: if s.nibble == Nibble::End {
                        step_forward(s.offset, s.contents.len() as int)
                    } else {
                        s.offset
                    },
                    nibble: s.nibble.toggled(),
                },
                None => s,
            },
        }
    }

    /// The state after `cmd`, with `width` bytes to a row.
    pub open spec fn step(self, s: EditState, cmd: Command, width: int) -> EditState {
        match cmd {
            Command::Left => self.after_left(s),
            Command::Right => self.after_right(s),
            Command::Up => self.after_up(s, width),
            Command::Down => self.after_down(s, width),
            Command::Home => self.after_home(s, width),
            Command::End => self.after_end(s, width),
            Command::Backspace => self.after_backspace(s),
            Command::Delete => self.after_delete(s),
            Command::Char(c) => self.after_char(s, c),
            Command::Enter => s,
        }
    }

    /// The state after each of `cmds` in turn.
    pub open spec fn run(self, s: EditState, cmds: Seq<Command>, width: int) -> EditState
        decreases cmds.len(),
    {
        if cmds.len() == 0 {
            s
        } else {
            self.run(self.step(s, cmds[0], width), cmds.drop_first(), width)
        }
    }

    /// Whether this editor owns the cursor when `window` is focused.
    pub fn is_focusing(&self, window: Window) -> (r: bool)
        ensures
            r == (self.pane() == window),
    {
        match self {
            Editor::Ascii => window == Window::Ascii,
            Editor::Hex => window == Window::Hex,
        }
    }

    /// Moves the cursor one byte back (in the hex pane: one half back).
    pub fn left(&self, app: &mut AppData) -> (r: Effect)
        requires
            old(app).wf(),
        ensures
            final(app).wf(),
            final(app)@ == self.after_left(old(app)@),
            r == sync_for(old(app)@, final(app)@),
    {
        match self {
            Editor::Ascii => {
                if app.offset > 0 {
                    app.offset = app.offset - 1;
                    Effect::Sync
                } else {
                    Effect::Nothing
                }
            },
            Editor::Hex => {
                let moved = app.nibble == Nibble::Beginning && app.offset > 0;
                if moved {
                    app.offset = app.offset - 1;
                }
                app.nibble.toggle();
                if moved {
                    Effect::Sync
                } else {
                    Effect::Nothing
                }
            },
        }
    }

    /// Moves the cursor one byte forward (in the hex pane: one half
    /// forward), never past the last byte.
    pub fn right(&self, app: &mut AppData) -> (r: Effect)
        requires
            old(app).wf(),
        ensures
            final(app).wf(),
            final(app)@ == self.after_right(old(app)@),
            r == sync_for(old(app)@, final(app)@),
    {
        let can_move = app.offset < app.contents.len() - 1;
        match self {
            Editor::Ascii => {
                if can_move {
                    app.offset = app.offset + 1;
                    Effect::Sync
                } else {
                    Effect::Nothing
                }
            },
            Editor::Hex => {
                let moved = app.nibble == Nibble::End && can_move;
                if moved {
                    app.offset = app.offset + 1;
                }
                app.nibble.toggle();
                if moved {
                    Effect::Sync
                } else {
                    Effect::Nothing
                }
            },
        }
    }

    /// Moves the cursor one row up; does nothing on the first row.
    pub fn up(&self, app: &mut AppData, bytes_per_line: usize) -> (r: Effect)
        requires
            old(app).wf(),
        ensures
            final(app).wf(),
            final(app)@ == self.after_up(old(app)@, bytes_per_line as int),
            r == sync_for(old(app)@, final(app)@),
    {
        if app.offset >= bytes_per_line && bytes_per_line > 0 {
            app.offset = app.offset - bytes_per_line;
            Effect::Sync
        } else {
            Effect::Nothing
        }
    }

    /// Moves the cursor one row down; does nothing where that row would
    /// leave the buffer.
    pub fn down(&self, app: &mut AppData, bytes_per_line: usize) -> (r: Effect)
        requires
            old(app).wf(),
        ensures
            final(app).wf(),
            final(app)@ == self.after_down(old(app)@, bytes_per_line as int),
            r == sync_for(old(app)@, final(app)@),
    {
        if bytes_per_line > 0 && bytes_per_line < app.contents.len() - app.offset {
            app.offset = app.offset + bytes_per_line;
            Effect::Sync
        } else {
            Effect::Nothing
        }
    }

    /// Moves the cursor to the first byte of its row; in the hex pane, to
    /// the high half of it.
    pub fn home(&self, app: &mut AppData, bytes_per_line: usize) -> (r: Effect)
        requires
            old(app).wf(),
            bytes_per_line > 0,
        ensures
            final(app).wf(),
            final(app)@ == self.after_home(old(app)@, bytes_per_line as int),
            r == sync_for(old(app)@, final(app)@),
    {
        proof {
            let (o, w) = (app.offset as int, bytes_per_line as int);
            assert(o % w <= o) by (nonlinear_arith)
                requires
                    w > 0,
                    o >= 0,
            ;
        }
        let start = app.offset - app.offset % bytes_per_line;
        proof {
            let (o, w) = (app.offset as int, bytes_per_line as int);
            assert(o - o % w == o / w * w) by (nonlinear_arith)
                requires
                    w > 0,
                    o >= 0,
            ;
        }
        let moved = start != app.offset;
        app.offset = start;
        if self.is_focusing(Window::Hex) {
            app.nibble = Nibble::Beginning;
        }
        if moved {
            Effect::Sync
        } else {
            Effect::Nothing
        }
    }

    /// Moves the cursor to the last byte of its row, never past the last
    /// byte of the buffer; in the hex pane, to the low half of it.
    pub fn end(&self, app: &mut AppData, bytes_per_line: usize) -> (r: Effect)
        requires
            old(app).wf(),
            bytes_per_line > 0,
        ensures
            final(app).wf(),
            final(app)@ == self.after_end(old(app)@, bytes_per_line as int),
            r == sync_for(old(app)@, final(app)@),
    {
        let to_row_end = bytes_per_line - 1 - app.offset % bytes_per_line;
        let last = app.contents.len() - 1;
        let target = if to_row_end < last - app.offset {
            app.offset + to_row_end
        } else {
            last
        };
        let moved = target != app.offset;
        app.offset = target;
        if self.is_focusing(Window::Hex) {
            app.nibble = Nibble::End;
        }
        if moved {
            Effect::Sync
        } else {
            Effect::Nothing
        }
    }

    /// Removes the byte before the cursor and steps back onto the byte that
    /// was under it; does nothing on the first byte.
    pub fn backspace(&self, app: &mut AppData) -> (r: Effect)
        requires
            old(app).wf(),
        ensures
            final(app).wf(),
            final(app)@ == self.after_backspace(old(app)@),
            r == sync_for(old(app)@, final(app)@),
            old(app).offset == 0 ==> final(app)@ == old(app)@ && r == Effect::Nothing,
    {
        if app.offset > 0 {
            app.contents.remove(app.offset - 1);
            app.offset = app.offset - 1;
            Effect::Sync
        } else {
            Effect::Nothing
        }
    }

    /// Removes the byte under the cursor, keeping the cursor on the last
    /// byte where it was there; refuses to remove the only byte.
    pub fn delete(&self, app: &mut AppData) -> (r: Effect)
        requires
            old(app).wf(),
        ensures
            final(app).wf(),
            final(app)@ == self.after_delete(old(app)@),
            r == sync_for(old(app)@, final(app)@),
            old(app).contents@.len() == 1 ==> final(app)@ == old(app)@ && r == Effect::Nothing,
    {
        if app.contents.len() > 1 {
            app.contents.remove(app.offset);
            if app.offset >= app.contents.len() {
                app.offset = app.contents.len() - 1;
            }
            Effect::Sync
        } else {
            Effect::Nothing
        }
    }

    /// Types `c`: in the ASCII pane it overwrites the byte under the cursor
    /// and moves on; in the hex pane it fills one half of that byte, moving
    /// on after the low half, or is refused with a warning if it is no hex
    /// digit.
    pub fn char(&self, app: &mut AppData, c: char) -> (r: Effect)
        requires
            old(app).wf(),
        ensures
            final(app).wf(),
            final(app)@ == self.after_char(old(app)@, c),
            *self == Editor::Hex && hex_digit_value(c) is None ==> (r matches Effect::Warning(m)
                && m@ == invalid_hex_text(c)),
            !(*self == Editor::Hex && hex_digit_value(c) is None) ==> r == sync_for(
                old(app)@,
                final(app)@,
            ),
    {
        let i = app.offset;
        let old_byte = app.contents[i];
        let new_byte: u8;
        let moved: bool;
        match self {
            Editor::Ascii => {
                new_byte = c as u8;
                moved = i < app.contents.len() - 1;
            },
            Editor::Hex => {
                match hex_digit(c) {
                    Some(d) => {
                        new_byte = match app.nibble {
                            Nibble::Beginning => d * 16 + old_byte % 16,
                            Nibble::End => old_byte / 16 * 16 + d,
                        };
                        moved = app.nibble == Nibble::End && i < app.contents.len() - 1;
                        app.nibble.toggle();
                    },
                    None => {
                        return Effect::Warning(invalid_hex_message(c));
                    },
                }
            },
        }
        app.contents.set(i, new_byte);
        if moved {
            app.offset = i + 1;
        }
        if new_byte == old_byte {
            assert(app.contents@ =~= old(app).contents@);
        } else {
            assert(app.contents@[i as int] != old(app).contents@[i as int]);
        }
        if moved || new_byte != old_byte {
            Effect::Sync
        } else {
            Effect::Nothing
        }
    }

    /// Does nothing: Enter belongs to other parts of the editor.
    pub fn enter(&self, app: &mut AppData) -> (r: Effect)
        requires
            old(app).wf(),
        ensures
            *final(app) == *old(app),
            r == Effect::Nothing,
    {
        Effect::Nothing
    }
}

/// Every command leaves a non-empty buffer non-empty and the cursor on one
/// of its bytes.
pub proof fn lemma_step_keeps_cursor_in_buffer(
    editor: Editor,
    s: EditState,
    cmd: Command,
    width: int,
)
    requires
        s.wf(),
        width > 0,
    ensures
        editor.step(s, cmd, width).wf(),
{
    let (o, w) = (s.offset, width);
    assert(0 <= o / w * w <= o) by (nonlinear_arith)
        requires
            w > 0,
            o >= 0,
    ;
    assert(0 <= o % w < w) by (nonlinear_arith)
        requires
            w > 0,
            o >= 0,
    ;
}

/// However many commands run, in whatever order, a non-empty buffer stays
/// non-empty and the cursor stays on one of its bytes.
pub proof fn lemma_run_keeps_cursor_in_buffer(
    editor: Editor,
    s: EditState,
    cmds: Seq<Command>,
    width: int,
)
    requires
        s.wf(),
        width > 0,
    ensures
        editor.run(s, cmds, width).wf(),
    decreases cmds.len(),
{
    if cmds.len() > 0 {
        lemma_step_keeps_cursor_in_buffer(editor, s, cmds[0], width);
        let next = editor.step(s, cmds[0], width);
        lemma_run_keeps_cursor_in_buffer(editor, next, cmds.drop_first(), width);
    }
}

/// In the hex pane, Right then Left returns to the same byte and half,
/// unless Right was held at the low half of the last byte.
pub proof fn lemma_hex_right_then_left(s: EditState)
    requires
        s.wf(),
        s.nibble == Nibble::Beginning || s.offset < s.contents.len() - 1,
    ensures
        Editor::Hex.after_left(Editor::Hex.after_right(s)) == s,
{
}

/// In the hex pane, Left then Right returns to the same byte and half,
/// unless Left was held at the high half of the first byte.
pub proof fn lemma_hex_left_then_right(s: EditState)
    requires
        s.wf(),
        s.nibble == Nibble::End || s.offset > 0,
    ensures
        Editor::Hex.after_right(Editor::Hex.after_left(s)) == s,
{
}

/// In the hex pane, two hex digits typed at the high half of a byte make
/// that byte `16 * first + second`, leave the cursor on the next byte
/// (or on the last one) and end at the high half again.
pub proof fn lemma_two_hex_digits_make_a_byte(s: EditState, hi: char, lo: char)
    requires
        s.wf(),
        s.nibble == Nibble::Beginning,
        hex_digit_value(hi) is Some,
        hex_digit_value(lo) is Some,
    ensures
        ({
            let t = Editor::Hex.after_char(Editor::Hex.after_char(s, hi), lo);
            &&& t.contents == s.contents.update(
                s.offset,
                (16 * hex_digit_value(hi)->0 + hex_digit_value(lo)->0) as u8,
            )
            &&& t.offset == step_forward(s.offset, s.contents.len() as int)
            &&& t.nibble == Nibble::Beginning
        }),
{
    let d = hex_digit_value(hi)->0;
    let e = hex_digit_value(lo)->0;
    let b = s.contents[s.offset];
    let first = with_nibble(b, Nibble::Beginning, d);
    assert(d < 16 && e < 16);
    assert(first == d * 16 + b % 16);
    assert(first / 16 == d && first % 16 == b % 16);
    let t = Editor::Hex.after_char(Editor::Hex.after_char(s, hi), lo);
    assert(t.contents =~= s.contents.update(s.offset, (16 * d + e) as u8));
}

} // verus!

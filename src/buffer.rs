use vstd::prelude::*;

verus! {

/// Which half of the byte under the cursor a hex digit goes into.
#[derive(PartialEq, Eq, Structural, Clone, Copy, Debug)]
pub enum Nibble {
    /// The high half (first digit).
    Beginning,
    /// The low half (second digit).
    End,
}

impl Nibble {
    /// The other half.
    pub open spec fn toggled(self) -> Nibble {
        match self {
            Nibble::Beginning => Nibble::End,
            Nibble::End => Nibble::Beginning,
        }
    }

    /// Switches to the other half.
    pub fn toggle(&mut self)
        ensures
            *final(self) == old(self).toggled(),
    {
        *self = match *self {
            Nibble::Beginning => Nibble::End,
            Nibble::End => Nibble::Beginning,
        };
    }
}

/// The abstract state of an editing session: the bytes, the index under the
/// cursor and the half of that byte that hex input goes into.
pub struct EditState {
    pub contents: Seq<u8>,
    pub offset: int,
    pub nibble: Nibble,
}

impl EditState {
    /// The buffer is never empty and the cursor is on one of its bytes.
    pub open spec fn wf(self) -> bool {
        &&& self.contents.len() >= 1
        &&& 0 <= self.offset < self.contents.len()
    }
}

/// The bytes being edited and the cursor into them.
pub struct AppData {
    pub contents: Vec<u8>,
    pub offset: usize,
    pub nibble: Nibble,
}

impl View for AppData {
    type V = EditState;

    open spec fn view(&self) -> EditState {
        EditState { contents: self.contents@, offset: self.offset as int, nibble: self.nibble }
    }
}

impl AppData {
    pub open spec fn wf(&self) -> bool {
        self@.wf()
    }

    /// Starts a session on `contents` with the cursor on the first byte, at
    /// the high half.
    pub fn new(contents: Vec<u8>) -> (r: AppData)
        requires
            contents@.len() >= 1,
        ensures
            r.wf(),
            r@ == (EditState { contents: contents@, offset: 0, nibble: Nibble::Beginning }),
    {
        AppData { contents, offset: 0, nibble: Nibble::Beginning }
    }
}

} // verus!

//! The plain-text clipboard the engine copies to and pastes from.

use vstd::prelude::*;

verus! {

/// A clipboard holding at most one piece of plain text.
#[derive(Debug)]
pub struct Clipboard {
    value: Option<String>,
}

impl View for Clipboard {
    type V = Option<Seq<char>>;

    closed spec fn view(&self) -> Option<Seq<char>> {
        match self.value {
            Some(text) => Some(text@),
            None => None,
        }
    }
}

impl Clipboard {
    /// An empty clipboard.
    pub fn new() -> (clipboard: Self)
        ensures
            clipboard@ == None::<Seq<char>>,
    {
        Clipboard { value: None }
    }

    /// The text on the clipboard, if any.
    pub fn get(&self) -> (text: Option<String>)
        ensures
            text.is_some() == self@.is_some(),
            text matches Some(t) ==> self@ == Some(t@),
    {
        match &self.value {
            Some(text) => Some(text.clone()),
            None => None,
        }
    }

    /// Replaces what is on the clipboard by `text`.
    pub fn set(&mut self, text: String)
        ensures
            final(self)@ == Some(text@),
    {
        self.value = Some(text);
    }
}

impl Default for Clipboard {
    fn default() -> (clipboard: Self)
        ensures
            clipboard@ == None::<Seq<char>>,
    {
        Clipboard::new()
    }
}

} // verus!

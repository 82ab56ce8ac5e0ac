//! A vault: one root directory that holds notes.
use vstd::prelude::*;
use crate::note::{saved_as, Note, NoteError, NoteWrite};

verus! {

/// A directory under which notes are written.
#[derive(Debug)]
pub struct Vault {
    pub(crate) path: String,
}

impl View for Vault {
    type V = Seq<char>;

    closed spec fn view(&self) -> Seq<char> {
        self.path@
    }
}

impl Vault {
    /// A vault rooted at `path`; the directory is not looked at.
    pub fn new(path: String) -> (r: Self)
        ensures
            r@ == path@,
    {
        Vault { path }
    }

    /// The root directory.
    pub fn path(&self) -> (r: &String)
        ensures
            r@ == self@,
    {
        &self.path
    }

    /// The vault as it is listed: its root directory.
    pub fn to_string(&self) -> (r: String)
        ensures
            r@ == self@,
    {
        self.path.clone()
    }

    /// What adding `note` to this vault writes: the note saved under the
    /// vault's root, or why nothing is written.
    pub fn add_note(&self, note: Note) -> (r: Result<NoteWrite, NoteError>)
        ensures
            saved_as(r, note@, self@),
    {
        note.save(&self.path)
    }
}

} // verus!

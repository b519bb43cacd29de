//! The notes the notepad keeps.
use vstd::prelude::*;
use crate::jasper_ji::decimal::{format_u32, parse_u32, spec_format_u32, spec_parse_u32};

verus! {

/// A stored note: its key in the store, its text and when it was written.
#[derive(Debug)]
pub struct Note {
    pub id: u32,
    pub content: String,
    pub create_time: String,
}

/// A note about to be stored; the store gives it its key.
#[derive(Debug)]
pub struct WriteNote {
    pub content: String,
    pub create_time: String,
}

impl Clone for Note {
    fn clone(&self) -> (r: Self)
        ensures
            r == *self,
    {
        Note { id: self.id, content: self.content.clone(), create_time: self.create_time.clone() }
    }
}

impl Clone for WriteNote {
    fn clone(&self) -> (r: Self)
        ensures
            r == *self,
    {
        WriteNote { content: self.content.clone(), create_time: self.create_time.clone() }
    }
}

/// The note that the edit form describes, when its id field reads as a `u32`.
pub open spec fn spec_from_form(id_text: Seq<char>, content: String, create_time: String) -> Option<
    Note,
> {
    match spec_parse_u32(id_text) {
        Some(id) => Some(Note { id, content, create_time }),
        None => None,
    }
}

impl Note {
    /// The text that the edit form holds for the note's id.
    pub fn id_text(&self) -> (r: String)
        ensures
            r@ == spec_format_u32(self.id as nat),
    {
        format_u32(self.id)
    }

    /// The note that the fields of the edit form describe: the id field read
    /// as `u32::from_str` reads it, the text and the time as they stand.
    pub fn from_form(id_text: &str, content: String, create_time: String) -> (r: Option<Note>)
        ensures
            r == spec_from_form(id_text@, content, create_time),
    {
        match parse_u32(id_text) {
            Some(id) => Some(Note { id, content, create_time }),
            None => None,
        }
    }
}

/// A note put into the edit form and read back from it unchanged is the same
/// note.
pub proof fn lemma_form_roundtrip(n: Note)
    ensures
        spec_from_form(spec_format_u32(n.id as nat), n.content, n.create_time) == Some(n),
{
    crate::jasper_ji::decimal::lemma_parse_format_roundtrip(n.id);
}

} // verus!

use crate::editor::text::{split_lines, strings_view, text_lines};
use vstd::prelude::*;

verus! {

/// The lines of a file, each as a string.
pub struct Buffer {
    pub lines: Vec<String>,
}

impl Buffer {
    /// The lines of a file that was read: `Some` with its text, split as
    /// `str::lines` does, or `None` when it could not be read, which gives no
    /// lines.
    pub fn new(contents: Option<&str>) -> (b: Self)
        ensures
            strings_view(b.lines@) == match contents {
                Some(text) => split_lines(text@),
                None => Seq::<Seq<char>>::empty(),
            },
    {
        match contents {
            Some(text) => Self { lines: text_lines(text) },
            None => {
                let b = Self { lines: Vec::new() };
                assert(strings_view(b.lines@) =~= Seq::<Seq<char>>::empty());
                b
            },
        }
    }
}

} // verus!

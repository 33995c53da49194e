//! What the viewer is asked to show.

use vstd::prelude::*;

verus! {

/// The viewer's input: the name of the image file to view.
#[derive(Debug, Clone)]
pub struct InputData {
    file_name: String,
}

impl InputData {
    /// The characters of the file name.
    pub closed spec fn name(&self) -> Seq<char> {
        self.file_name@
    }

    /// Holds the given file name, unchanged.
    pub fn new(file_name: String) -> (input: InputData)
        ensures
            input.name() == file_name@,
    {
        InputData { file_name }
    }

    /// The name of the image to view.
    pub fn file_name(&self) -> (name: &str)
        ensures
            name@ == self.name(),
    {
        self.file_name.as_str()
    }
}

} // verus!

//! What this tool keeps in its own settings file.

use vstd::prelude::*;

verus! {

/// One remap rule as the settings file holds it: the key that is pressed
/// and the key that is sent, each with its label and its raw code.
#[derive(Debug, PartialEq)]
pub struct Keybind {
    pub input: String,
    pub output: String,
    pub virtual_input: i32,
    pub virtual_output: i32,
}

impl Clone for Keybind {
    fn clone(&self) -> (copy: Self)
        ensures
            copy == *self,
    {
        Keybind {
            input: self.input.clone(),
            output: self.output.clone(),
            virtual_input: self.virtual_input,
            virtual_output: self.virtual_output,
        }
    }
}

/// The settings file of this tool: where the vendor's settings lie, if not
/// in their usual place, and the rules of each application by its id. Where
/// an id occurs twice, its last entry counts.
#[derive(Debug)]
pub struct GProfilesData {
    pub settings: Option<String>,
    pub keybinds: Option<Vec<(String, Vec<Keybind>)>>,
}

} // verus!

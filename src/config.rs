use vstd::prelude::*;

verus! {

/// What a run of the renderer is asked to do: the scene file to read, the
/// image file to write, and the number of passes, which bounds how many times
/// a ray is reflected.
pub struct Config {
    pub scene_path: String,
    pub output_path: String,
    pub nb_pass: u8,
}

impl Config {
    pub fn new(scene_path: String, output_path: String, nb_pass: u8) -> (c: Config)
        ensures
            c.scene_path@ == scene_path@,
            c.output_path@ == output_path@,
            c.nb_pass == nb_pass,
    {
        Config { scene_path, output_path, nb_pass }
    }
}

} // verus!

use vstd::prelude::*;

verus! {

/// A reference to the picture handed to the external binary: the path of a
/// file on disk.  Callers that hold picture bytes in memory write them to a
/// temporary file themselves and pass that file's path.
#[derive(Debug, Clone)]
pub struct Image {
    pub path: String,
}

impl Image {
    /// An image reference for the file at `path`.
    pub fn from_path(path: String) -> (r: Image)
        ensures
            r.path@ == path@,
    {
        Image { path }
    }

    /// The path handed to the external binary as its input argument.
    pub fn get_image_path(&self) -> (r: String)
        ensures
            r@ == self.path@,
    {
        self.path.clone()
    }
}

} // verus!

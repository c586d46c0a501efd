//! What a task that reads or writes images is told, and what it tells.
use vstd::prelude::*;

verus! {

/// The phase a task runs in.
#[derive(Debug, Clone, Copy, PartialEq, Eq, Structural)]
pub enum Context {
    Initialising,
    Running,
    Exiting,
}

/// A task that opens an image: it names the image and gives its shape.
pub trait Opens<T> {
    /// The image's name and shape.
    fn name_and_shape(&self) -> (&str, &[u32]);
}

} // verus!

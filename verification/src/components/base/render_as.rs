//! The two ways in which a part that can stand in for its child is
//! rendered.

use vstd::prelude::*;

verus! {

/// How a part is rendered. The caller chooses; the part does not decide at
/// run time.
#[derive(Clone, Copy, Debug, PartialEq, Eq, Structural)]
pub enum RenderAs {
    /// The part is a plain container around its child and passes its
    /// attributes and behaviour on to it.
    Container,
    /// The part is an interactive control of its own.
    Control,
}

impl Default for RenderAs {
    fn default() -> (render_as: RenderAs)
        ensures
            render_as == RenderAs::Control,
    {
        RenderAs::Control
    }
}

impl RenderAs {
    /// Whether the part is a plain container around its child.
    pub fn is_container(self) -> (container: bool)
        ensures
            container == (self == RenderAs::Container),
    {
        match self {
            RenderAs::Container => true,
            RenderAs::Control => false,
        }
    }
}

} // verus!

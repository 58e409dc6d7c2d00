use vstd::prelude::*;

verus! {

/// A backend for elements: the family of implementations an element or a
/// buffer belongs to.
#[derive(Debug, Clone, Copy, PartialEq, Eq, Structural)]
pub enum Backend {
    /// Backend independent.
    Independent,
    /// Anthropic-style messages: two wire roles, tool uses and results
    /// carried inside the content. Modelled natively by this library.
    Anthropic,
}

impl Backend {
    /// Whether the backend is [`Backend::Independent`].
    pub fn is_independent(&self) -> (r: bool)
        ensures
            r == (*self is Independent),
    {
        matches!(self, Backend::Independent)
    }

    /// Whether the backend is [`Backend::Anthropic`].
    pub fn is_anthropic(&self) -> (r: bool)
        ensures
            r == (*self is Anthropic),
    {
        matches!(self, Backend::Anthropic)
    }
}

} // verus!

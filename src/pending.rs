//! The one-slot store of the path that waits for the frontend.
use vstd::prelude::*;

verus! {

/// What a pull does to the slot: it hands out what the slot held and leaves it
/// empty. The first component is the slot afterwards, the second the result.
pub open spec fn pulled(slot: Option<Seq<char>>) -> (Option<Seq<char>>, Option<Seq<char>>) {
    (None, slot)
}

/// The path that waits for the frontend, if any. Reading it consumes it.
pub struct PendingFile {
    path: Option<String>,
}

impl View for PendingFile {
    type V = Option<Seq<char>>;

    closed spec fn view(&self) -> Option<Seq<char>> {
        self.path.deep_view()
    }
}

impl PendingFile {
    /// An empty slot, as at process start.
    pub fn new() -> (r: Self)
        ensures
            r@ is None,
    {
        PendingFile { path: None }
    }

    /// Puts `path` in the slot, replacing what it held.
    pub fn store(&mut self, path: String)
        ensures
            final(self)@ == Some(path@),
    {
        self.path = Some(path);
    }

    /// Hands out the held path and empties the slot.
    pub fn take(&mut self) -> (r: Option<String>)
        ensures
            (final(self)@, r.deep_view()) == pulled(old(self)@),
    {
        self.path.take()
    }

    /// Whether a path is waiting.
    pub fn is_holding(&self) -> (r: bool)
        ensures
            r == (self@ is Some),
    {
        self.path.is_some()
    }
}

/// Answers the frontend's query for the launch path: the held path, taken out
/// of the slot, so that a second query finds nothing.
pub fn get_pending_file(state: &mut PendingFile) -> (r: Option<String>)
    ensures
        (final(state)@, r.deep_view()) == pulled(old(state)@),
{
    state.take()
}

} // verus!

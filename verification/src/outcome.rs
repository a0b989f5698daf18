use vstd::prelude::*;

verus! {

/// What the host reports after it has carried out the action it was last
/// asked for.
#[derive(Debug)]
pub enum Outcome {
    /// The action was carried out and produced nothing to hand back.
    Completed,
    /// The action could not be carried out; the text says why.
    Failed(String),
    /// The device delivered the encoded bytes of one image.
    Frame(Vec<u8>),
}

/// An outcome as contracts see it.
pub enum OutcomeView {
    Completed,
    Failed(Seq<char>),
    Frame(Seq<u8>),
}

impl View for Outcome {
    type V = OutcomeView;

    open spec fn view(&self) -> OutcomeView {
        match *self {
            Outcome::Completed => OutcomeView::Completed,
            Outcome::Failed(reason) => OutcomeView::Failed(reason@),
            Outcome::Frame(bytes) => OutcomeView::Frame(bytes@),
        }
    }
}

} // verus!

//! How management keys are configured and recovered, one exchange with the card at a time.
use crate::card::{Reply, ReplyView, Request, RequestView};
use vstd::prelude::*;

verus! {

/// A series of exchanges with the card.
///
/// As long as there is a request, carry it out and hand the reply back. A reply that is
/// not of the kind that the request calls for changes nothing: the request stands.
pub trait Procedure: Sized {
    /// What a procedure knows and where it stands.
    type State;

    /// Where the procedure stands.
    spec fn state(&self) -> Self::State;

    /// What is asked of the card in a state; `None` once the procedure has finished.
    spec fn pending(state: Self::State) -> Option<RequestView>;

    /// The state that a reply leads to.
    spec fn after(state: Self::State, reply: ReplyView) -> Self::State;

    /// What is asked of the card next; `None` once the procedure has finished.
    fn request(&self) -> (r: Option<Request<'_>>)
        ensures
            match r {
                Some(request) => Self::pending(self.state()) == Some(request@),
                None => Self::pending(self.state()) is None,
            },
    ;

    /// Takes the reply to the request.
    fn advance(&mut self, reply: Reply<'_>)
        ensures
            final(self).state() == Self::after(old(self).state(), reply@),
    ;
}

} // verus!

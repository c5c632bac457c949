//! Recovering the management key of a YubiKey.
use crate::algorithm::{MgmAlgorithmId, SlotAlgorithmId};
use crate::card::{answers, Item, Reply, ReplyView, Request, RequestView};
use crate::error::Error;
use crate::key::{derived_key, key_result, typed_key, KeyView, MgmKey};
use crate::procedure::Procedure;
use vstd::prelude::*;

verus! {

/// Where the bytes of a management key come from.
#[derive(Clone, Copy)]
pub enum Source<'p> {
    /// They are derived from the PIN and from the salt in the admin data.
    Derived {
        /// The PIN.
        pin: &'p [u8],
    },
    /// They are in the protected data.
    Protected,
}

/// What a source says.
pub enum SourceView {
    /// The key is derived.
    Derived {
        /// The PIN.
        pin: Seq<u8>,
    },
    /// The key is in the protected data.
    Protected,
}

impl<'p> View for Source<'p> {
    type V = SourceView;

    open spec fn view(&self) -> SourceView {
        match *self {
            Source::Derived { pin } => SourceView::Derived { pin: pin@ },
            Source::Protected => SourceView::Protected,
        }
    }
}

impl SourceView {
    /// The item that the key is made of.
    pub open spec fn item(self) -> Item {
        match self {
            SourceView::Derived { .. } => Item::AdminSalt,
            SourceView::Protected => Item::ProtectedMgm,
        }
    }

    /// The key that is made of the value of that item.
    pub open spec fn key(self, algo: MgmAlgorithmId, value: Seq<u8>) -> Result<KeyView, Error> {
        match self {
            SourceView::Derived { pin } => derived_key(algo, pin, value),
            SourceView::Protected => typed_key(value, algo),
        }
    }
}

impl<'p> Source<'p> {
    /// The item that the key is made of.
    fn item(&self) -> (r: Item)
        ensures
            r == self@.item(),
    {
        match self {
            Source::Derived { .. } => Item::AdminSalt,
            Source::Protected => Item::ProtectedMgm,
        }
    }

    /// The key that is made of the value of that item.
    fn key(&self, algo: MgmAlgorithmId, value: &[u8]) -> (r: Result<MgmKey, Error>)
        ensures
            key_result(r) == self@.key(algo, value@),
    {
        match self {
            Source::Derived { pin } => MgmKey::derive(algo, pin, value),
            Source::Protected => MgmKey::from_bytes_typed(value, algo),
        }
    }
}

/// What [`FetchKey`] is waiting for; `K` stands for a key.
pub enum FetchPhase<K> {
    /// The algorithm of the management key is being looked up.
    Query,
    /// The object with the item that the key is made of is being read.
    Read(MgmAlgorithmId),
    /// That item is being looked up.
    GetItem(MgmAlgorithmId),
    /// Nothing: the outcome is known.
    Finished(Result<K, Error>),
}

/// State of [`FetchKey`].
pub struct FetchState {
    /// Where the key comes from.
    pub source: SourceView,
    /// What is being waited for.
    pub phase: FetchPhase<KeyView>,
}

impl FetchState {
    /// The first state.
    pub open spec fn start(source: SourceView) -> FetchState {
        FetchState { source, phase: FetchPhase::Query }
    }

    /// What is asked of the card.
    pub open spec fn pending(self) -> Option<RequestView> {
        match self.phase {
            FetchPhase::Query => Some(RequestView::GetMetadata),
            FetchPhase::Read(_) => Some(RequestView::Read(self.source.item().spec_object())),
            FetchPhase::GetItem(_) => Some(RequestView::GetItem(self.source.item())),
            FetchPhase::Finished(_) => None,
        }
    }

    /// The phase that follows the lookup of the algorithm.
    pub open spec fn queried(metadata: Result<SlotAlgorithmId, Error>) -> FetchPhase<KeyView> {
        match MgmAlgorithmId::spec_query(metadata) {
            Ok(algo) => FetchPhase::Read(algo),
            Err(e) => FetchPhase::Finished(Err(e)),
        }
    }

    /// The phase that a reply of the right kind leads to.
    pub open spec fn next_phase(self, reply: ReplyView) -> FetchPhase<KeyView> {
        match (self.phase, reply) {
            (FetchPhase::Query, ReplyView::Algorithm(algo)) => FetchState::queried(Ok(algo)),
            (FetchPhase::Query, ReplyView::Failed(e)) => FetchState::queried(Err(e)),
            (FetchPhase::Read(algo), ReplyView::Done) => FetchPhase::GetItem(algo),
            (FetchPhase::GetItem(algo), ReplyView::Value(value)) => FetchPhase::Finished(
                self.source.key(algo, value),
            ),
            (FetchPhase::Read(_), ReplyView::Failed(e)) => FetchPhase::Finished(Err(e)),
            (FetchPhase::GetItem(_), ReplyView::Failed(e)) => FetchPhase::Finished(Err(e)),
            _ => self.phase,
        }
    }

    /// The state that a reply leads to.
    pub open spec fn after(self, reply: ReplyView) -> FetchState {
        match self.pending() {
            Some(request) => if answers(request, reply) {
                FetchState { phase: self.next_phase(reply), ..self }
            } else {
                self
            },
            None => self,
        }
    }

    /// The outcome, once it is known.
    pub open spec fn outcome(self) -> Option<Result<KeyView, Error>> {
        match self.phase {
            FetchPhase::Finished(outcome) => Some(outcome),
            _ => None,
        }
    }
}

/// Recovers the management key of a YubiKey.
///
/// Made by [`MgmKey::get_derived`] and [`MgmKey::get_protected`].
pub struct FetchKey<'p> {
    source: Source<'p>,
    phase: FetchPhase<MgmKey>,
}

impl<'p> Procedure for FetchKey<'p> {
    type State = FetchState;

    closed spec fn state(&self) -> FetchState {
        FetchState {
            source: self.source@,
            phase: match self.phase {
                FetchPhase::Query => FetchPhase::Query,
                FetchPhase::Read(algo) => FetchPhase::Read(algo),
                FetchPhase::GetItem(algo) => FetchPhase::GetItem(algo),
                FetchPhase::Finished(outcome) => FetchPhase::Finished(key_result(outcome)),
            },
        }
    }

    open spec fn pending(state: FetchState) -> Option<RequestView> {
        state.pending()
    }

    open spec fn after(state: FetchState, reply: ReplyView) -> FetchState {
        state.after(reply)
    }

    fn request(&self) -> (r: Option<Request<'_>>) {
        match self.phase {
            FetchPhase::Query => Some(Request::GetMetadata),
            FetchPhase::Read(_) => Some(Request::Read(self.source.item().object())),
            FetchPhase::GetItem(_) => Some(Request::GetItem(self.source.item())),
            FetchPhase::Finished(_) => None,
        }
    }

    fn advance(&mut self, reply: Reply<'_>) {
        match self.phase {
            FetchPhase::Query => {
                // Check the key algorithm.
                if let Some(metadata) = reply.algorithm() {
                    self.phase = match MgmAlgorithmId::query(metadata) {
                        Ok(algo) => FetchPhase::Read(algo),
                        Err(e) => FetchPhase::Finished(Err(e)),
                    };
                }
            },
            FetchPhase::Read(algo) => {
                if let Some(done) = reply.done() {
                    self.phase = match done {
                        Ok(()) => FetchPhase::GetItem(algo),
                        Err(e) => FetchPhase::Finished(Err(e)),
                    };
                }
            },
            FetchPhase::GetItem(algo) => {
                if let Some(value) = reply.value() {
                    self.phase = match value {
                        Ok(value) => FetchPhase::Finished(self.source.key(algo, value)),
                        Err(e) => FetchPhase::Finished(Err(e)),
                    };
                }
            },
            FetchPhase::Finished(_) => {},
        }
    }
}

impl<'p> FetchKey<'p> {
    /// The outcome; `None` if it is not known yet.
    pub fn outcome(self) -> (r: Option<Result<MgmKey, Error>>)
        ensures
            match r {
                Some(outcome) => self.state().outcome() == Some(key_result(outcome)),
                None => self.state().outcome() is None,
            },
    {
        match self.phase {
            FetchPhase::Finished(outcome) => Some(outcome),
            _ => None,
        }
    }
}

impl MgmKey {
    /// Get derived management key (MGM)
    pub fn get_derived(pin: &[u8]) -> (r: FetchKey<'_>)
        ensures
            r.state() == FetchState::start(SourceView::Derived { pin: pin@ }),
    {
        FetchKey { source: Source::Derived { pin }, phase: FetchPhase::Query }
    }

    /// Get protected management key (MGM)
    pub fn get_protected() -> (r: FetchKey<'static>)
        ensures
            r.state() == FetchState::start(SourceView::Protected),
    {
        FetchKey { source: Source::Protected, phase: FetchPhase::Query }
    }
}

} // verus!

//! Configuring a YubiKey with a management key that is protected by the PIN.
use crate::card::{
    answers, Item, Object, Reply, ReplyView, Request, RequestView, ADMIN_FLAGS_1_PROTECTED_MGM,
};
use crate::error::Error;
use crate::key::{KeyView, MgmKey};
use crate::procedure::Procedure;
use vstd::prelude::*;

verus! {

/// What [`SetProtected`] is waiting for.
#[derive(Clone, Copy, Debug)]
pub enum ProtectedPhase {
    /// The key is being set.
    SetKey,
    /// The protected data is being read.
    ReadProtected,
    /// The protected data could not be read, and is being started afresh.
    BlankProtected,
    /// The key is being put into the protected data.
    StoreMgm,
    /// The protected data is being written.
    WriteProtected,
    /// The admin data is being read.
    ReadAdmin,
    /// The flags are being looked up.
    GetFlags,
    /// The salt is being removed.
    ClearSalt,
    /// The admin data could not be read, and is being started afresh.
    BlankAdmin,
    /// The flags are being set, with the bit for a protected key set.
    SetFlags,
    /// The admin data is being written.
    WriteAdmin,
    /// Nothing: the outcome is known.
    Finished(Result<(), Error>),
}

/// State of [`SetProtected`].
pub struct ProtectedState {
    /// The key to set.
    pub key: KeyView,
    /// The flags as far as they are known; in phase `SetFlags`, the flags to set.
    pub flags: u8,
    /// What is being waited for.
    pub phase: ProtectedPhase,
}

impl ProtectedState {
    /// The first state.
    pub open spec fn start(key: KeyView) -> ProtectedState {
        ProtectedState { key, flags: 0, phase: ProtectedPhase::SetKey }
    }

    /// What is asked of the card.
    pub open spec fn pending(self) -> Option<RequestView> {
        match self.phase {
            ProtectedPhase::SetKey => Some(
                RequestView::SetMgmKey { key: self.key, require_touch: false },
            ),
            ProtectedPhase::ReadProtected => Some(RequestView::Read(Object::Protected)),
            ProtectedPhase::BlankProtected => Some(RequestView::Blank(Object::Protected)),
            ProtectedPhase::StoreMgm => Some(
                RequestView::SetItem { item: Item::ProtectedMgm, value: self.key.bytes },
            ),
            ProtectedPhase::WriteProtected => Some(RequestView::Write(Object::Protected)),
            ProtectedPhase::ReadAdmin => Some(RequestView::Read(Object::Admin)),
            ProtectedPhase::GetFlags => Some(RequestView::GetItem(Item::AdminFlags1)),
            ProtectedPhase::ClearSalt => Some(
                RequestView::SetItem { item: Item::AdminSalt, value: seq![] },
            ),
            ProtectedPhase::BlankAdmin => Some(RequestView::Blank(Object::Admin)),
            ProtectedPhase::SetFlags => Some(
                RequestView::SetItem { item: Item::AdminFlags1, value: seq![self.flags] },
            ),
            ProtectedPhase::WriteAdmin => Some(RequestView::Write(Object::Admin)),
            ProtectedPhase::Finished(_) => None,
        }
    }

    /// The phase that a reply of the right kind leads to.
    ///
    /// Only setting the key and writing it to the protected data can fail. An object that
    /// cannot be read is started afresh, and what else cannot be set or written is passed
    /// over.
    pub open spec fn next_phase(self, reply: ReplyView) -> ProtectedPhase {
        match (self.phase, reply) {
            (ProtectedPhase::SetKey, ReplyView::Failed(e)) => ProtectedPhase::Finished(Err(e)),
            (ProtectedPhase::SetKey, _) => ProtectedPhase::ReadProtected,
            (ProtectedPhase::ReadProtected, ReplyView::Failed(_)) => ProtectedPhase::BlankProtected,
            (ProtectedPhase::ReadProtected, _) => ProtectedPhase::StoreMgm,
            (ProtectedPhase::BlankProtected, _) => ProtectedPhase::StoreMgm,
            (ProtectedPhase::StoreMgm, ReplyView::Failed(_)) => ProtectedPhase::ReadAdmin,
            (ProtectedPhase::StoreMgm, _) => ProtectedPhase::WriteProtected,
            (ProtectedPhase::WriteProtected, ReplyView::Failed(e)) => ProtectedPhase::Finished(
                Err(e),
            ),
            (ProtectedPhase::WriteProtected, _) => ProtectedPhase::ReadAdmin,
            (ProtectedPhase::ReadAdmin, ReplyView::Failed(_)) => ProtectedPhase::BlankAdmin,
            (ProtectedPhase::ReadAdmin, _) => ProtectedPhase::GetFlags,
            (ProtectedPhase::GetFlags, _) => ProtectedPhase::ClearSalt,
            (ProtectedPhase::ClearSalt, _) => ProtectedPhase::SetFlags,
            (ProtectedPhase::BlankAdmin, _) => ProtectedPhase::SetFlags,
            (ProtectedPhase::SetFlags, ReplyView::Failed(_)) => ProtectedPhase::Finished(Ok(())),
            (ProtectedPhase::SetFlags, _) => ProtectedPhase::WriteAdmin,
            (ProtectedPhase::WriteAdmin, _) => ProtectedPhase::Finished(Ok(())),
            (ProtectedPhase::Finished(outcome), _) => ProtectedPhase::Finished(outcome),
        }
    }

    /// The flags after a reply of the right kind: first those that the admin data holds, if
    /// they are one byte; then, when they are to be set, with the bit for a protected key.
    pub open spec fn next_flags(self, reply: ReplyView) -> u8 {
        match (self.phase, reply) {
            (ProtectedPhase::GetFlags, ReplyView::Value(value)) => if value.len() == 1 {
                value[0]
            } else {
                self.flags
            },
            (ProtectedPhase::ClearSalt, _) => self.flags | ADMIN_FLAGS_1_PROTECTED_MGM,
            (ProtectedPhase::BlankAdmin, _) => self.flags | ADMIN_FLAGS_1_PROTECTED_MGM,
            _ => self.flags,
        }
    }

    /// The state that a reply leads to.
    pub open spec fn after(self, reply: ReplyView) -> ProtectedState {
        match self.pending() {
            Some(request) => if answers(request, reply) {
                ProtectedState {
                    flags: self.next_flags(reply),
                    phase: self.next_phase(reply),
                    ..self
                }
            } else {
                self
            },
            None => self,
        }
    }

    /// The outcome, once it is known.
    pub open spec fn outcome(self) -> Option<Result<(), Error>> {
        match self.phase {
            ProtectedPhase::Finished(outcome) => Some(outcome),
            _ => None,
        }
    }
}

/// Configures a YubiKey to use a management key that is protected by the PIN.
///
/// Made by [`MgmKey::set_protected`].
pub struct SetProtected {
    key: MgmKey,
    flags: [u8; 1],
    phase: ProtectedPhase,
}

impl Procedure for SetProtected {
    type State = ProtectedState;

    closed spec fn state(&self) -> ProtectedState {
        ProtectedState { key: self.key@, flags: self.flags@[0], phase: self.phase }
    }

    open spec fn pending(state: ProtectedState) -> Option<RequestView> {
        state.pending()
    }

    open spec fn after(state: ProtectedState, reply: ReplyView) -> ProtectedState {
        state.after(reply)
    }

    fn request(&self) -> (r: Option<Request<'_>>) {
        match self.phase {
            ProtectedPhase::SetKey => Some(
                Request::SetMgmKey { key: &self.key, require_touch: false },
            ),
            ProtectedPhase::ReadProtected => Some(Request::Read(Object::Protected)),
            ProtectedPhase::BlankProtected => Some(Request::Blank(Object::Protected)),
            ProtectedPhase::StoreMgm => Some(
                Request::SetItem { item: Item::ProtectedMgm, value: self.key.as_ref() },
            ),
            ProtectedPhase::WriteProtected => Some(Request::Write(Object::Protected)),
            ProtectedPhase::ReadAdmin => Some(Request::Read(Object::Admin)),
            ProtectedPhase::GetFlags => Some(Request::GetItem(Item::AdminFlags1)),
            ProtectedPhase::ClearSalt => {
                let value: &[u8] = &[];
                assert(value@ =~= seq![]);
                Some(Request::SetItem { item: Item::AdminSalt, value })
            },
            ProtectedPhase::BlankAdmin => Some(Request::Blank(Object::Admin)),
            ProtectedPhase::SetFlags => {
                let value: &[u8] = self.flags.as_slice();
                assert(value@ =~= seq![self.flags@[0]]);
                Some(Request::SetItem { item: Item::AdminFlags1, value })
            },
            ProtectedPhase::WriteAdmin => Some(Request::Write(Object::Admin)),
            ProtectedPhase::Finished(_) => None,
        }
    }

    fn advance(&mut self, reply: Reply<'_>) {
        if let ProtectedPhase::GetFlags = self.phase {
            match reply.value() {
                Some(Ok(item)) => {
                    if item.len() == 1 {
                        self.flags = [item[0]];
                    }
                    self.phase = ProtectedPhase::ClearSalt;
                },
                Some(Err(_)) => {
                    self.phase = ProtectedPhase::ClearSalt;
                },
                None => {},
            }
            return;
        }
        let done: Result<(), Error> = match reply.done() {
            Some(done) => done,
            None => return,
        };
        self.phase = match (self.phase, done) {
            (ProtectedPhase::SetKey, Err(e)) => ProtectedPhase::Finished(Err(e)),
            (ProtectedPhase::SetKey, Ok(())) => ProtectedPhase::ReadProtected,
            // The key is set from here on, also where the procedure fails later.
            // Start a blank metadata blob where there is none.
            (ProtectedPhase::ReadProtected, Err(_)) => ProtectedPhase::BlankProtected,
            (ProtectedPhase::ReadProtected, Ok(())) => ProtectedPhase::StoreMgm,
            (ProtectedPhase::BlankProtected, _) => ProtectedPhase::StoreMgm,
            (ProtectedPhase::StoreMgm, Err(_)) => ProtectedPhase::ReadAdmin,
            (ProtectedPhase::StoreMgm, Ok(())) => ProtectedPhase::WriteProtected,
            (ProtectedPhase::WriteProtected, Err(e)) => ProtectedPhase::Finished(Err(e)),
            // set the protected mgm flag in admin data
            (ProtectedPhase::WriteProtected, Ok(())) => ProtectedPhase::ReadAdmin,
            (ProtectedPhase::ReadAdmin, Err(_)) => ProtectedPhase::BlankAdmin,
            (ProtectedPhase::ReadAdmin, Ok(())) => ProtectedPhase::GetFlags,
            (ProtectedPhase::GetFlags, _) => ProtectedPhase::GetFlags,
            (ProtectedPhase::ClearSalt, _) | (ProtectedPhase::BlankAdmin, _) => {
                self.flags = [self.flags[0] | ADMIN_FLAGS_1_PROTECTED_MGM];
                ProtectedPhase::SetFlags
            },
            (ProtectedPhase::SetFlags, Err(_)) => ProtectedPhase::Finished(Ok(())),
            (ProtectedPhase::SetFlags, Ok(())) => ProtectedPhase::WriteAdmin,
            (ProtectedPhase::WriteAdmin, _) => ProtectedPhase::Finished(Ok(())),
            (ProtectedPhase::Finished(outcome), _) => ProtectedPhase::Finished(outcome),
        };
    }
}

impl SetProtected {
    /// The outcome, once it is known.
    pub fn outcome(&self) -> (r: Option<Result<(), Error>>)
        ensures
            r == self.state().outcome(),
    {
        match self.phase {
            ProtectedPhase::Finished(outcome) => Some(outcome),
            _ => None,
        }
    }
}

impl MgmKey {
    /// Configures a YubiKey to use this as a PIN-protected management key.
    ///
    /// This enables key management operations to be performed with access to the PIN.
    ///
    /// The procedure fails where the YubiKey refuses the key, and where the protected data
    /// with the key in it cannot be written: the YubiKey then already uses this key, but it is
    /// not to be had with the PIN. No other failure ends it.
    pub fn set_protected(&self) -> (r: SetProtected)
        ensures
            r.state() == ProtectedState::start(self@),
    {
        SetProtected { key: self.clone(), flags: [0u8; 1], phase: ProtectedPhase::SetKey }
    }
}

} // verus!

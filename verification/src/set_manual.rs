//! Configuring a YubiKey with a management key that the user keeps.
use crate::algorithm::MgmAlgorithmId;
use crate::card::{
    answers, Item, Object, Reply, ReplyView, Request, RequestView, ADMIN_FLAGS_1_PROTECTED_MGM,
};
use crate::error::Error;
use crate::key::{KeyView, MgmKey, DEFAULT_KEY_BYTES};
use crate::procedure::Procedure;
use vstd::prelude::*;

verus! {

/// What [`SetManual`] is waiting for.
#[derive(Clone, Copy, Debug)]
pub enum ManualPhase {
    /// The key is being set.
    SetKey,
    /// The admin data is being read.
    ReadAdmin,
    /// The flags are being looked up.
    GetFlags,
    /// The flags are being set, with the bit for a protected key cleared.
    SetFlags,
    /// The salt is being removed.
    ClearSalt,
    /// The admin data is being written.
    WriteAdmin,
    /// The protected data is being read.
    ReadProtected,
    /// The key in the protected data is being removed.
    ClearMgm,
    /// The protected data is being written.
    WriteProtected,
    /// Nothing: the outcome is known.
    Finished(Result<(), Error>),
}

/// State of [`SetManual`].
pub struct ManualState {
    /// The key to set.
    pub key: KeyView,
    /// Whether using the key takes a touch.
    pub require_touch: bool,
    /// The flags to set.
    pub flags: u8,
    /// What is being waited for.
    pub phase: ManualPhase,
}

impl ManualState {
    /// The first state.
    pub open spec fn start(key: KeyView, require_touch: bool) -> ManualState {
        ManualState { key, require_touch, flags: 0, phase: ManualPhase::SetKey }
    }

    /// What is asked of the card.
    pub open spec fn pending(self) -> Option<RequestView> {
        match self.phase {
            ManualPhase::SetKey => Some(
                RequestView::SetMgmKey { key: self.key, require_touch: self.require_touch },
            ),
            ManualPhase::ReadAdmin => Some(RequestView::Read(Object::Admin)),
            ManualPhase::GetFlags => Some(RequestView::GetItem(Item::AdminFlags1)),
            ManualPhase::SetFlags => Some(
                RequestView::SetItem { item: Item::AdminFlags1, value: seq![self.flags] },
            ),
            ManualPhase::ClearSalt => Some(
                RequestView::SetItem { item: Item::AdminSalt, value: seq![] },
            ),
            ManualPhase::WriteAdmin => Some(RequestView::Write(Object::Admin)),
            ManualPhase::ReadProtected => Some(RequestView::Read(Object::Protected)),
            ManualPhase::ClearMgm => Some(
                RequestView::SetItem { item: Item::ProtectedMgm, value: seq![] },
            ),
            ManualPhase::WriteProtected => Some(RequestView::Write(Object::Protected)),
            ManualPhase::Finished(_) => None,
        }
    }

    /// The phase that a reply of the right kind leads to.
    ///
    /// Only setting the key can fail. What cannot be read is left alone, and what cannot be
    /// set or written is passed over.
    pub open spec fn next_phase(self, reply: ReplyView) -> ManualPhase {
        match (self.phase, reply) {
            (ManualPhase::SetKey, ReplyView::Failed(e)) => ManualPhase::Finished(Err(e)),
            (ManualPhase::SetKey, _) => ManualPhase::ReadAdmin,
            (ManualPhase::ReadAdmin, ReplyView::Failed(_)) => ManualPhase::ReadProtected,
            (ManualPhase::ReadAdmin, _) => ManualPhase::GetFlags,
            (ManualPhase::GetFlags, ReplyView::Value(value)) => if value.len() == 1 {
                ManualPhase::SetFlags
            } else {
                ManualPhase::ClearSalt
            },
            (ManualPhase::GetFlags, _) => ManualPhase::ClearSalt,
            (ManualPhase::SetFlags, _) => ManualPhase::ClearSalt,
            (ManualPhase::ClearSalt, _) => ManualPhase::WriteAdmin,
            (ManualPhase::WriteAdmin, _) => ManualPhase::ReadProtected,
            (ManualPhase::ReadProtected, ReplyView::Failed(_)) => ManualPhase::Finished(Ok(())),
            (ManualPhase::ReadProtected, _) => ManualPhase::ClearMgm,
            (ManualPhase::ClearMgm, ReplyView::Failed(_)) => ManualPhase::Finished(Ok(())),
            (ManualPhase::ClearMgm, _) => ManualPhase::WriteProtected,
            (ManualPhase::WriteProtected, _) => ManualPhase::Finished(Ok(())),
            (ManualPhase::Finished(outcome), _) => ManualPhase::Finished(outcome),
        }
    }

    /// The flags to set after a reply of the right kind.
    pub open spec fn next_flags(self, reply: ReplyView) -> u8 {
        match (self.phase, reply) {
            (ManualPhase::GetFlags, ReplyView::Value(value)) => if value.len() == 1 {
                value[0] & !ADMIN_FLAGS_1_PROTECTED_MGM
            } else {
                self.flags
            },
            _ => self.flags,
        }
    }

    /// The state that a reply leads to.
    pub open spec fn after(self, reply: ReplyView) -> ManualState {
        match self.pending() {
            Some(request) => if answers(request, reply) {
                ManualState {
                    flags: self.next_flags(reply),
                    phase: self.next_phase(reply),
                    ..self
                }
            } else {
                self
            },
            None => self,
        }
    }

    /// The outcome, once it is known.
    pub open spec fn outcome(self) -> Option<Result<(), Error>> {
        match self.phase {
            ManualPhase::Finished(outcome) => Some(outcome),
            _ => None,
        }
    }
}

/// Configures a YubiKey to use a management key that the user keeps.
///
/// Made by [`MgmKey::set_manual`] and [`MgmKey::set_default`].
pub struct SetManual {
    key: MgmKey,
    require_touch: bool,
    flags: [u8; 1],
    phase: ManualPhase,
}

impl Procedure for SetManual {
    type State = ManualState;

    closed spec fn state(&self) -> ManualState {
        ManualState {
            key: self.key@,
            require_touch: self.require_touch,
            flags: self.flags@[0],
            phase: self.phase,
        }
    }

    open spec fn pending(state: ManualState) -> Option<RequestView> {
        state.pending()
    }

    open spec fn after(state: ManualState, reply: ReplyView) -> ManualState {
        state.after(reply)
    }

    fn request(&self) -> (r: Option<Request<'_>>) {
        match self.phase {
            ManualPhase::SetKey => Some(
                Request::SetMgmKey { key: &self.key, require_touch: self.require_touch },
            ),
            ManualPhase::ReadAdmin => Some(Request::Read(Object::Admin)),
            ManualPhase::GetFlags => Some(Request::GetItem(Item::AdminFlags1)),
            ManualPhase::SetFlags => {
                let value: &[u8] = self.flags.as_slice();
                assert(value@ =~= seq![self.flags@[0]]);
                Some(Request::SetItem { item: Item::AdminFlags1, value })
            },
            ManualPhase::ClearSalt => {
                let value: &[u8] = &[];
                assert(value@ =~= seq![]);
                Some(Request::SetItem { item: Item::AdminSalt, value })
            },
            ManualPhase::WriteAdmin => Some(Request::Write(Object::Admin)),
            ManualPhase::ReadProtected => Some(Request::Read(Object::Protected)),
            ManualPhase::ClearMgm => {
                let value: &[u8] = &[];
                assert(value@ =~= seq![]);
                Some(Request::SetItem { item: Item::ProtectedMgm, value })
            },
            ManualPhase::WriteProtected => Some(Request::Write(Object::Protected)),
            ManualPhase::Finished(_) => None,
        }
    }

    fn advance(&mut self, reply: Reply<'_>) {
        if let ManualPhase::GetFlags = self.phase {
            // Clear the protected mgm key bit.
            match reply.value() {
                Some(Ok(item)) => {
                    if item.len() == 1 {
                        self.flags = [item[0] & !ADMIN_FLAGS_1_PROTECTED_MGM];
                        self.phase = ManualPhase::SetFlags;
                    } else {
                        self.phase = ManualPhase::ClearSalt;
                    }
                },
                Some(Err(_)) => {
                    self.phase = ManualPhase::ClearSalt;
                },
                None => {},
            }
            return;
        }
        let done: Result<(), Error> = match reply.done() {
            Some(done) => done,
            None => return,
        };
        self.phase = match (self.phase, done) {
            (ManualPhase::SetKey, Err(e)) => ManualPhase::Finished(Err(e)),
            // After this point, we've set the mgm key, so the procedure should succeed,
            // regardless of being able to set the metadata.
            (ManualPhase::SetKey, Ok(())) => ManualPhase::ReadAdmin,
            (ManualPhase::ReadAdmin, Err(_)) => ManualPhase::ReadProtected,
            (ManualPhase::ReadAdmin, Ok(())) => ManualPhase::GetFlags,
            (ManualPhase::GetFlags, _) => ManualPhase::GetFlags,
            // Remove any existing salt for a derived mgm key.
            (ManualPhase::SetFlags, _) => ManualPhase::ClearSalt,
            (ManualPhase::ClearSalt, _) => ManualPhase::WriteAdmin,
            // Clear any prior mgm key from protected data.
            (ManualPhase::WriteAdmin, _) => ManualPhase::ReadProtected,
            (ManualPhase::ReadProtected, Err(_)) => ManualPhase::Finished(Ok(())),
            (ManualPhase::ReadProtected, Ok(())) => ManualPhase::ClearMgm,
            (ManualPhase::ClearMgm, Err(_)) => ManualPhase::Finished(Ok(())),
            (ManualPhase::ClearMgm, Ok(())) => ManualPhase::WriteProtected,
            (ManualPhase::WriteProtected, _) => ManualPhase::Finished(Ok(())),
            (ManualPhase::Finished(outcome), _) => ManualPhase::Finished(outcome),
        };
    }
}

impl SetManual {
    /// The outcome, once it is known.
    pub fn outcome(&self) -> (r: Option<Result<(), Error>>)
        ensures
            r == self.state().outcome(),
    {
        match self.phase {
            ManualPhase::Finished(outcome) => Some(outcome),
            _ => None,
        }
    }
}

impl MgmKey {
    /// Configures a YubiKey to use this management key.
    ///
    /// The management key must be stored by the user, and provided when performing key
    /// management operations.
    ///
    /// This will wipe any metadata related to derived and PIN-protected management keys.
    pub fn set_manual(&self, require_touch: bool) -> (r: SetManual)
        ensures
            r.state() == ManualState::start(self@, require_touch),
    {
        SetManual {
            key: self.clone(),
            require_touch,
            flags: [0u8; 1],
            phase: ManualPhase::SetKey,
        }
    }

    /// Resets the management key of a YubiKey to the default value.
    ///
    /// This will wipe any metadata related to derived and PIN-protected management keys.
    pub fn set_default() -> (r: SetManual)
        ensures
            r.state() == ManualState::start(
                KeyView { algo: MgmAlgorithmId::ThreeDes, bytes: DEFAULT_KEY_BYTES@ },
                false,
            ),
    {
        MgmKey::default().set_manual(false)
    }
}

} // verus!

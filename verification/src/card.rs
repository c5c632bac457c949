//! What is asked of the card, and what it answers.
//!
//! Configuring a YubiKey takes a series of exchanges with it. A
//! [`Procedure`](crate::procedure::Procedure) decides what to ask next; whoever holds the
//! connection carries out each [`Request`] and hands the [`Reply`] back.
//!
//! Metadata lives in two objects on the card. A request to read one fetches it into a
//! working copy, the items of which are then read and changed; a request to write it
//! stores the working copy on the card.
use crate::algorithm::SlotAlgorithmId;
use crate::error::Error;
use crate::key::{KeyView, MgmKey};
use vstd::prelude::*;

verus! {

/// YubiKey MGMT Applet Name
pub const APPLET_NAME: &'static str = "YubiKey MGMT";

/// MGMT Applet ID.
///
/// <https://developers.yubico.com/PIV/Introduction/Admin_access.html>
pub const APPLET_ID: [u8; 8] = [0xa0, 0x00, 0x00, 0x05, 0x27, 0x47, 0x11, 0x17];

/// The bit of [`Item::AdminFlags1`] that says that the protected data holds the
/// management key.
pub const ADMIN_FLAGS_1_PROTECTED_MGM: u8 = 0x02;

/// An object on the card that holds metadata.
#[derive(Clone, Copy, Debug, PartialEq, Eq, Structural)]
pub enum Object {
    /// The admin data.
    Admin,
    /// The data that is protected by the PIN.
    Protected,
}

/// An item of metadata.
#[derive(Clone, Copy, Debug, PartialEq, Eq, Structural)]
pub enum Item {
    /// The first byte of flags, in the admin data.
    AdminFlags1,
    /// The salt of a derived management key, in the admin data.
    AdminSalt,
    /// The management key itself, in the protected data.
    ProtectedMgm,
}

impl Item {
    /// The object that the item belongs to.
    pub open spec fn spec_object(self) -> Object {
        match self {
            Item::AdminFlags1 => Object::Admin,
            Item::AdminSalt => Object::Admin,
            Item::ProtectedMgm => Object::Protected,
        }
    }

    /// The object that the item belongs to.
    pub fn object(&self) -> (r: Object)
        ensures
            r == self.spec_object(),
    {
        match self {
            Item::AdminFlags1 => Object::Admin,
            Item::AdminSalt => Object::Admin,
            Item::ProtectedMgm => Object::Protected,
        }
    }
}

/// What is asked of the card.
pub enum Request<'a> {
    /// Get the metadata of the management key slot.
    GetMetadata,
    /// Make `key` the management key, to be used with a touch or without.
    SetMgmKey {
        /// The key.
        key: &'a MgmKey,
        /// Whether using the key takes a touch.
        require_touch: bool,
    },
    /// Fetch an object into its working copy.
    Read(Object),
    /// Start from a working copy of the object that holds no items.
    Blank(Object),
    /// Get an item of the working copy.
    GetItem(Item),
    /// Set an item of the working copy. An empty value removes the item.
    SetItem {
        /// The item.
        item: Item,
        /// Its new value.
        value: &'a [u8],
    },
    /// Store the working copy of an object.
    Write(Object),
}

/// What a request says.
pub enum RequestView {
    /// Get the metadata of the management key slot.
    GetMetadata,
    /// Make `key` the management key.
    SetMgmKey {
        /// The key.
        key: KeyView,
        /// Whether using the key takes a touch.
        require_touch: bool,
    },
    /// Fetch an object.
    Read(Object),
    /// Start from an empty object.
    Blank(Object),
    /// Get an item.
    GetItem(Item),
    /// Set an item.
    SetItem {
        /// The item.
        item: Item,
        /// Its new value.
        value: Seq<u8>,
    },
    /// Store an object.
    Write(Object),
}

impl<'a> View for Request<'a> {
    type V = RequestView;

    open spec fn view(&self) -> RequestView {
        match *self {
            Request::GetMetadata => RequestView::GetMetadata,
            Request::SetMgmKey { key, require_touch } => RequestView::SetMgmKey {
                key: key@,
                require_touch,
            },
            Request::Read(object) => RequestView::Read(object),
            Request::Blank(object) => RequestView::Blank(object),
            Request::GetItem(item) => RequestView::GetItem(item),
            Request::SetItem { item, value } => RequestView::SetItem { item, value: value@ },
            Request::Write(object) => RequestView::Write(object),
        }
    }
}

/// What the card answers.
pub enum Reply<'a> {
    /// It is done.
    Done,
    /// The algorithm of the key in the slot that was asked about.
    Algorithm(SlotAlgorithmId),
    /// The value of the item that was asked for.
    Value(&'a [u8]),
    /// It failed.
    Failed(Error),
}

/// What a reply says.
pub enum ReplyView {
    /// It is done.
    Done,
    /// The algorithm of the key in the slot that was asked about.
    Algorithm(SlotAlgorithmId),
    /// The value of the item that was asked for.
    Value(Seq<u8>),
    /// It failed.
    Failed(Error),
}

impl<'a> View for Reply<'a> {
    type V = ReplyView;

    open spec fn view(&self) -> ReplyView {
        match *self {
            Reply::Done => ReplyView::Done,
            Reply::Algorithm(algo) => ReplyView::Algorithm(algo),
            Reply::Value(value) => ReplyView::Value(value@),
            Reply::Failed(e) => ReplyView::Failed(e),
        }
    }
}

/// The reply is of the kind that the request calls for: the algorithm or the value that
/// was asked for, or else that it is done; or that it failed.
pub open spec fn answers(request: RequestView, reply: ReplyView) -> bool {
    match reply {
        ReplyView::Failed(_) => true,
        ReplyView::Algorithm(_) => request is GetMetadata,
        ReplyView::Value(_) => request is GetItem,
        ReplyView::Done => !(request is GetMetadata || request is GetItem),
    }
}

impl<'a> Reply<'a> {
    /// The reply as that to a request that asks for nothing in return; `None` if it is no
    /// such reply.
    pub fn done(&self) -> (r: Option<Result<(), Error>>)
        ensures
            r == match self@ {
                ReplyView::Done => Some(Ok::<(), Error>(())),
                ReplyView::Failed(e) => Some(Err::<(), Error>(e)),
                _ => None,
            },
    {
        match self {
            Reply::Done => Some(Ok(())),
            Reply::Failed(e) => Some(Err(*e)),
            _ => None,
        }
    }

    /// The reply as that to a request for metadata of a slot; `None` if it is no such reply.
    pub fn algorithm(&self) -> (r: Option<Result<SlotAlgorithmId, Error>>)
        ensures
            r == match self@ {
                ReplyView::Algorithm(algo) => Some(Ok::<SlotAlgorithmId, Error>(algo)),
                ReplyView::Failed(e) => Some(Err::<SlotAlgorithmId, Error>(e)),
                _ => None,
            },
    {
        match self {
            Reply::Algorithm(algo) => Some(Ok(*algo)),
            Reply::Failed(e) => Some(Err(*e)),
            _ => None,
        }
    }

    /// The reply as that to a request for an item; `None` if it is no such reply.
    pub fn value(&self) -> (r: Option<Result<&'a [u8], Error>>)
        ensures
            match self@ {
                ReplyView::Value(value) => r matches Some(Ok(bytes)) && bytes@ == value,
                ReplyView::Failed(e) => r == Some(Err::<&'a [u8], Error>(e)),
                _ => r is None,
            },
    {
        match self {
            Reply::Value(value) => Some(Ok(*value)),
            Reply::Failed(e) => Some(Err(*e)),
            _ => None,
        }
    }
}

/// What a request says is what it holds.
pub proof fn law_request_view(request: Request<'_>)
    ensures
        match request {
            Request::GetMetadata => request@ is GetMetadata,
            Request::SetMgmKey { key, require_touch } => request@ == (RequestView::SetMgmKey {
                key: key@,
                require_touch,
            }),
            Request::Read(object) => request@ == RequestView::Read(object),
            Request::Blank(object) => request@ == RequestView::Blank(object),
            Request::GetItem(item) => request@ == RequestView::GetItem(item),
            Request::SetItem { item, value } => request@ == (RequestView::SetItem {
                item,
                value: value@,
            }),
            Request::Write(object) => request@ == RequestView::Write(object),
        },
{
}

/// What a reply says is what it holds.
pub proof fn law_reply_view(reply: Reply<'_>)
    ensures
        match reply {
            Reply::Done => reply@ is Done,
            Reply::Algorithm(algo) => reply@ == ReplyView::Algorithm(algo),
            Reply::Value(value) => reply@ == ReplyView::Value(value@),
            Reply::Failed(e) => reply@ == ReplyView::Failed(e),
        },
{
}

/// The flags and the salt are in the admin data, and the key is in the protected data.
pub proof fn law_item_objects()
    ensures
        Item::AdminFlags1.spec_object() == Object::Admin,
        Item::AdminSalt.spec_object() == Object::Admin,
        Item::ProtectedMgm.spec_object() == Object::Protected,
{
}

} // verus!

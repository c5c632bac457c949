//! What the procedures come to on a card that may refuse any request.
use crate::algorithm::{MgmAlgorithmId, SlotAlgorithmId};
use crate::card::{Item, Object, ReplyView, RequestView, ADMIN_FLAGS_1_PROTECTED_MGM};
use crate::error::Error;
use crate::fetch::{FetchKey, FetchState, SourceView};
use crate::kdf::pbkdf2_hmac_sha1;
use crate::key::{KeyView, MgmKey, DEFAULT_KEY_BYTES};
use crate::laws::{lemma_exchange, run, run_fetch, run_set_manual, run_set_protected, Card};
use crate::procedure::Procedure;
use crate::set_manual::{ManualPhase, ManualState, SetManual};
use crate::set_protected::{ProtectedPhase, ProtectedState, SetProtected};
use vstd::prelude::*;

verus! {

/// What `get_derived` comes to on any card: the key is derived by PBKDF2 with HMAC-SHA1, in
/// 10000 rounds, from the whole PIN and the whole salt that the admin data holds, and is of the
/// algorithm that the card tells, or of 3DES where the card does not know the request for
/// metadata. What stands in the way is reported.
pub proof fn law_get_derived(pin: Seq<u8>, card: Card)
    ensures
        ({
            let outcome = run_fetch(SourceView::Derived { pin }, card).0;
            let admin = card.stored[Object::Admin];
            let (algo, unknown): (MgmAlgorithmId, Option<Error>) = match (card.refuses)(
                RequestView::GetMetadata,
            ) {
                None => (card.key.algo, None),
                Some(Error::NotSupported) => (MgmAlgorithmId::ThreeDes, None),
                Some(Error::AlgorithmError) => (card.key.algo, Some(Error::NotSupported)),
                Some(e) => (card.key.algo, Some(e)),
            };
            let len: nat = match algo {
                MgmAlgorithmId::ThreeDes => 24,
                MgmAlgorithmId::Aes128 => 16,
                MgmAlgorithmId::Aes192 => 24,
                MgmAlgorithmId::Aes256 => 32,
            };
            if unknown is Some {
                outcome == Some(Err::<KeyView, Error>(unknown->0))
            } else if let Some(e) = (card.refuses)(RequestView::Read(Object::Admin)) {
                outcome == Some(Err::<KeyView, Error>(e))
            } else if !card.stored.contains_key(Object::Admin) {
                outcome == Some(Err::<KeyView, Error>(card.missing))
            } else if let Some(e) = (card.refuses)(RequestView::GetItem(Item::AdminSalt)) {
                outcome == Some(Err::<KeyView, Error>(e))
            } else if !admin.contains_key(Item::AdminSalt) {
                outcome == Some(Err::<KeyView, Error>(card.missing))
            } else if admin[Item::AdminSalt].len() != 16 {
                outcome == Some(Err::<KeyView, Error>(Error::GenericError))
            } else {
                outcome == Some(
                    Ok::<KeyView, Error>(
                        KeyView {
                            algo,
                            bytes: pbkdf2_hmac_sha1(pin, admin[Item::AdminSalt], 10000, len),
                        },
                    ),
                )
            }
        }),
{
    lemma_fetch(SourceView::Derived { pin }, card);
}

/// What `get_protected` comes to on any card: the key has all the bytes that the protected data
/// holds for it, and they have to be exactly as many as the algorithm takes. The algorithm is
/// the one that the card tells, or 3DES where the card does not know the request for metadata.
/// What stands in the way is reported.
pub proof fn law_get_protected(card: Card)
    ensures
        ({
            let outcome = run_fetch(SourceView::Protected, card).0;
            let protected = card.stored[Object::Protected];
            let (algo, unknown): (MgmAlgorithmId, Option<Error>) = match (card.refuses)(
                RequestView::GetMetadata,
            ) {
                None => (card.key.algo, None),
                Some(Error::NotSupported) => (MgmAlgorithmId::ThreeDes, None),
                Some(Error::AlgorithmError) => (card.key.algo, Some(Error::NotSupported)),
                Some(e) => (card.key.algo, Some(e)),
            };
            let len: nat = match algo {
                MgmAlgorithmId::ThreeDes => 24,
                MgmAlgorithmId::Aes128 => 16,
                MgmAlgorithmId::Aes192 => 24,
                MgmAlgorithmId::Aes256 => 32,
            };
            if unknown is Some {
                outcome == Some(Err::<KeyView, Error>(unknown->0))
            } else if let Some(e) = (card.refuses)(RequestView::Read(Object::Protected)) {
                outcome == Some(Err::<KeyView, Error>(e))
            } else if !card.stored.contains_key(Object::Protected) {
                outcome == Some(Err::<KeyView, Error>(card.missing))
            } else if let Some(e) = (card.refuses)(RequestView::GetItem(Item::ProtectedMgm)) {
                outcome == Some(Err::<KeyView, Error>(e))
            } else if !protected.contains_key(Item::ProtectedMgm) {
                outcome == Some(Err::<KeyView, Error>(card.missing))
            } else if protected[Item::ProtectedMgm].len() != len {
                outcome == Some(Err::<KeyView, Error>(Error::SizeError))
            } else {
                outcome == Some(
                    Ok::<KeyView, Error>(KeyView { algo, bytes: protected[Item::ProtectedMgm] }),
                )
            }
        }),
{
    lemma_fetch(SourceView::Protected, card);
}

/// The exchanges of a recovery.
proof fn lemma_fetch(source: SourceView, card: Card)
    ensures
        ({
            let state_1 = FetchState::start(source).after(card.serve(RequestView::GetMetadata).1);
            let (card_2, reply_2) = card.serve(RequestView::Read(source.item().spec_object()));
            let state_2 = state_1.after(reply_2);
            let state_3 = state_2.after(card_2.serve(RequestView::GetItem(source.item())).1);
            let end = if state_1.pending() is None {
                state_1
            } else if state_2.pending() is None {
                state_2
            } else {
                state_3
            };
            run_fetch(source, card).0 == end.outcome()
        }),
{
    let object = source.item().spec_object();
    let state = FetchState::start(source);
    lemma_exchange::<FetchKey<'static>>(state, card, 10);
    let (card_1, reply_1) = card.serve(RequestView::GetMetadata);
    let state_1 = state.after(reply_1);
    lemma_exchange::<FetchKey<'static>>(state_1, card_1, 9);
    if state_1.pending() is Some {
        let (card_2, reply_2) = card_1.serve(RequestView::Read(object));
        let state_2 = state_1.after(reply_2);
        lemma_exchange::<FetchKey<'static>>(state_2, card_2, 8);
        if state_2.pending() is Some {
            let (card_3, reply_3) = card_2.serve(RequestView::GetItem(source.item()));
            lemma_exchange::<FetchKey<'static>>(state_2.after(reply_3), card_3, 7);
        }
    }
}

/// A recovery fails where the metadata of the management slot name an algorithm that is no
/// management algorithm.
pub proof fn law_fetch_of_other_algorithm(source: SourceView)
    ensures
        FetchState::start(source).after(ReplyView::Algorithm(SlotAlgorithmId::Other)).outcome()
            == Some(Err::<KeyView, Error>(Error::InvalidObject)),
{
}

/// The end of `set_manual`, from where the protected data is read, on any card.
proof fn lemma_manual_protected_part(state: ManualState, card: Card, exchanges: nat)
    requires
        state.phase == ManualPhase::ReadProtected,
        exchanges >= 3,
    ensures
        ({
            let after = run::<SetManual>(state, card, exchanges).1;
            let written = {
                &&& (card.refuses)(RequestView::Read(Object::Protected)) is None
                &&& card.stored.contains_key(Object::Protected)
                &&& (card.refuses)(
                    RequestView::SetItem { item: Item::ProtectedMgm, value: seq![] },
                ) is None
                &&& (card.refuses)(RequestView::Write(Object::Protected)) is None
            };
            if written {
                after.stored == card.stored.insert(
                    Object::Protected,
                    card.stored[Object::Protected].remove(Item::ProtectedMgm),
                )
            } else {
                after.stored == card.stored
            }
        }),
{
    lemma_exchange::<SetManual>(state, card, exchanges);
    let (card_1, reply_1) = card.serve(RequestView::Read(Object::Protected));
    let state_1 = state.after(reply_1);
    lemma_exchange::<SetManual>(state_1, card_1, (exchanges - 1) as nat);
    if state_1.pending() is Some {
        let request_2 = RequestView::SetItem { item: Item::ProtectedMgm, value: seq![] };
        let (card_2, reply_2) = card_1.serve(request_2);
        let state_2 = state_1.after(reply_2);
        lemma_exchange::<SetManual>(state_2, card_2, (exchanges - 2) as nat);
        if state_2.pending() is Some {
            let (card_3, reply_3) = card_2.serve(RequestView::Write(Object::Protected));
            let state_3 = state_2.after(reply_3);
            assert(state_3.pending() is None);
        }
    }
}

/// The middle of `set_manual`, from where the salt is removed to where the admin data has been
/// written, on any card.
proof fn lemma_manual_salt_part(state: ManualState, card: Card, exchanges: nat) -> (r: (
    ManualState,
    Card,
))
    requires
        state.phase == ManualPhase::ClearSalt,
        exchanges >= 5,
    ensures
        run::<SetManual>(state, card, exchanges) == run::<SetManual>(
            r.0,
            r.1,
            (exchanges - 2) as nat,
        ),
        r.0.phase == ManualPhase::ReadProtected,
        r.1.refuses == card.refuses,
        ({
            let items = card.items(Object::Admin);
            let unsalted = if (card.refuses)(
                RequestView::SetItem { item: Item::AdminSalt, value: seq![] },
            ) is None {
                items.remove(Item::AdminSalt)
            } else {
                items
            };
            if (card.refuses)(RequestView::Write(Object::Admin)) is None {
                r.1.stored == card.stored.insert(Object::Admin, unsalted)
            } else {
                r.1.stored == card.stored
            }
        }),
{
    lemma_exchange::<SetManual>(state, card, exchanges);
    let request_1 = RequestView::SetItem { item: Item::AdminSalt, value: seq![] };
    let (card_1, reply_1) = card.serve(request_1);
    let state_1 = state.after(reply_1);
    lemma_exchange::<SetManual>(state_1, card_1, (exchanges - 1) as nat);
    let (card_2, reply_2) = card_1.serve(RequestView::Write(Object::Admin));
    (state_1.after(reply_2), card_2)
}

/// What `set_manual` leaves on a card that accepts the key, whatever else it refuses.
///
/// The admin data is changed where it can be read and written: the bit for a protected key is
/// cleared, if the flags are one byte that can be looked up and set, and the salt is removed, if
/// it can be. The protected data is changed where it can be read and written and the key can be
/// removed: then the key is removed. Nothing else changes.
pub proof fn law_set_manual_metadata(key: MgmKey, require_touch: bool, card: Card)
    requires
        (card.refuses)(RequestView::SetMgmKey { key: key@, require_touch }) is None,
    ensures
        ({
            let after = run_set_manual(key@, require_touch, card).1;
            let admin = card.stored[Object::Admin];
            let protected = card.stored[Object::Protected];
            let admin_written = {
                &&& (card.refuses)(RequestView::Read(Object::Admin)) is None
                &&& (card.refuses)(RequestView::Write(Object::Admin)) is None
            };
            let clear_flags = RequestView::SetItem {
                item: Item::AdminFlags1,
                value: seq![admin[Item::AdminFlags1][0] & 0xFD],
            };
            let flagged = if {
                &&& (card.refuses)(RequestView::GetItem(Item::AdminFlags1)) is None
                &&& admin.contains_key(Item::AdminFlags1)
                &&& admin[Item::AdminFlags1].len() == 1
                &&& (card.refuses)(clear_flags) is None
            } {
                admin.insert(Item::AdminFlags1, seq![admin[Item::AdminFlags1][0] & 0xFD])
            } else {
                admin
            };
            let unsalted = if (card.refuses)(
                RequestView::SetItem { item: Item::AdminSalt, value: seq![] },
            ) is None {
                flagged.remove(Item::AdminSalt)
            } else {
                flagged
            };
            let protected_written = {
                &&& (card.refuses)(RequestView::Read(Object::Protected)) is None
                &&& (card.refuses)(
                    RequestView::SetItem { item: Item::ProtectedMgm, value: seq![] },
                ) is None
                &&& (card.refuses)(RequestView::Write(Object::Protected)) is None
            };
            &&& after.stored.dom() == card.stored.dom()
            &&& card.stored.contains_key(Object::Admin) ==> after.stored[Object::Admin] == (
            if admin_written {
                unsalted
            } else {
                admin
            })
            &&& card.stored.contains_key(Object::Protected) ==> after.stored[Object::Protected] == (
            if protected_written {
                protected.remove(Item::ProtectedMgm)
            } else {
                protected
            })
        }),
{
    let state = ManualState::start(key@, require_touch);
    lemma_exchange::<SetManual>(state, card, 10);
    let (card_1, reply_1) = card.serve(RequestView::SetMgmKey { key: key@, require_touch });
    let state_1 = state.after(reply_1);
    lemma_exchange::<SetManual>(state_1, card_1, 9);
    let (card_2, reply_2) = card_1.serve(RequestView::Read(Object::Admin));
    let state_2 = state_1.after(reply_2);
    if state_2.phase == ManualPhase::ReadProtected {
        lemma_manual_protected_part(state_2, card_2, 8);
    } else {
        lemma_exchange::<SetManual>(state_2, card_2, 8);
        let (card_3, reply_3) = card_2.serve(RequestView::GetItem(Item::AdminFlags1));
        let state_3 = state_2.after(reply_3);
        if state_3.phase == ManualPhase::SetFlags {
            let flags = card.stored[Object::Admin][Item::AdminFlags1][0];
            assert(flags & !ADMIN_FLAGS_1_PROTECTED_MGM == flags & 0xFD) by (bit_vector);
            lemma_exchange::<SetManual>(state_3, card_3, 7);
            let request_4 = RequestView::SetItem {
                item: Item::AdminFlags1,
                value: seq![state_3.flags],
            };
            let (card_4, reply_4) = card_3.serve(request_4);
            let (state_6, card_6) = lemma_manual_salt_part(state_3.after(reply_4), card_4, 6);
            lemma_manual_protected_part(state_6, card_6, 4);
        } else {
            let (state_5, card_5) = lemma_manual_salt_part(state_3, card_3, 7);
            lemma_manual_protected_part(state_5, card_5, 5);
        }
    }
}

/// The end of `set_protected`, from where the flags are set, on any card.
proof fn lemma_protected_flags_part(state: ProtectedState, card: Card, exchanges: nat)
    requires
        state.phase == ProtectedPhase::SetFlags,
        exchanges >= 2,
    ensures
        ({
            let after = run::<SetProtected>(state, card, exchanges).1;
            let set_flags = RequestView::SetItem {
                item: Item::AdminFlags1,
                value: seq![state.flags],
            };
            if (card.refuses)(set_flags) is None && (card.refuses)(
                RequestView::Write(Object::Admin),
            ) is None {
                after.stored == card.stored.insert(
                    Object::Admin,
                    card.items(Object::Admin).insert(Item::AdminFlags1, seq![state.flags]),
                )
            } else {
                after.stored == card.stored
            }
        }),
{
    lemma_exchange::<SetProtected>(state, card, exchanges);
    let request_1 = RequestView::SetItem { item: Item::AdminFlags1, value: seq![state.flags] };
    let (card_1, reply_1) = card.serve(request_1);
    let state_1 = state.after(reply_1);
    lemma_exchange::<SetProtected>(state_1, card_1, (exchanges - 1) as nat);
    if state_1.pending() is Some {
        let (card_2, reply_2) = card_1.serve(RequestView::Write(Object::Admin));
        let state_2 = state_1.after(reply_2);
        assert(state_2.pending() is None);
    }
}

/// The end of `set_protected`, from where the admin data is read, on any card.
proof fn lemma_protected_admin_part(state: ProtectedState, card: Card, exchanges: nat)
    requires
        state.phase == ProtectedPhase::ReadAdmin,
        state.flags == 0,
        (card.refuses)(RequestView::Blank(Object::Admin)) is None,
        exchanges >= 5,
    ensures
        run::<SetProtected>(state, card, exchanges).1.stored == with_bit(card, card.stored),
{
    lemma_exchange::<SetProtected>(state, card, exchanges);
    let (card_1, reply_1) = card.serve(RequestView::Read(Object::Admin));
    let state_1 = state.after(reply_1);
    lemma_exchange::<SetProtected>(state_1, card_1, (exchanges - 1) as nat);
    if state_1.phase == ProtectedPhase::GetFlags {
        let (card_2, reply_2) = card_1.serve(RequestView::GetItem(Item::AdminFlags1));
        let state_2 = state_1.after(reply_2);
        lemma_exchange::<SetProtected>(state_2, card_2, (exchanges - 2) as nat);
        let request_3 = RequestView::SetItem { item: Item::AdminSalt, value: seq![] };
        let (card_3, reply_3) = card_2.serve(request_3);
        lemma_protected_flags_part(state_2.after(reply_3), card_3, (exchanges - 3) as nat);
    } else {
        let (card_2, reply_2) = card_1.serve(RequestView::Blank(Object::Admin));
        lemma_protected_flags_part(state_1.after(reply_2), card_2, (exchanges - 2) as nat);
    }
}

/// What is stored, with the bit for a protected key set in the admin data and without a salt
/// in them, as far as the card lets that be done.
spec fn with_bit(card: Card, stored: Map<Object, Map<Item, Seq<u8>>>) -> Map<
    Object,
    Map<Item, Seq<u8>>,
> {
    let readable = (card.refuses)(RequestView::Read(Object::Admin)) is None
        && stored.contains_key(Object::Admin);
    let admin = if readable {
        stored[Object::Admin]
    } else {
        Map::empty()
    };
    let flags: u8 = if (card.refuses)(RequestView::GetItem(Item::AdminFlags1)) is None
        && admin.contains_key(Item::AdminFlags1) && admin[Item::AdminFlags1].len() == 1 {
        admin[Item::AdminFlags1][0]
    } else {
        0
    };
    let unsalted = if readable && (card.refuses)(
        RequestView::SetItem { item: Item::AdminSalt, value: seq![] },
    ) is None {
        admin.remove(Item::AdminSalt)
    } else {
        admin
    };
    let value = seq![flags | ADMIN_FLAGS_1_PROTECTED_MGM];
    let set_flags = RequestView::SetItem { item: Item::AdminFlags1, value };
    let write = RequestView::Write(Object::Admin);
    if (card.refuses)(set_flags) is None && (card.refuses)(write) is None {
        stored.insert(Object::Admin, unsalted.insert(Item::AdminFlags1, value))
    } else {
        stored
    }
}

/// The end of `set_protected`, from where the key is put into the protected data, on any card.
proof fn lemma_protected_store_part(state: ProtectedState, card: Card, exchanges: nat)
    requires
        state.phase == ProtectedPhase::StoreMgm,
        state.flags == 0,
        state.key.bytes.len() > 0,
        (card.refuses)(RequestView::Blank(Object::Admin)) is None,
        exchanges >= 7,
    ensures
        ({
            let after = run::<SetProtected>(state, card, exchanges).1;
            let store = RequestView::SetItem {
                item: Item::ProtectedMgm,
                value: state.key.bytes,
            };
            if (card.refuses)(store) is Some {
                after.stored == with_bit(card, card.stored)
            } else if (card.refuses)(RequestView::Write(Object::Protected)) is Some {
                after.stored == card.stored
            } else {
                after.stored == with_bit(
                    card,
                    card.stored.insert(
                        Object::Protected,
                        card.items(Object::Protected).insert(Item::ProtectedMgm, state.key.bytes),
                    ),
                )
            }
        }),
{
    lemma_exchange::<SetProtected>(state, card, exchanges);
    let request_1 = RequestView::SetItem { item: Item::ProtectedMgm, value: state.key.bytes };
    let (card_1, reply_1) = card.serve(request_1);
    let state_1 = state.after(reply_1);
    if (card.refuses)(request_1) is Some {
        lemma_protected_admin_part(state_1, card_1, (exchanges - 1) as nat);
    } else {
        lemma_exchange::<SetProtected>(state_1, card_1, (exchanges - 1) as nat);
        let (card_2, reply_2) = card_1.serve(RequestView::Write(Object::Protected));
        let state_2 = state_1.after(reply_2);
        if (card.refuses)(RequestView::Write(Object::Protected)) is Some {
            lemma_exchange::<SetProtected>(state_2, card_2, (exchanges - 2) as nat);
        } else {
            lemma_protected_admin_part(state_2, card_2, (exchanges - 2) as nat);
        }
    }
}

/// What `set_protected` leaves on a card that accepts the key, whatever else it refuses, but for
/// starting an object afresh, which asks nothing of the card.
///
/// The protected data is the one that can be read, or a new one, with the key in it, if the key
/// can be put there; if it then cannot be written, nothing changes at all. The admin data is the
/// one that can be read, or a new one, with the bit for a protected key set in the flags, or in
/// zero where they are not one byte that can be looked up, and without the salt, if that can be
/// removed; it is changed if the flags can be set and it can be written. Nothing else changes.
pub proof fn law_set_protected_metadata(key: MgmKey, card: Card)
    requires
        (card.refuses)(RequestView::SetMgmKey { key: key@, require_touch: false }) is None,
        (card.refuses)(RequestView::Blank(Object::Admin)) is None,
        (card.refuses)(RequestView::Blank(Object::Protected)) is None,
    ensures
        ({
            let after = run_set_protected(key@, card).1;
            let protected = if (card.refuses)(RequestView::Read(Object::Protected)) is None
                && card.stored.contains_key(Object::Protected) {
                card.stored[Object::Protected]
            } else {
                Map::empty()
            };
            let key_put = (card.refuses)(
                RequestView::SetItem { item: Item::ProtectedMgm, value: key@.bytes },
            ) is None;
            let key_written = (card.refuses)(RequestView::Write(Object::Protected)) is None;
            let readable = (card.refuses)(RequestView::Read(Object::Admin)) is None
                && card.stored.contains_key(Object::Admin);
            let admin = if readable {
                card.stored[Object::Admin]
            } else {
                Map::empty()
            };
            let flags: u8 = if {
                &&& (card.refuses)(RequestView::GetItem(Item::AdminFlags1)) is None
                &&& admin.contains_key(Item::AdminFlags1)
                &&& admin[Item::AdminFlags1].len() == 1
            } {
                admin[Item::AdminFlags1][0] | 0x02
            } else {
                0x02
            };
            let unsalted = if (card.refuses)(
                RequestView::SetItem { item: Item::AdminSalt, value: seq![] },
            ) is None {
                admin.remove(Item::AdminSalt)
            } else {
                admin
            };
            let bit_written = {
                &&& (card.refuses)(
                    RequestView::SetItem { item: Item::AdminFlags1, value: seq![flags] },
                ) is None
                &&& (card.refuses)(RequestView::Write(Object::Admin)) is None
            };
            let with_key = if key_put {
                card.stored.insert(
                    Object::Protected,
                    protected.insert(Item::ProtectedMgm, key@.bytes),
                )
            } else {
                card.stored
            };
            if key_put && !key_written {
                after.stored == card.stored
            } else if bit_written {
                after.stored == with_key.insert(
                    Object::Admin,
                    unsalted.insert(Item::AdminFlags1, seq![flags]),
                )
            } else {
                after.stored == with_key
            }
        }),
{
    let state = ProtectedState::start(key@);
    lemma_exchange::<SetProtected>(state, card, 10);
    let request_1 = RequestView::SetMgmKey { key: key@, require_touch: false };
    let (card_1, reply_1) = card.serve(request_1);
    let state_1 = state.after(reply_1);
    lemma_exchange::<SetProtected>(state_1, card_1, 9);
    let (card_2, reply_2) = card_1.serve(RequestView::Read(Object::Protected));
    let state_2 = state_1.after(reply_2);
    if state_2.phase == ProtectedPhase::StoreMgm {
        lemma_protected_store_part(state_2, card_2, 8);
    } else {
        lemma_exchange::<SetProtected>(state_2, card_2, 8);
        let (card_3, reply_3) = card_2.serve(RequestView::Blank(Object::Protected));
        lemma_protected_store_part(state_2.after(reply_3), card_3, 7);
    }
    assert(0u8 | ADMIN_FLAGS_1_PROTECTED_MGM == 0x02) by (bit_vector);
    assert(Map::<Item, Seq<u8>>::empty().remove(Item::AdminSalt) =~= Map::empty());
}

/// A reply that is not of the kind that the request calls for changes nothing: a request for
/// an item calls for a value, a request for metadata calls for an algorithm, and no other
/// request calls for either. Once a procedure has finished, no reply changes anything.
pub proof fn law_other_replies_change_nothing(
    manual: ManualState,
    protected: ProtectedState,
    fetch: FetchState,
    reply: ReplyView,
)
    ensures
        ({
            let calls_for_other = |pending: Option<RequestView>|
                match (pending, reply) {
                    (None, _) => true,
                    (_, ReplyView::Failed(_)) => false,
                    (Some(RequestView::GetItem(_)), ReplyView::Value(_)) => false,
                    (Some(RequestView::GetItem(_)), _) => true,
                    (Some(RequestView::GetMetadata), ReplyView::Algorithm(_)) => false,
                    (Some(RequestView::GetMetadata), _) => true,
                    (Some(_), ReplyView::Done) => false,
                    (Some(_), _) => true,
                };
            &&& calls_for_other(manual.pending()) ==> manual.after(reply) == manual
            &&& calls_for_other(protected.pending()) ==> protected.after(reply) == protected
            &&& calls_for_other(fetch.pending()) ==> fetch.after(reply) == fetch
            &&& manual.pending() is None <==> manual.outcome() is Some
            &&& protected.pending() is None <==> protected.outcome() is Some
            &&& fetch.pending() is None <==> fetch.outcome() is Some
        }),
{
}

/// Each procedure starts with what it was asked for: `set_manual` with the key and the touch
/// policy, `set_protected` with the key, `get_derived` with the whole PIN, and `set_default`
/// with the 3DES key of the bytes `1` to `8` three times over, to be used without a touch.
pub proof fn law_procedures_start_as_asked(
    key: &MgmKey,
    require_touch: bool,
    pin: &[u8],
    manual: SetManual,
    default: SetManual,
    protected: SetProtected,
    derived_fetch: FetchKey<'_>,
    protected_fetch: FetchKey<'static>,
)
    requires
        call_ensures(MgmKey::set_manual, (key, require_touch), manual),
        call_ensures(MgmKey::set_default, (), default),
        call_ensures(MgmKey::set_protected, (key,), protected),
        call_ensures(MgmKey::get_derived, (pin,), derived_fetch),
        call_ensures(MgmKey::get_protected, (), protected_fetch),
    ensures
        manual.state() == ManualState::start(key@, require_touch),
        default.state() == ManualState::start(
            KeyView {
                algo: MgmAlgorithmId::ThreeDes,
                bytes: Seq::new(24, |i: int| (i % 8 + 1) as u8),
            },
            false,
        ),
        protected.state() == ProtectedState::start(key@),
        derived_fetch.state() == FetchState::start(SourceView::Derived { pin: pin@ }),
        protected_fetch.state() == FetchState::start(SourceView::Protected),
{
    assert(DEFAULT_KEY_BYTES@ =~= Seq::new(24, |i: int| (i % 8 + 1) as u8));
}

} // verus!

//! What the procedures achieve on a card.
//!
//! A card is modelled by its management key, by the metadata that it stores, by the working
//! copies of that metadata, and by the requests that it refuses. The laws speak of what a
//! procedure, run to its end, leaves on such a card, and of what it comes to.
use crate::algorithm::{MgmAlgorithmId, SlotAlgorithmId};
use crate::card::{
    answers, Item, Object, ReplyView, RequestView, ADMIN_FLAGS_1_PROTECTED_MGM,
};
use crate::error::Error;
use crate::fetch::{FetchKey, FetchPhase, FetchState, SourceView};
use crate::key::{typed_key, KeyView, MgmKey, DEFAULT_KEY_BYTES};
use crate::procedure::Procedure;
use crate::set_manual::{ManualPhase, ManualState, SetManual};
use crate::set_protected::{ProtectedPhase, ProtectedState, SetProtected};
use vstd::prelude::*;

verus! {

/// A card, and the connection to it.
pub struct Card {
    /// The management key.
    pub key: KeyView,
    /// Whether using the management key takes a touch.
    pub require_touch: bool,
    /// The items of the metadata objects that the card stores.
    pub stored: Map<Object, Map<Item, Seq<u8>>>,
    /// The items of the working copies.
    pub working: Map<Object, Map<Item, Seq<u8>>>,
    /// The failure that is reported of an object or an item that is not there.
    pub missing: Error,
    /// The requests that are refused, each with the failure that is reported; `None` for
    /// one that is carried out.
    pub refuses: spec_fn(RequestView) -> Option<Error>,
}

impl Card {
    /// The card refuses nothing, but perhaps to tell its metadata: older firmware does not
    /// know that request.
    pub open spec fn willing(self) -> bool {
        forall|request: RequestView|
            request !is GetMetadata ==> (#[trigger] (self.refuses)(request)) is None
    }

    /// What the card says when it is asked for the metadata of the management slot.
    pub open spec fn metadata(self) -> Result<SlotAlgorithmId, Error> {
        match (self.refuses)(RequestView::GetMetadata) {
            Some(e) => Err(e),
            None => Ok(SlotAlgorithmId::Management(self.key.algo)),
        }
    }

    /// The items of the working copy of an object.
    pub open spec fn items(self, object: Object) -> Map<Item, Seq<u8>> {
        if self.working.contains_key(object) {
            self.working[object]
        } else {
            Map::empty()
        }
    }

    /// The card with other items in the working copy of an object.
    pub open spec fn with_items(self, object: Object, items: Map<Item, Seq<u8>>) -> Card {
        Card { working: self.working.insert(object, items), ..self }
    }

    /// What a request that is not refused makes of the card, and the reply.
    pub open spec fn carry_out(self, request: RequestView) -> (Card, ReplyView) {
        match request {
            RequestView::GetMetadata => (
                self,
                ReplyView::Algorithm(SlotAlgorithmId::Management(self.key.algo)),
            ),
            RequestView::SetMgmKey { key, require_touch } => (
                Card { key, require_touch, ..self },
                ReplyView::Done,
            ),
            RequestView::Read(object) => if self.stored.contains_key(object) {
                (self.with_items(object, self.stored[object]), ReplyView::Done)
            } else {
                (self, ReplyView::Failed(self.missing))
            },
            RequestView::Blank(object) => (self.with_items(object, Map::empty()), ReplyView::Done),
            RequestView::GetItem(item) => if self.items(item.spec_object()).contains_key(item) {
                (self, ReplyView::Value(self.items(item.spec_object())[item]))
            } else {
                (self, ReplyView::Failed(self.missing))
            },
            RequestView::SetItem { item, value } => (
                self.with_items(
                    item.spec_object(),
                    if value.len() == 0 {
                        self.items(item.spec_object()).remove(item)
                    } else {
                        self.items(item.spec_object()).insert(item, value)
                    },
                ),
                ReplyView::Done,
            ),
            RequestView::Write(object) => (
                Card { stored: self.stored.insert(object, self.items(object)), ..self },
                ReplyView::Done,
            ),
        }
    }

    /// What a request makes of the card, and the reply.
    pub open spec fn serve(self, request: RequestView) -> (Card, ReplyView) {
        match (self.refuses)(request) {
            Some(e) => (self, ReplyView::Failed(e)),
            None => self.carry_out(request),
        }
    }
}

/// The state of a procedure and the card, after at most `exchanges` exchanges.
pub open spec fn run<P: Procedure>(state: P::State, card: Card, exchanges: nat) -> (P::State, Card)
    decreases exchanges,
{
    match P::pending(state) {
        Some(request) => if exchanges == 0 {
            (state, card)
        } else {
            let (next_card, reply) = card.serve(request);
            run::<P>(P::after(state, reply), next_card, (exchanges - 1) as nat)
        },
        None => (state, card),
    }
}

/// No procedure takes more exchanges than this.
pub open spec fn enough() -> nat {
    10
}

/// `set_manual` of a key, run on a card: the outcome, and what becomes of the card.
pub open spec fn run_set_manual(key: KeyView, require_touch: bool, card: Card) -> (
    Option<Result<(), Error>>,
    Card,
) {
    let (state, after) = run::<SetManual>(ManualState::start(key, require_touch), card, enough());
    (state.outcome(), after)
}

/// `set_protected` of a key, run on a card: the outcome, and what becomes of the card.
pub open spec fn run_set_protected(key: KeyView, card: Card) -> (Option<Result<(), Error>>, Card) {
    let (state, after) = run::<SetProtected>(ProtectedState::start(key), card, enough());
    (state.outcome(), after)
}

/// `get_derived` or `get_protected`, run on a card: the outcome, and what becomes of the
/// card.
pub open spec fn run_fetch(source: SourceView, card: Card) -> (
    Option<Result<KeyView, Error>>,
    Card,
) {
    let (state, after) = run::<FetchKey<'static>>(FetchState::start(source), card, enough());
    (state.outcome(), after)
}

/// The one byte of flags among the items of the admin data, if there is one.
pub open spec fn flags_of(items: Map<Item, Seq<u8>>) -> Option<u8> {
    if items.contains_key(Item::AdminFlags1) && items[Item::AdminFlags1].len() == 1 {
        Some(items[Item::AdminFlags1][0])
    } else {
        None
    }
}

/// The items of an object that a card stores; none, if it does not store it.
pub open spec fn stored_items(
    stored: Map<Object, Map<Item, Seq<u8>>>,
    object: Object,
) -> Map<Item, Seq<u8>> {
    if stored.contains_key(object) {
        stored[object]
    } else {
        Map::empty()
    }
}

/// The metadata without the traces of derived and of PIN-protected keys: without the salt,
/// without the bit for a protected key, and without a key. An object that is not there is
/// not made.
pub open spec fn wiped(stored: Map<Object, Map<Item, Seq<u8>>>) -> Map<
    Object,
    Map<Item, Seq<u8>>,
> {
    Map::new(
        |object: Object| stored.contains_key(object),
        |object: Object|
            match object {
                Object::Admin => match flags_of(stored[object]) {
                    Some(flags) => stored[object].insert(
                        Item::AdminFlags1,
                        seq![flags & !ADMIN_FLAGS_1_PROTECTED_MGM],
                    ),
                    None => stored[object],
                }.remove(Item::AdminSalt),
                Object::Protected => stored[object].remove(Item::ProtectedMgm),
            },
    )
}

/// The metadata with a PIN-protected key: with the key, with the bit that says so, and
/// without a salt.
pub open spec fn protecting(stored: Map<Object, Map<Item, Seq<u8>>>, key: KeyView) -> Map<
    Object,
    Map<Item, Seq<u8>>,
> {
    let admin = stored_items(stored, Object::Admin);
    let flags: u8 = match flags_of(admin) {
        Some(flags) => flags,
        None => 0,
    };
    stored.insert(
        Object::Protected,
        stored_items(stored, Object::Protected).insert(Item::ProtectedMgm, key.bytes),
    ).insert(
        Object::Admin,
        admin.remove(Item::AdminSalt).insert(
            Item::AdminFlags1,
            seq![flags | ADMIN_FLAGS_1_PROTECTED_MGM],
        ),
    )
}

/// Clearing the bit for a protected key clears it and no other; setting it sets it and no
/// other.
pub proof fn law_protected_bit(flags: u8)
    ensures
        (flags & !ADMIN_FLAGS_1_PROTECTED_MGM) & ADMIN_FLAGS_1_PROTECTED_MGM == 0,
        (flags & !ADMIN_FLAGS_1_PROTECTED_MGM) & !ADMIN_FLAGS_1_PROTECTED_MGM == flags
            & !ADMIN_FLAGS_1_PROTECTED_MGM,
        (flags | ADMIN_FLAGS_1_PROTECTED_MGM) & ADMIN_FLAGS_1_PROTECTED_MGM
            == ADMIN_FLAGS_1_PROTECTED_MGM,
        (flags | ADMIN_FLAGS_1_PROTECTED_MGM) & !ADMIN_FLAGS_1_PROTECTED_MGM == flags
            & !ADMIN_FLAGS_1_PROTECTED_MGM,
{
    assert((flags & !ADMIN_FLAGS_1_PROTECTED_MGM) & ADMIN_FLAGS_1_PROTECTED_MGM == 0 && (flags
        & !ADMIN_FLAGS_1_PROTECTED_MGM) & !ADMIN_FLAGS_1_PROTECTED_MGM == flags
        & !ADMIN_FLAGS_1_PROTECTED_MGM && (flags | ADMIN_FLAGS_1_PROTECTED_MGM)
        & ADMIN_FLAGS_1_PROTECTED_MGM == ADMIN_FLAGS_1_PROTECTED_MGM && (flags
        | ADMIN_FLAGS_1_PROTECTED_MGM) & !ADMIN_FLAGS_1_PROTECTED_MGM == flags
        & !ADMIN_FLAGS_1_PROTECTED_MGM) by (bit_vector);
}

/// How many exchanges `set_manual` has ahead of it, at most.
pub open spec fn manual_rank(phase: ManualPhase) -> nat {
    match phase {
        ManualPhase::SetKey => 9,
        ManualPhase::ReadAdmin => 8,
        ManualPhase::GetFlags => 7,
        ManualPhase::SetFlags => 6,
        ManualPhase::ClearSalt => 5,
        ManualPhase::WriteAdmin => 4,
        ManualPhase::ReadProtected => 3,
        ManualPhase::ClearMgm => 2,
        ManualPhase::WriteProtected => 1,
        ManualPhase::Finished(_) => 0,
    }
}

/// How many exchanges `set_protected` has ahead of it, at most.
pub open spec fn protected_rank(phase: ProtectedPhase) -> nat {
    match phase {
        ProtectedPhase::SetKey => 10,
        ProtectedPhase::ReadProtected => 9,
        ProtectedPhase::BlankProtected => 8,
        ProtectedPhase::StoreMgm => 7,
        ProtectedPhase::WriteProtected => 6,
        ProtectedPhase::ReadAdmin => 5,
        ProtectedPhase::GetFlags => 4,
        ProtectedPhase::ClearSalt => 3,
        ProtectedPhase::BlankAdmin => 3,
        ProtectedPhase::SetFlags => 2,
        ProtectedPhase::WriteAdmin => 1,
        ProtectedPhase::Finished(_) => 0,
    }
}

/// How many exchanges the recovery of a key has ahead of it, at most.
pub open spec fn fetch_rank(phase: FetchPhase<KeyView>) -> nat {
    match phase {
        FetchPhase::Query => 3,
        FetchPhase::Read(_) => 2,
        FetchPhase::GetItem(_) => 1,
        FetchPhase::Finished(_) => 0,
    }
}

/// Every reply of the right kind brings `set_manual` nearer to its end, whatever it says.
pub proof fn law_set_manual_ends(state: ManualState, reply: ReplyView)
    ensures
        manual_rank(state.phase) <= enough(),
        state.pending() matches Some(request) && answers(request, reply) ==> manual_rank(
            state.after(reply).phase,
        ) < manual_rank(state.phase),
{
}

/// Every reply of the right kind brings `set_protected` nearer to its end, whatever it says.
pub proof fn law_set_protected_ends(state: ProtectedState, reply: ReplyView)
    ensures
        protected_rank(state.phase) <= enough(),
        state.pending() matches Some(request) && answers(request, reply) ==> protected_rank(
            state.after(reply).phase,
        ) < protected_rank(state.phase),
{
}

/// Every reply of the right kind brings the recovery of a key nearer to its end, whatever it says.
pub proof fn law_fetch_ends(state: FetchState, reply: ReplyView)
    ensures
        fetch_rank(state.phase) <= enough(),
        state.pending() matches Some(request) && answers(request, reply) ==> fetch_rank(
            state.after(reply).phase,
        ) < fetch_rank(state.phase),
{
}

/// The first exchange of a run.
pub(crate) proof fn lemma_exchange<P: Procedure>(state: P::State, card: Card, exchanges: nat)
    requires
        exchanges > 0,
    ensures
        P::pending(state) matches Some(request) ==> run::<P>(state, card, exchanges) == run::<P>(
            P::after(state, card.serve(request).1),
            card.serve(request).0,
            (exchanges - 1) as nat,
        ),
        P::pending(state) is None ==> run::<P>(state, card, exchanges) == (state, card),
{
}

/// The protected data without a key, where it is there.
spec fn without_mgm(stored: Map<Object, Map<Item, Seq<u8>>>) -> Map<Object, Map<Item, Seq<u8>>> {
    if stored.contains_key(Object::Protected) {
        stored.insert(Object::Protected, stored[Object::Protected].remove(Item::ProtectedMgm))
    } else {
        stored
    }
}

/// The end of `set_manual`, from where the protected data is read.
proof fn lemma_manual_protected_part(state: ManualState, card: Card, exchanges: nat)
    requires
        card.willing(),
        state.phase == ManualPhase::ReadProtected,
        exchanges >= 3,
    ensures
        ({
            let (end, after) = run::<SetManual>(state, card, exchanges);
            &&& end.outcome() == Some(Ok::<(), Error>(()))
            &&& after.key == card.key
            &&& after.require_touch == card.require_touch
            &&& after.stored =~= without_mgm(card.stored)
        }),
{
    lemma_exchange::<SetManual>(state, card, exchanges);
    let (card_1, reply_1) = card.serve(RequestView::Read(Object::Protected));
    let state_1 = state.after(reply_1);
    let n_1 = (exchanges - 1) as nat;
    lemma_exchange::<SetManual>(state_1, card_1, n_1);
    if card.stored.contains_key(Object::Protected) {
        let request_2 = RequestView::SetItem { item: Item::ProtectedMgm, value: seq![] };
        let (card_2, reply_2) = card_1.serve(request_2);
        let state_2 = state_1.after(reply_2);
        let n_2 = (exchanges - 2) as nat;
        lemma_exchange::<SetManual>(state_2, card_2, n_2);
        let (card_3, reply_3) = card_2.serve(RequestView::Write(Object::Protected));
        let state_3 = state_2.after(reply_3);
        assert(state_3.outcome() == Some(Ok::<(), Error>(())));
    }
}

/// The end of `set_manual`, from where the salt is removed.
proof fn lemma_manual_salt_part(state: ManualState, card: Card, exchanges: nat)
    requires
        card.willing(),
        state.phase == ManualPhase::ClearSalt,
        exchanges >= 5,
    ensures
        ({
            let (end, after) = run::<SetManual>(state, card, exchanges);
            &&& end.outcome() == Some(Ok::<(), Error>(()))
            &&& after.key == card.key
            &&& after.require_touch == card.require_touch
            &&& after.stored =~= without_mgm(
                card.stored.insert(
                    Object::Admin,
                    card.items(Object::Admin).remove(Item::AdminSalt),
                ),
            )
        }),
{
    lemma_exchange::<SetManual>(state, card, exchanges);
    let request_1 = RequestView::SetItem { item: Item::AdminSalt, value: seq![] };
    let (card_1, reply_1) = card.serve(request_1);
    let state_1 = state.after(reply_1);
    lemma_exchange::<SetManual>(state_1, card_1, (exchanges - 1) as nat);
    let (card_2, reply_2) = card_1.serve(RequestView::Write(Object::Admin));
    let state_2 = state_1.after(reply_2);
    lemma_manual_protected_part(state_2, card_2, (exchanges - 2) as nat);
}

/// On a willing card, `set_manual` succeeds: the key and the touch policy are
/// as asked, and any metadata related to derived and PIN-protected management keys is wiped,
/// while all other metadata is kept.
pub proof fn law_set_manual_wipes(key: MgmKey, require_touch: bool, card: Card)
    requires
        card.willing(),
    ensures
        ({
            let (outcome, after) = run_set_manual(key@, require_touch, card);
            &&& outcome == Some(Ok::<(), Error>(()))
            &&& after.key == key@
            &&& after.require_touch == require_touch
            &&& after.stored == wiped(card.stored)
        }),
{
    let state = ManualState::start(key@, require_touch);
    lemma_exchange::<SetManual>(state, card, enough());
    let (card_1, reply_1) = card.serve(RequestView::SetMgmKey { key: key@, require_touch });
    let state_1 = state.after(reply_1);
    lemma_exchange::<SetManual>(state_1, card_1, 9);
    let (card_2, reply_2) = card_1.serve(RequestView::Read(Object::Admin));
    let state_2 = state_1.after(reply_2);
    if card.stored.contains_key(Object::Admin) {
        lemma_exchange::<SetManual>(state_2, card_2, 8);
        let (card_3, reply_3) = card_2.serve(RequestView::GetItem(Item::AdminFlags1));
        let state_3 = state_2.after(reply_3);
        if flags_of(card.stored[Object::Admin]) is Some {
            lemma_exchange::<SetManual>(state_3, card_3, 7);
            let request_4 = RequestView::SetItem {
                item: Item::AdminFlags1,
                value: seq![state_3.flags],
            };
            let (card_4, reply_4) = card_3.serve(request_4);
            let state_4 = state_3.after(reply_4);
            lemma_manual_salt_part(state_4, card_4, 6);
        } else {
            lemma_manual_salt_part(state_3, card_3, 7);
        }
    } else {
        lemma_manual_protected_part(state_2, card_2, 8);
    }
    assert(run_set_manual(key@, require_touch, card).1.stored =~~= wiped(card.stored));
}

/// The later part of `set_manual` succeeds on every card, and leaves the key alone.
proof fn lemma_manual_after_key(state: ManualState, card: Card, exchanges: nat)
    requires
        state.phase != ManualPhase::SetKey,
        state.phase matches ManualPhase::Finished(outcome) ==> outcome == Ok::<(), Error>(()),
        exchanges >= manual_rank(state.phase),
    ensures
        ({
            let (end, after) = run::<SetManual>(state, card, exchanges);
            &&& end.outcome() == Some(Ok::<(), Error>(()))
            &&& after.key == card.key
            &&& after.require_touch == card.require_touch
        }),
    decreases exchanges,
{
    if exchanges > 0 {
        lemma_exchange::<SetManual>(state, card, exchanges);
        if let Some(request) = state.pending() {
            let (next, reply) = card.serve(request);
            law_set_manual_ends(state, reply);
            lemma_manual_after_key(state.after(reply), next, (exchanges - 1) as nat);
        }
    }
}

/// Whatever a card refuses, `set_manual` succeeds exactly when the key is accepted, and the
/// key and the touch policy are then as asked; otherwise the failure is passed on, and the
/// card is as it was.
pub proof fn law_set_manual_on_any_card(key: MgmKey, require_touch: bool, card: Card)
    ensures
        ({
            let (outcome, after) = run_set_manual(key@, require_touch, card);
            match (card.refuses)(RequestView::SetMgmKey { key: key@, require_touch }) {
                Some(e) => outcome == Some(Err::<(), Error>(e)) && after == card,
                None => outcome == Some(Ok::<(), Error>(())) && after.key == key@
                    && after.require_touch == require_touch,
            }
        }),
{
    let state = ManualState::start(key@, require_touch);
    let (next, reply) = card.serve(RequestView::SetMgmKey { key: key@, require_touch });
    lemma_exchange::<SetManual>(state, card, enough());
    match (card.refuses)(RequestView::SetMgmKey { key: key@, require_touch }) {
        Some(e) => {
            lemma_exchange::<SetManual>(state.after(reply), next, 9);
        },
        None => {
            lemma_manual_after_key(state.after(reply), next, 9);
        },
    }
}

/// The failure that keeps the recovery of a key from the items of the object that it looks
/// into, if there is one: that the algorithm is not to be had, that the object cannot be read
/// or is not there, or that the lookup of the item is refused.
pub open spec fn obstacle(source: SourceView, card: Card) -> Option<Error> {
    let object = source.item().spec_object();
    match MgmAlgorithmId::spec_query(card.metadata()) {
        Err(e) => Some(e),
        Ok(_) => match (card.refuses)(RequestView::Read(object)) {
            Some(e) => Some(e),
            None => if card.stored.contains_key(object) {
                (card.refuses)(RequestView::GetItem(source.item()))
            } else {
                Some(card.missing)
            },
        },
    }
}

/// On every card, the recovery of a key comes to this: if no obstacle is in the way and the
/// card stores the item that the key is made of, the key is made of that item, for the
/// algorithm that the card's metadata tells, or for 3DES where the card does not know the
/// request for metadata. Otherwise the failure is reported.
pub proof fn law_fetch_on_any_card(source: SourceView, card: Card)
    ensures
        run_fetch(source, card).0 == Some(
            match (obstacle(source, card), MgmAlgorithmId::spec_query(card.metadata())) {
                (None, Ok(algo)) => {
                    let items = card.stored[source.item().spec_object()];
                    if items.contains_key(source.item()) {
                        source.key(algo, items[source.item()])
                    } else {
                        Err(card.missing)
                    }
                },
                (None, Err(e)) => Err(e),
                (Some(e), _) => Err(e),
            },
        ),
        card.metadata() == Err::<SlotAlgorithmId, Error>(Error::NotSupported)
            ==> MgmAlgorithmId::spec_query(card.metadata()) == Ok::<MgmAlgorithmId, Error>(
            MgmAlgorithmId::ThreeDes,
        ),
{
    let object = source.item().spec_object();
    let state = FetchState::start(source);
    lemma_exchange::<FetchKey<'static>>(state, card, enough());
    let (card_1, reply_1) = card.serve(RequestView::GetMetadata);
    let state_1 = state.after(reply_1);
    lemma_exchange::<FetchKey<'static>>(state_1, card_1, 9);
    if MgmAlgorithmId::spec_query(card.metadata()) is Ok {
        let (card_2, reply_2) = card_1.serve(RequestView::Read(object));
        let state_2 = state_1.after(reply_2);
        lemma_exchange::<FetchKey<'static>>(state_2, card_2, 8);
        if reply_2 is Done {
            let (card_3, reply_3) = card_2.serve(RequestView::GetItem(source.item()));
            let state_3 = state_2.after(reply_3);
            lemma_exchange::<FetchKey<'static>>(state_3, card_3, 7);
        }
    }
}

/// Recovering a key changes nothing on the card, whatever the card refuses; and it comes to
/// an end.
pub proof fn law_fetch_changes_nothing(source: SourceView, card: Card)
    ensures
        ({
            let (outcome, after) = run_fetch(source, card);
            &&& outcome is Some
            &&& after.key == card.key
            &&& after.require_touch == card.require_touch
            &&& after.stored == card.stored
        }),
{
    lemma_fetch_changes_nothing(FetchState::start(source), card, enough());
}

/// The rest of a recovery changes nothing on the card.
proof fn lemma_fetch_changes_nothing(state: FetchState, card: Card, exchanges: nat)
    requires
        exchanges >= fetch_rank(state.phase),
    ensures
        ({
            let (end, after) = run::<FetchKey<'static>>(state, card, exchanges);
            &&& end.outcome() is Some
            &&& after.key == card.key
            &&& after.require_touch == card.require_touch
            &&& after.stored == card.stored
        }),
    decreases exchanges,
{
    if exchanges > 0 {
        lemma_exchange::<FetchKey<'static>>(state, card, exchanges);
        if let Some(request) = state.pending() {
            let (next, reply) = card.serve(request);
            law_fetch_ends(state, reply);
            lemma_fetch_changes_nothing(state.after(reply), next, (exchanges - 1) as nat);
        }
    }
}

/// How far `set_manual` has come with the removal of an item, the salt or the key: the item
/// is out of the working copy when that is written, and out of what is stored from then on.
spec fn going(item: Item, state: ManualState, card: Card) -> bool {
    let object = item.spec_object();
    match (object, state.phase) {
        (Object::Admin, ManualPhase::WriteAdmin) => !card.items(object).contains_key(item),
        (Object::Protected, ManualPhase::WriteProtected) => !card.items(object).contains_key(item),
        (Object::Admin, ManualPhase::ReadProtected)
        | (Object::Admin, ManualPhase::ClearMgm)
        | (Object::Admin, ManualPhase::WriteProtected)
        | (_, ManualPhase::Finished(_)) => !stored_items(card.stored, object).contains_key(item),
        _ => true,
    }
}

/// `set_manual` removes the salt or the key wherever that can be read, removed and written.
proof fn lemma_manual_removes(item: Item, state: ManualState, card: Card, exchanges: nat)
    requires
        item == Item::AdminSalt || item == Item::ProtectedMgm,
        (card.refuses)(RequestView::Read(item.spec_object())) is None,
        (card.refuses)(RequestView::SetItem { item, value: seq![] }) is None,
        (card.refuses)(RequestView::Write(item.spec_object())) is None,
        state.phase != ManualPhase::SetKey,
        going(item, state, card),
        exchanges >= manual_rank(state.phase),
    ensures
        !stored_items(
            run::<SetManual>(state, card, exchanges).1.stored,
            item.spec_object(),
        ).contains_key(item),
    decreases exchanges,
{
    if exchanges > 0 {
        lemma_exchange::<SetManual>(state, card, exchanges);
        if let Some(request) = state.pending() {
            let (next, reply) = card.serve(request);
            law_set_manual_ends(state, reply);
            lemma_manual_removes(item, state.after(reply), next, (exchanges - 1) as nat);
        }
    }
}

/// After `set_manual`, neither a derived nor a PIN-protected key is recovered, whatever the
/// card says of its metadata: what the key was made of is not there any more, unless already
/// an obstacle is in the way. This takes a card that accepts the new key, and that does not
/// refuse to remove the item or to write the object that held it.
pub proof fn law_nothing_to_recover_after_set_manual(
    key: MgmKey,
    require_touch: bool,
    source: SourceView,
    card: Card,
)
    requires
        (card.refuses)(RequestView::SetMgmKey { key: key@, require_touch }) is None,
        (card.refuses)(RequestView::SetItem { item: source.item(), value: seq![] }) is None,
        (card.refuses)(RequestView::Write(source.item().spec_object())) is None,
    ensures
        ({
            let after = run_set_manual(key@, require_touch, card).1;
            &&& run_fetch(source, after).0 == Some(
                Err::<KeyView, Error>(
                    match obstacle(source, after) {
                        Some(e) => e,
                        None => card.missing,
                    },
                ),
            )
            &&& card.willing() && MgmAlgorithmId::spec_query(card.metadata()) is Ok ==> run_fetch(
                source,
                after,
            ).0 == Some(Err::<KeyView, Error>(card.missing))
        }),
{
    let state = ManualState::start(key@, require_touch);
    let after = run_set_manual(key@, require_touch, card).1;
    lemma_card_keeps_its_ways::<SetManual>(state, card, enough());
    law_fetch_on_any_card(source, after);
    if (card.refuses)(RequestView::Read(source.item().spec_object())) is None {
        let (next, reply) = card.serve(RequestView::SetMgmKey { key: key@, require_touch });
        lemma_exchange::<SetManual>(state, card, enough());
        lemma_manual_removes(source.item(), state.after(reply), next, 9);
    }
}

/// What a card refuses, and how it reports what is missing, stays the same.
proof fn lemma_card_keeps_its_ways<P: Procedure>(state: P::State, card: Card, exchanges: nat)
    ensures
        run::<P>(state, card, exchanges).1.refuses == card.refuses,
        run::<P>(state, card, exchanges).1.missing == card.missing,
    decreases exchanges,
{
    if exchanges > 0 {
        lemma_exchange::<P>(state, card, exchanges);
        if let Some(request) = P::pending(state) {
            let (next, reply) = card.serve(request);
            lemma_card_keeps_its_ways::<P>(P::after(state, reply), next, (exchanges - 1) as nat);
        }
    }
}

/// The end of `set_protected`, from where the flags are set.
proof fn lemma_protected_flags_part(state: ProtectedState, card: Card, exchanges: nat)
    requires
        card.willing(),
        state.phase == ProtectedPhase::SetFlags,
        exchanges >= 2,
    ensures
        ({
            let (end, after) = run::<SetProtected>(state, card, exchanges);
            &&& end.outcome() == Some(Ok::<(), Error>(()))
            &&& after.key == card.key
            &&& after.require_touch == card.require_touch
            &&& after.stored =~= card.stored.insert(
                Object::Admin,
                card.items(Object::Admin).insert(Item::AdminFlags1, seq![state.flags]),
            )
        }),
{
    lemma_exchange::<SetProtected>(state, card, exchanges);
    let request_1 = RequestView::SetItem { item: Item::AdminFlags1, value: seq![state.flags] };
    let (card_1, reply_1) = card.serve(request_1);
    let state_1 = state.after(reply_1);
    lemma_exchange::<SetProtected>(state_1, card_1, (exchanges - 1) as nat);
    let (card_2, reply_2) = card_1.serve(RequestView::Write(Object::Admin));
    let state_2 = state_1.after(reply_2);
    assert(state_2.outcome() == Some(Ok::<(), Error>(())));
}

/// The end of `set_protected`, from where the admin data is read.
proof fn lemma_protected_admin_part(state: ProtectedState, card: Card, exchanges: nat)
    requires
        card.willing(),
        state.phase == ProtectedPhase::ReadAdmin,
        state.flags == 0,
        exchanges >= 5,
    ensures
        ({
            let (end, after) = run::<SetProtected>(state, card, exchanges);
            let admin = stored_items(card.stored, Object::Admin);
            let flags: u8 = match flags_of(admin) {
                Some(flags) => flags,
                None => 0,
            };
            &&& end.outcome() == Some(Ok::<(), Error>(()))
            &&& after.key == card.key
            &&& after.require_touch == card.require_touch
            &&& after.stored =~= card.stored.insert(
                Object::Admin,
                admin.remove(Item::AdminSalt).insert(
                    Item::AdminFlags1,
                    seq![flags | ADMIN_FLAGS_1_PROTECTED_MGM],
                ),
            )
        }),
{
    lemma_exchange::<SetProtected>(state, card, exchanges);
    let (card_1, reply_1) = card.serve(RequestView::Read(Object::Admin));
    let state_1 = state.after(reply_1);
    lemma_exchange::<SetProtected>(state_1, card_1, (exchanges - 1) as nat);
    if card.stored.contains_key(Object::Admin) {
        let (card_2, reply_2) = card_1.serve(RequestView::GetItem(Item::AdminFlags1));
        let state_2 = state_1.after(reply_2);
        lemma_exchange::<SetProtected>(state_2, card_2, (exchanges - 2) as nat);
        let request_3 = RequestView::SetItem { item: Item::AdminSalt, value: seq![] };
        let (card_3, reply_3) = card_2.serve(request_3);
        let state_3 = state_2.after(reply_3);
        lemma_protected_flags_part(state_3, card_3, (exchanges - 3) as nat);
    } else {
        let (card_2, reply_2) = card_1.serve(RequestView::Blank(Object::Admin));
        let state_2 = state_1.after(reply_2);
        lemma_protected_flags_part(state_2, card_2, (exchanges - 2) as nat);
        assert(Map::<Item, Seq<u8>>::empty().remove(Item::AdminSalt) =~= Map::empty());
    }
}

/// The end of `set_protected`, from where the key is put into the protected data.
proof fn lemma_protected_store_part(state: ProtectedState, card: Card, exchanges: nat)
    requires
        card.willing(),
        state.phase == ProtectedPhase::StoreMgm,
        state.flags == 0,
        state.key.bytes.len() > 0,
        exchanges >= 7,
    ensures
        ({
            let (end, after) = run::<SetProtected>(state, card, exchanges);
            let stored = card.stored.insert(
                Object::Protected,
                card.items(Object::Protected).insert(Item::ProtectedMgm, state.key.bytes),
            );
            let admin = stored_items(card.stored, Object::Admin);
            let flags: u8 = match flags_of(admin) {
                Some(flags) => flags,
                None => 0,
            };
            &&& end.outcome() == Some(Ok::<(), Error>(()))
            &&& after.key == card.key
            &&& after.require_touch == card.require_touch
            &&& after.stored =~= stored.insert(
                Object::Admin,
                admin.remove(Item::AdminSalt).insert(
                    Item::AdminFlags1,
                    seq![flags | ADMIN_FLAGS_1_PROTECTED_MGM],
                ),
            )
        }),
{
    lemma_exchange::<SetProtected>(state, card, exchanges);
    let request_1 = RequestView::SetItem { item: Item::ProtectedMgm, value: state.key.bytes };
    let (card_1, reply_1) = card.serve(request_1);
    let state_1 = state.after(reply_1);
    lemma_exchange::<SetProtected>(state_1, card_1, (exchanges - 1) as nat);
    let (card_2, reply_2) = card_1.serve(RequestView::Write(Object::Protected));
    let state_2 = state_1.after(reply_2);
    lemma_protected_admin_part(state_2, card_2, (exchanges - 2) as nat);
}

/// On a willing card, `set_protected` succeeds: the key is as asked, to be used
/// without a touch, the protected data holds it, the admin data says so and holds no salt,
/// and all other metadata is kept.
pub proof fn law_set_protected_stores(key: MgmKey, card: Card)
    requires
        card.willing(),
    ensures
        ({
            let (outcome, after) = run_set_protected(key@, card);
            &&& outcome == Some(Ok::<(), Error>(()))
            &&& after.key == key@
            &&& !after.require_touch
            &&& after.stored == protecting(card.stored, key@)
        }),
{
    let state = ProtectedState::start(key@);
    lemma_exchange::<SetProtected>(state, card, enough());
    let request_1 = RequestView::SetMgmKey { key: key@, require_touch: false };
    let (card_1, reply_1) = card.serve(request_1);
    let state_1 = state.after(reply_1);
    lemma_exchange::<SetProtected>(state_1, card_1, 9);
    let (card_2, reply_2) = card_1.serve(RequestView::Read(Object::Protected));
    let state_2 = state_1.after(reply_2);
    if card.stored.contains_key(Object::Protected) {
        lemma_protected_store_part(state_2, card_2, 8);
    } else {
        lemma_exchange::<SetProtected>(state_2, card_2, 8);
        let (card_3, reply_3) = card_2.serve(RequestView::Blank(Object::Protected));
        let state_3 = state_2.after(reply_3);
        lemma_protected_store_part(state_3, card_3, 7);
    }
}

/// The part of `set_protected` after the protected data succeeds on every card, and leaves
/// the key alone.
proof fn lemma_protected_after_data(state: ProtectedState, card: Card, exchanges: nat)
    requires
        protected_rank(state.phase) <= 5,
        state.phase matches ProtectedPhase::Finished(outcome) ==> outcome == Ok::<(), Error>(()),
        exchanges >= protected_rank(state.phase),
    ensures
        ({
            let (end, after) = run::<SetProtected>(state, card, exchanges);
            &&& end.outcome() == Some(Ok::<(), Error>(()))
            &&& after.key == card.key
            &&& after.require_touch == card.require_touch
        }),
    decreases exchanges,
{
    if exchanges > 0 {
        lemma_exchange::<SetProtected>(state, card, exchanges);
        if let Some(request) = state.pending() {
            let (next, reply) = card.serve(request);
            law_set_protected_ends(state, reply);
            lemma_protected_after_data(state.after(reply), next, (exchanges - 1) as nat);
        }
    }
}

/// What `set_protected` comes to, from where the key is put into the protected data.
proof fn lemma_protected_store_on_any_card(state: ProtectedState, card: Card, exchanges: nat)
    requires
        state.phase == ProtectedPhase::StoreMgm,
        exchanges >= 7,
    ensures
        ({
            let (end, after) = run::<SetProtected>(state, card, exchanges);
            &&& end.outcome() == Some(protected_outcome(state.key, card))
            &&& after.key == card.key
            &&& after.require_touch == card.require_touch
        }),
{
    lemma_exchange::<SetProtected>(state, card, exchanges);
    let request_1 = RequestView::SetItem { item: Item::ProtectedMgm, value: state.key.bytes };
    let (card_1, reply_1) = card.serve(request_1);
    let state_1 = state.after(reply_1);
    if (card.refuses)(request_1) is Some {
        lemma_protected_after_data(state_1, card_1, (exchanges - 1) as nat);
    } else {
        lemma_exchange::<SetProtected>(state_1, card_1, (exchanges - 1) as nat);
        let (card_2, reply_2) = card_1.serve(RequestView::Write(Object::Protected));
        let state_2 = state_1.after(reply_2);
        if (card.refuses)(RequestView::Write(Object::Protected)) is Some {
            lemma_exchange::<SetProtected>(state_2, card_2, (exchanges - 2) as nat);
        } else {
            lemma_protected_after_data(state_2, card_2, (exchanges - 2) as nat);
        }
    }
}

/// What `set_protected` comes to once the key is set: it fails where the protected data
/// takes the key but cannot be written.
pub open spec fn protected_outcome(key: KeyView, card: Card) -> Result<(), Error> {
    let store = RequestView::SetItem { item: Item::ProtectedMgm, value: key.bytes };
    match ((card.refuses)(store), (card.refuses)(RequestView::Write(Object::Protected))) {
        (None, Some(e)) => Err(e),
        _ => Ok(()),
    }
}

/// Whatever a card refuses, `set_protected` fails exactly when the key is refused, and then
/// the card is as it was, or when the key is accepted but the protected data that holds it
/// cannot be written; in every other case the key is as asked.
pub proof fn law_set_protected_on_any_card(key: MgmKey, card: Card)
    ensures
        ({
            let (outcome, after) = run_set_protected(key@, card);
            match (card.refuses)(RequestView::SetMgmKey { key: key@, require_touch: false }) {
                Some(e) => outcome == Some(Err::<(), Error>(e)) && after == card,
                None => outcome == Some(protected_outcome(key@, card)) && after.key == key@
                    && !after.require_touch,
            }
        }),
{
    let state = ProtectedState::start(key@);
    let request_1 = RequestView::SetMgmKey { key: key@, require_touch: false };
    let (card_1, reply_1) = card.serve(request_1);
    let state_1 = state.after(reply_1);
    lemma_exchange::<SetProtected>(state, card, enough());
    lemma_exchange::<SetProtected>(state_1, card_1, 9);
    if (card.refuses)(request_1) is None {
        let (card_2, reply_2) = card_1.serve(RequestView::Read(Object::Protected));
        let state_2 = state_1.after(reply_2);
        if state_2.phase == ProtectedPhase::StoreMgm {
            lemma_protected_store_on_any_card(state_2, card_2, 8);
        } else {
            lemma_exchange::<SetProtected>(state_2, card_2, 8);
            let (card_3, reply_3) = card_2.serve(RequestView::Blank(Object::Protected));
            let state_3 = state_2.after(reply_3);
            lemma_protected_store_on_any_card(state_3, card_3, 7);
        }
    }
}

/// How far `set_protected` has come with the key: it is in the working copy when that is
/// written, and in what is stored from then on.
spec fn coming(state: ProtectedState, card: Card) -> bool {
    let items = match state.phase {
        ProtectedPhase::WriteProtected => card.items(Object::Protected),
        _ => stored_items(card.stored, Object::Protected),
    };
    protected_rank(state.phase) <= 6 ==> items.contains_key(Item::ProtectedMgm)
        && items[Item::ProtectedMgm] == state.key.bytes
}

/// `set_protected` stores the key wherever it can be put into the protected data, and that
/// can be written.
proof fn lemma_protected_holds_key(state: ProtectedState, card: Card, exchanges: nat)
    requires
        (card.refuses)(
            RequestView::SetItem { item: Item::ProtectedMgm, value: state.key.bytes },
        ) is None,
        (card.refuses)(RequestView::Write(Object::Protected)) is None,
        state.phase != ProtectedPhase::SetKey,
        state.key.bytes.len() > 0,
        coming(state, card),
        exchanges >= protected_rank(state.phase),
    ensures
        ({
            let after = run::<SetProtected>(state, card, exchanges).1;
            &&& after.stored.contains_key(Object::Protected)
            &&& after.stored[Object::Protected].contains_key(Item::ProtectedMgm)
            &&& after.stored[Object::Protected][Item::ProtectedMgm] == state.key.bytes
        }),
    decreases exchanges,
{
    if exchanges > 0 {
        lemma_exchange::<SetProtected>(state, card, exchanges);
        if let Some(request) = state.pending() {
            let (next, reply) = card.serve(request);
            law_set_protected_ends(state, reply);
            lemma_protected_holds_key(state.after(reply), next, (exchanges - 1) as nat);
        }
    }
}

/// A card whose key is of the given algorithm is taken for one: it tells its metadata, or it
/// does not know that request, and the algorithm is 3DES.
pub open spec fn algorithm_is_found(algo: MgmAlgorithmId, card: Card) -> bool {
    match (card.refuses)(RequestView::GetMetadata) {
        None => true,
        Some(e) => e == Error::NotSupported && algo == MgmAlgorithmId::ThreeDes,
    }
}

/// A key that `set_protected` stored is the key that `get_protected` gives back, unless the
/// recovery itself meets an obstacle; on a willing card it meets none, where the algorithm is
/// found. The key is given back for the algorithm that the card is taken to have: that of the
/// key, if the card tells its metadata, or if the key is a 3DES key and the card does not know
/// the request for metadata.
pub proof fn law_protected_key_is_recovered(key: MgmKey, card: Card)
    requires
        (card.refuses)(RequestView::SetMgmKey { key: key@, require_touch: false }) is None,
        (card.refuses)(
            RequestView::SetItem { item: Item::ProtectedMgm, value: key@.bytes },
        ) is None,
        (card.refuses)(RequestView::Write(Object::Protected)) is None,
    ensures
        ({
            let after = run_set_protected(key@, card).1;
            let recovered = run_fetch(SourceView::Protected, after).0;
            let algo = MgmAlgorithmId::spec_query(after.metadata());
            &&& match obstacle(SourceView::Protected, after) {
                Some(e) => recovered == Some(Err::<KeyView, Error>(e)),
                None => {
                    &&& algo is Ok
                    &&& recovered == Some(typed_key(key@.bytes, algo->Ok_0))
                    &&& algorithm_is_found(key@.algo, card) ==> recovered == Some(
                        Ok::<KeyView, Error>(key@),
                    )
                },
            }
            &&& card.willing() && algorithm_is_found(key@.algo, card) ==> recovered == Some(
                Ok::<KeyView, Error>(key@),
            )
        }),
{
    let state = ProtectedState::start(key@);
    let after = run_set_protected(key@, card).1;
    let (next, reply) = card.serve(RequestView::SetMgmKey { key: key@, require_touch: false });
    law_set_protected_on_any_card(key, card);
    lemma_exchange::<SetProtected>(state, card, enough());
    lemma_protected_holds_key(state.after(reply), next, 9);
    lemma_card_keeps_its_ways::<SetProtected>(state, card, enough());
    law_fetch_on_any_card(SourceView::Protected, after);
}

/// `set_default`, on a willing card, resets the key to the default value, to be
/// used without a touch, and wipes the metadata as `set_manual` does.
pub proof fn law_set_default_resets(card: Card)
    requires
        card.willing(),
    ensures
        ({
            let default_key = KeyView {
                algo: MgmAlgorithmId::ThreeDes,
                bytes: DEFAULT_KEY_BYTES@,
            };
            let (outcome, after) = run_set_manual(default_key, false, card);
            &&& outcome == Some(Ok::<(), Error>(()))
            &&& after.key == default_key
            &&& !after.require_touch
            &&& after.stored == wiped(card.stored)
        }),
{
    law_set_manual_wipes(MgmKey::TDES(DEFAULT_KEY_BYTES), false, card);
}

/// `set_manual` undoes what `set_protected` did to the metadata: it leaves what it would have
/// left without it. This takes a card that stored both objects and one byte of flags, since
/// `set_protected` makes what is not there, and `set_manual` does not take it away again.
pub proof fn law_set_manual_undoes_set_protected(
    protected_key: MgmKey,
    key: MgmKey,
    require_touch: bool,
    card: Card,
)
    requires
        card.willing(),
        card.stored.contains_key(Object::Protected),
        card.stored.contains_key(Object::Admin),
        flags_of(card.stored[Object::Admin]) is Some,
    ensures
        run_set_manual(key@, require_touch, run_set_protected(protected_key@, card).1).1.stored
            == run_set_manual(key@, require_touch, card).1.stored,
{
    let between = run_set_protected(protected_key@, card).1;
    law_set_protected_stores(protected_key, card);
    lemma_card_keeps_its_ways::<SetProtected>(
        ProtectedState::start(protected_key@),
        card,
        enough(),
    );
    law_set_manual_wipes(key, require_touch, card);
    law_set_manual_wipes(key, require_touch, between);
    let flags = card.stored[Object::Admin][Item::AdminFlags1][0];
    assert((flags | ADMIN_FLAGS_1_PROTECTED_MGM) & !ADMIN_FLAGS_1_PROTECTED_MGM == flags
        & !ADMIN_FLAGS_1_PROTECTED_MGM) by {
        law_protected_bit(flags);
    }
    assert(wiped(between.stored)[Object::Admin] =~= wiped(card.stored)[Object::Admin]);
    assert(wiped(between.stored)[Object::Protected] =~= wiped(card.stored)[Object::Protected]);
    assert(wiped(between.stored) =~= wiped(card.stored));
}

} // verus!

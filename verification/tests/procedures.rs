use yubikey_mgm::algorithm::SlotAlgorithmId;
use yubikey_mgm::card::{Item, Object, Reply, Request, APPLET_ID, APPLET_NAME};
use yubikey_mgm::fetch::FetchKey;
use yubikey_mgm::key::DEFAULT_KEY_BYTES;
use yubikey_mgm::procedure::Procedure;
use yubikey_mgm::{Error, MgmAlgorithmId, MgmKey};

const MISSING: Error = Error::Device { code: 404 };
const REFUSED: Error = Error::Device { code: 403 };

type Items = Vec<(Item, Vec<u8>)>;

/// A card that lives in memory, and that refuses the requests with the given names.
struct Card {
    algo: MgmAlgorithmId,
    key: Vec<u8>,
    require_touch: bool,
    stored: Vec<(Object, Items)>,
    working: Vec<(Object, Items)>,
    refused: Vec<&'static str>,
    old_firmware: bool,
    seen: Vec<&'static str>,
}

fn get(objects: &[(Object, Items)], object: Object) -> Option<Items> {
    objects
        .iter()
        .find(|(o, _)| *o == object)
        .map(|(_, items)| items.clone())
}

fn put(objects: &mut Vec<(Object, Items)>, object: Object, items: Items) {
    objects.retain(|(o, _)| *o != object);
    objects.push((object, items));
}

fn item_of(items: &[(Item, Vec<u8>)], item: Item) -> Option<Vec<u8>> {
    items
        .iter()
        .find(|(i, _)| *i == item)
        .map(|(_, value)| value.clone())
}

fn name_of(request: &Request<'_>) -> &'static str {
    match request {
        Request::GetMetadata => "metadata",
        Request::SetMgmKey { .. } => "key",
        Request::Read(Object::Admin) => "read admin",
        Request::Read(Object::Protected) => "read protected",
        Request::Blank(Object::Admin) => "blank admin",
        Request::Blank(Object::Protected) => "blank protected",
        Request::GetItem(Item::AdminFlags1) => "get flags",
        Request::GetItem(Item::AdminSalt) => "get salt",
        Request::GetItem(Item::ProtectedMgm) => "get mgm",
        Request::SetItem { item: Item::AdminFlags1, .. } => "set flags",
        Request::SetItem { item: Item::AdminSalt, .. } => "set salt",
        Request::SetItem { item: Item::ProtectedMgm, .. } => "set mgm",
        Request::Write(Object::Admin) => "write admin",
        Request::Write(Object::Protected) => "write protected",
    }
}

impl Card {
    fn new(stored: Vec<(Object, Items)>) -> Card {
        Card {
            algo: MgmAlgorithmId::Aes128,
            key: vec![0xee; 16],
            require_touch: true,
            stored,
            working: Vec::new(),
            refused: Vec::new(),
            old_firmware: false,
            seen: Vec::new(),
        }
    }

    fn refusing(mut self, refused: &[&'static str]) -> Card {
        self.refused = refused.to_vec();
        self
    }

    /// The card does not know the request for metadata.
    fn with_old_firmware(mut self) -> Card {
        self.old_firmware = true;
        self
    }

    fn stored_item(&self, item: Item) -> Option<Vec<u8>> {
        item_of(&get(&self.stored, item.object())?, item)
    }

    /// Carries out a request; the value of an item comes back in `value`.
    fn serve<'v>(&mut self, request: Request<'_>, value: &'v mut Vec<u8>) -> Reply<'v> {
        let name = name_of(&request);
        self.seen.push(name);
        if self.refused.contains(&name) {
            return Reply::Failed(REFUSED);
        }
        match request {
            Request::GetMetadata if self.old_firmware => Reply::Failed(Error::NotSupported),
            Request::GetMetadata => Reply::Algorithm(SlotAlgorithmId::Management(self.algo)),
            Request::SetMgmKey { key, require_touch } => {
                self.algo = key.algo();
                self.key = key.as_ref().to_vec();
                self.require_touch = require_touch;
                Reply::Done
            }
            Request::Read(object) => match get(&self.stored, object) {
                Some(items) => {
                    put(&mut self.working, object, items);
                    Reply::Done
                }
                None => Reply::Failed(MISSING),
            },
            Request::Blank(object) => {
                put(&mut self.working, object, Vec::new());
                Reply::Done
            }
            Request::GetItem(item) => {
                match get(&self.working, item.object()).and_then(|items| item_of(&items, item)) {
                    Some(found) => {
                        *value = found;
                        Reply::Value(value.as_slice())
                    }
                    None => Reply::Failed(MISSING),
                }
            }
            Request::SetItem { item, value } => {
                let mut items = get(&self.working, item.object()).unwrap();
                items.retain(|(i, _)| *i != item);
                if !value.is_empty() {
                    items.push((item, value.to_vec()));
                }
                put(&mut self.working, item.object(), items);
                Reply::Done
            }
            Request::Write(object) => {
                let items = get(&self.working, object).unwrap();
                put(&mut self.stored, object, items);
                Reply::Done
            }
        }
    }

    fn drive<P: Procedure>(&mut self, procedure: &mut P) {
        loop {
            let mut value = Vec::new();
            let reply = match procedure.request() {
                Some(request) => self.serve(request, &mut value),
                None => return,
            };
            procedure.advance(reply);
        }
    }

    fn set_manual(&mut self, key: &MgmKey, require_touch: bool) -> Result<(), Error> {
        let mut procedure = key.set_manual(require_touch);
        self.drive(&mut procedure);
        procedure.outcome().unwrap()
    }

    fn set_protected(&mut self, key: &MgmKey) -> Result<(), Error> {
        let mut procedure = key.set_protected();
        self.drive(&mut procedure);
        procedure.outcome().unwrap()
    }

    fn fetch(&mut self, mut procedure: FetchKey<'_>) -> Result<(MgmAlgorithmId, Vec<u8>), Error> {
        self.drive(&mut procedure);
        let key = procedure.outcome().unwrap()?;
        Ok((key.algo(), key.as_ref().to_vec()))
    }
}

/// Flags `flags`, a salt, and a protected key.
fn full(flags: &[u8]) -> Vec<(Object, Items)> {
    vec![
        (
            Object::Admin,
            vec![
                (Item::AdminFlags1, flags.to_vec()),
                (Item::AdminSalt, vec![0x33; 16]),
            ],
        ),
        (
            Object::Protected,
            vec![(Item::ProtectedMgm, vec![0x44; 16])],
        ),
    ]
}

#[test]
fn applet() {
    assert_eq!(APPLET_NAME, "YubiKey MGMT");
    assert_eq!(
        APPLET_ID,
        [0xa0, 0x00, 0x00, 0x05, 0x27, 0x47, 0x11, 0x17]
    );
}

#[test]
fn set_manual_wipes_metadata() {
    let mut card = Card::new(full(&[0x83]));
    let key = MgmKey::default_aes();
    assert_eq!(card.set_manual(&key, true), Ok(()));
    assert_eq!(card.algo, MgmAlgorithmId::Aes192);
    assert_eq!(card.key, key.as_ref());
    assert!(card.require_touch);
    assert_eq!(card.stored_item(Item::AdminFlags1), Some(vec![0x81]));
    assert_eq!(card.stored_item(Item::AdminSalt), None);
    assert_eq!(card.stored_item(Item::ProtectedMgm), None);
    assert_eq!(
        card.seen,
        vec![
            "key",
            "read admin",
            "get flags",
            "set flags",
            "set salt",
            "write admin",
            "read protected",
            "set mgm",
            "write protected"
        ]
    );
    // nothing is left to recover
    assert_eq!(card.fetch(MgmKey::get_protected()), Err(MISSING));
    assert_eq!(card.fetch(MgmKey::get_derived(b"123456")), Err(MISSING));
}

#[test]
fn set_manual_leaves_odd_flags_and_missing_objects_alone() {
    let mut card = Card::new(full(&[0x83, 0x01]));
    assert_eq!(card.set_manual(&MgmKey::default(), false), Ok(()));
    assert_eq!(card.stored_item(Item::AdminFlags1), Some(vec![0x83, 0x01]));
    assert_eq!(card.stored_item(Item::AdminSalt), None);

    let mut card = Card::new(Vec::new());
    assert_eq!(card.set_manual(&MgmKey::default(), false), Ok(()));
    assert!(card.stored.is_empty());
    assert_eq!(card.seen, vec!["key", "read admin", "read protected"]);
}

#[test]
fn set_manual_passes_over_what_fails_once_the_key_is_set() {
    for refused in [
        "read admin",
        "get flags",
        "set flags",
        "set salt",
        "write admin",
        "read protected",
        "set mgm",
        "write protected",
    ] {
        let mut card = Card::new(full(&[0x02])).refusing(&[refused]);
        assert_eq!(card.set_manual(&MgmKey::default(), false), Ok(()));
        assert_eq!(card.key, DEFAULT_KEY_BYTES);
        assert!(!card.require_touch);
    }
    // a key that could not be removed is not written back
    let mut card = Card::new(full(&[0x02])).refusing(&["set mgm"]);
    assert_eq!(card.set_manual(&MgmKey::default(), false), Ok(()));
    assert_eq!(card.seen.last(), Some(&"set mgm"));
}

#[test]
fn set_manual_fails_where_the_key_is_refused() {
    let mut card = Card::new(full(&[0x02])).refusing(&["key"]);
    assert_eq!(card.set_manual(&MgmKey::default(), false), Err(REFUSED));
    assert_eq!(card.seen, vec!["key"]);
    assert_eq!(card.key, vec![0xee; 16]);
    assert_eq!(card.stored, full(&[0x02]));
}

#[test]
fn set_default_resets_the_key() {
    let mut card = Card::new(full(&[0xff]));
    let mut procedure = MgmKey::set_default();
    card.drive(&mut procedure);
    assert_eq!(procedure.outcome(), Some(Ok(())));
    assert_eq!(card.algo, MgmAlgorithmId::ThreeDes);
    assert_eq!(card.key, DEFAULT_KEY_BYTES);
    assert!(!card.require_touch);
    assert_eq!(card.stored_item(Item::AdminFlags1), Some(vec![0xfd]));
    assert_eq!(card.stored_item(Item::AdminSalt), None);
    assert_eq!(card.stored_item(Item::ProtectedMgm), None);
}

#[test]
fn set_protected_stores_the_key() {
    let mut card = Card::new(full(&[0x01]));
    let key = MgmKey::default_aes();
    assert_eq!(card.set_protected(&key), Ok(()));
    assert_eq!(card.key, key.as_ref());
    assert!(!card.require_touch);
    assert_eq!(
        card.stored_item(Item::ProtectedMgm),
        Some(key.as_ref().to_vec())
    );
    assert_eq!(card.stored_item(Item::AdminFlags1), Some(vec![0x03]));
    assert_eq!(card.stored_item(Item::AdminSalt), None);
    assert_eq!(
        card.seen,
        vec![
            "key",
            "read protected",
            "set mgm",
            "write protected",
            "read admin",
            "get flags",
            "set salt",
            "set flags",
            "write admin"
        ]
    );
}

#[test]
fn a_protected_key_is_recovered() {
    for stored in [full(&[0x00]), Vec::new()] {
        for key in [MgmKey::default(), MgmKey::default_aes(), MgmKey::generate()] {
            let mut card = Card::new(stored.clone());
            assert_eq!(card.set_protected(&key), Ok(()));
            assert_eq!(
                card.fetch(MgmKey::get_protected()),
                Ok((key.algo(), key.as_ref().to_vec()))
            );
        }
    }
}

#[test]
fn set_protected_starts_afresh_where_there_is_no_metadata() {
    let mut card = Card::new(Vec::new());
    assert_eq!(card.set_protected(&MgmKey::default()), Ok(()));
    assert_eq!(card.stored_item(Item::AdminFlags1), Some(vec![0x02]));
    assert_eq!(
        card.seen,
        vec![
            "key",
            "read protected",
            "blank protected",
            "set mgm",
            "write protected",
            "read admin",
            "blank admin",
            "set flags",
            "write admin"
        ]
    );
    // flags of more than one byte are replaced
    let mut card = Card::new(full(&[0x83, 0x01]));
    assert_eq!(card.set_protected(&MgmKey::default()), Ok(()));
    assert_eq!(card.stored_item(Item::AdminFlags1), Some(vec![0x02]));
}

#[test]
fn set_protected_fails_where_the_key_is_not_stored() {
    let mut card = Card::new(full(&[0x00])).refusing(&["key"]);
    assert_eq!(card.set_protected(&MgmKey::default()), Err(REFUSED));
    assert_eq!(card.seen, vec!["key"]);

    let mut card = Card::new(full(&[0x00])).refusing(&["write protected"]);
    assert_eq!(card.set_protected(&MgmKey::default()), Err(REFUSED));
    assert_eq!(card.key, DEFAULT_KEY_BYTES);
    assert_eq!(card.seen.last(), Some(&"write protected"));

    for refused in [
        "read protected",
        "set mgm",
        "read admin",
        "get flags",
        "set salt",
        "set flags",
        "write admin",
    ] {
        let mut card = Card::new(full(&[0x00])).refusing(&[refused]);
        assert_eq!(card.set_protected(&MgmKey::default()), Ok(()));
        assert_eq!(card.key, DEFAULT_KEY_BYTES);
    }
    // without the flags, the admin data is not written
    let mut card = Card::new(full(&[0x00])).refusing(&["set flags"]);
    assert_eq!(card.set_protected(&MgmKey::default()), Ok(()));
    assert_eq!(card.seen.last(), Some(&"set flags"));
}

#[test]
fn set_manual_undoes_set_protected() {
    let key = MgmKey::default_aes();
    let mut plain = Card::new(full(&[0x05]));
    assert_eq!(plain.set_manual(&key, false), Ok(()));
    let mut card = Card::new(full(&[0x05]));
    assert_eq!(card.set_protected(&MgmKey::default()), Ok(()));
    assert_eq!(card.set_manual(&key, false), Ok(()));
    for item in [Item::AdminFlags1, Item::AdminSalt, Item::ProtectedMgm] {
        assert_eq!(card.stored_item(item), plain.stored_item(item));
    }
}

#[test]
fn a_derived_key_is_recovered() {
    let mut card = Card::new(full(&[0x00]));
    let key = MgmKey::derive(MgmAlgorithmId::Aes128, b"123456", &[0x33; 16]).unwrap();
    assert_eq!(
        card.fetch(MgmKey::get_derived(b"123456")),
        Ok((MgmAlgorithmId::Aes128, key.as_ref().to_vec()))
    );
    assert_eq!(card.seen, vec!["metadata", "read admin", "get salt"]);
    // nothing was changed
    assert_eq!(card.stored, full(&[0x00]));
    assert_eq!(card.key, vec![0xee; 16]);
}

#[test]
fn recovery_reports_what_fails() {
    for (refused, seen) in [("metadata", 1), ("read admin", 2), ("get salt", 3)] {
        let mut card = Card::new(full(&[0x00])).refusing(&[refused]);
        assert_eq!(card.fetch(MgmKey::get_derived(b"123456")), Err(REFUSED));
        assert_eq!(card.seen.len(), seen);
    }
    for (refused, seen) in [("metadata", 1), ("read protected", 2), ("get mgm", 3)] {
        let mut card = Card::new(full(&[0x00])).refusing(&[refused]);
        assert_eq!(card.fetch(MgmKey::get_protected()), Err(REFUSED));
        assert_eq!(card.seen.len(), seen);
    }
    // the salt has the wrong length
    let mut card = Card::new(vec![(
        Object::Admin,
        vec![(Item::AdminSalt, vec![0x33; 15])],
    )]);
    assert_eq!(
        card.fetch(MgmKey::get_derived(b"123456")),
        Err(Error::GenericError)
    );
    // the protected key is not one of the card's algorithm
    let mut card = Card::new(full(&[0x00]));
    card.algo = MgmAlgorithmId::Aes256;
    assert_eq!(card.fetch(MgmKey::get_protected()), Err(Error::SizeError));
}

#[test]
fn old_firmware_has_a_three_des_key() {
    let mut procedure = MgmKey::get_protected();
    procedure.advance(Reply::Failed(Error::NotSupported));
    procedure.advance(Reply::Done);
    procedure.advance(Reply::Value(&DEFAULT_KEY_BYTES));
    let key = procedure.outcome().unwrap().unwrap();
    assert_eq!(key.algo(), MgmAlgorithmId::ThreeDes);
    assert_eq!(key.as_ref(), DEFAULT_KEY_BYTES);
}

#[test]
fn old_firmware_gives_a_protected_key_back() {
    for stored in [full(&[0x00]), Vec::new()] {
        let key = MgmKey::from_bytes_typed(&[0x77; 24], MgmAlgorithmId::ThreeDes).unwrap();
        let mut card = Card::new(stored).with_old_firmware();
        assert_eq!(card.set_protected(&key), Ok(()));
        assert_eq!(
            card.fetch(MgmKey::get_protected()),
            Ok((MgmAlgorithmId::ThreeDes, vec![0x77; 24]))
        );
    }
    // the key of a card that does not tell its algorithm is taken for a 3DES key
    let mut card = Card::new(full(&[0x00])).with_old_firmware();
    assert_eq!(card.set_protected(&MgmKey::default_aes()), Ok(()));
    assert_eq!(
        card.fetch(MgmKey::get_protected()),
        Ok((MgmAlgorithmId::ThreeDes, DEFAULT_KEY_BYTES.to_vec()))
    );
    let key = MgmKey::empty(MgmAlgorithmId::Aes256);
    assert_eq!(card.set_protected(&key), Ok(()));
    assert_eq!(card.fetch(MgmKey::get_protected()), Err(Error::SizeError));
}

#[test]
fn a_protected_key_is_recovered_whatever_becomes_of_the_admin_data() {
    for refused in ["read admin", "get flags", "set salt", "set flags", "write admin"] {
        let mut card = Card::new(full(&[0x00])).refusing(&[refused]);
        assert_eq!(card.set_protected(&MgmKey::default()), Ok(()));
        assert_eq!(
            card.fetch(MgmKey::get_protected()),
            Ok((MgmAlgorithmId::ThreeDes, DEFAULT_KEY_BYTES.to_vec()))
        );
    }
}

#[test]
fn nothing_is_recovered_after_set_manual() {
    for old_firmware in [false, true] {
        for refused in ["", "get flags", "set flags"] {
            let mut card = Card::new(full(&[0x02])).refusing(&[refused]);
            card.old_firmware = old_firmware;
            assert_eq!(card.set_manual(&MgmKey::default(), false), Ok(()));
            assert_eq!(card.fetch(MgmKey::get_derived(b"123456")), Err(MISSING));
            assert_eq!(card.fetch(MgmKey::get_protected()), Err(MISSING));
        }
    }
    // where the salt was not to be reached, neither is it reached now
    let mut card = Card::new(full(&[0x02])).refusing(&["read admin"]);
    assert_eq!(card.set_manual(&MgmKey::default(), false), Ok(()));
    assert_eq!(card.fetch(MgmKey::get_derived(b"123456")), Err(REFUSED));
    assert_eq!(card.fetch(MgmKey::get_protected()), Err(MISSING));
}

#[test]
fn recovery_needs_a_known_management_algorithm() {
    let mut procedure = MgmKey::get_protected();
    procedure.advance(Reply::Failed(Error::AlgorithmError));
    assert_eq!(
        procedure.outcome().unwrap().err(),
        Some(Error::NotSupported)
    );
    let mut procedure = MgmKey::get_protected();
    procedure.advance(Reply::Algorithm(SlotAlgorithmId::Other));
    assert_eq!(
        procedure.outcome().unwrap().err(),
        Some(Error::InvalidObject)
    );
}

#[test]
fn a_reply_of_the_wrong_kind_changes_nothing() {
    let mut procedure = MgmKey::default().set_manual(false);
    procedure.advance(Reply::Value(&[1]));
    assert!(matches!(
        procedure.request(),
        Some(Request::SetMgmKey { .. })
    ));
    procedure.advance(Reply::Done);
    procedure.advance(Reply::Done);
    procedure.advance(Reply::Done);
    assert!(matches!(
        procedure.request(),
        Some(Request::GetItem(Item::AdminFlags1))
    ));
    assert_eq!(procedure.outcome(), None);

    let mut procedure = MgmKey::get_protected();
    procedure.advance(Reply::Done);
    assert!(matches!(procedure.request(), Some(Request::GetMetadata)));
    assert!(procedure.outcome().is_none());

    let mut procedure = MgmKey::default().set_protected();
    procedure.advance(Reply::Algorithm(SlotAlgorithmId::Other));
    assert!(matches!(
        procedure.request(),
        Some(Request::SetMgmKey { .. })
    ));
    assert_eq!(procedure.outcome(), None);
}

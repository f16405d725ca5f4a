//! The create and retrieve protocol, as steps between the store's answers.
//!
//! Creating seals the plain text, draws a handle and lays out the record; the
//! caller writes it and reports back. Retrieving takes what the store read,
//! opens it, and asks for the record to be deleted only where it opened; the
//! caller deletes and reports back, and the plain text is delivered even where
//! the delete failed, with that failure flagged.

use crate::api::EncryptResponse;
use crate::crypto::{
    aes256gcm_open, aes256gcm_seal, decrypt, decrypt_spec, derived_key, encrypt, MAX_PLAIN_TEXT_LEN, NONCE_LEN,
};
use crate::record::{
    decode_record, encrypt_data_to_item, item_to_encryt_data, lemma_decode_encoded,
    record_fields, Item, ItemView, TransformError,
};
use crate::store::{MemoryStore, StoreView};
use vstd::prelude::*;
use vstd::utf8::{decode_utf8, encode_utf8, encode_utf8_decode_utf8, encode_utf8_valid_utf8, valid_utf8};

verus! {

/// What std's lossy UTF-8 decoding returns for the given bytes.
pub uninterp spec fn lossy_utf8(bytes: Seq<u8>) -> Seq<char>;

/// Relies on `String::from_utf8_lossy`: valid UTF-8 decodes unchanged, and any
/// other input gets replacement characters in a way fixed by the bytes alone.
#[verifier::external_body]
fn utf8_lossy(bytes: &[u8]) -> (r: String)
    ensures
        r@ == lossy_utf8(bytes@),
        valid_utf8(bytes@) ==> r@ == decode_utf8(bytes@),
{
    String::from_utf8_lossy(bytes).into_owned()
}

/// Relies on `uuid::Uuid::new_v4` and its hyphenated `Display`: a fresh random
/// handle of 36 characters.
#[verifier::external_body]
fn new_id() -> (r: String)
    ensures
        r@.len() == 36,
{
    uuid::Uuid::new_v4().to_string()
}

/// Why a create or a retrieve failed.
#[derive(Debug)]
pub enum ServiceError {
    /// The plain text could not be sealed.
    EncryptionFailed,
    /// The record did not open: wrong passphrase or altered record, alike.
    DecryptionFailed,
    /// No record is stored under the handle.
    NotFound,
    /// The stored record is malformed; it is left in place.
    Transform(TransformError),
    /// The store failed to read, write or delete.
    Storage(String),
}

impl ServiceError {
    /// A short description for the caller.
    pub fn message(&self) -> (r: String)
        ensures
            r@ == service_message(self),
    {
        match self {
            ServiceError::EncryptionFailed => "Encryption failed".to_owned(),
            ServiceError::DecryptionFailed => "Decryption failed".to_owned(),
            ServiceError::NotFound => "Not found".to_owned(),
            ServiceError::Transform(e) => "Transform failed: ".to_owned().concat(e.message().as_str()),
            ServiceError::Storage(m) => "Storage failed: ".to_owned().concat(m.as_str()),
        }
    }
}

pub open spec fn service_message(e: &ServiceError) -> Seq<char> {
    match e {
        ServiceError::EncryptionFailed => "Encryption failed"@,
        ServiceError::DecryptionFailed => "Decryption failed"@,
        ServiceError::NotFound => "Not found"@,
        ServiceError::Transform(t) => "Transform failed: "@ + crate::record::transform_message(*t),
        ServiceError::Storage(m) => "Storage failed: "@ + m@,
    }
}

/// The plain text that a record opens to under a passphrase, or why it does
/// not. Every way in which the sealed text fails to open is `DecryptionFailed`.
pub open spec fn open_record(item: ItemView, passphrase: Seq<char>) -> Result<Seq<u8>, ServiceError> {
    match decode_record(item) {
        Err(e) => Err(ServiceError::Transform(e)),
        Ok((nonce, sealed)) => match decrypt_spec(nonce, sealed, passphrase) {
            Ok(plain) => Ok(plain),
            Err(_) => Err(ServiceError::DecryptionFailed),
        },
    }
}

/// The text of plain-text bytes: their decoding where they are valid UTF-8,
/// std's lossy decoding otherwise.
pub open spec fn text_of(bytes: Seq<u8>) -> Seq<char> {
    if valid_utf8(bytes) {
        decode_utf8(bytes)
    } else {
        lossy_utf8(bytes)
    }
}

/// `item` is the record, under the handle `id`, of `plain` sealed with the key
/// derived from `passphrase` under some nonce of the right length.
pub open spec fn seals(item: ItemView, id: Seq<char>, plain: Seq<u8>, passphrase: Seq<char>) -> bool {
    exists|nonce: Seq<u8>|
        nonce.len() == NONCE_LEN && #[trigger] record_fields(
            id,
            nonce,
            aes256gcm_seal(derived_key(passphrase), nonce, plain),
        ) == item
}

pub open spec fn plain_result(r: Result<Vec<u8>, ServiceError>) -> Result<Seq<u8>, ServiceError> {
    match r {
        Ok(v) => Ok(v@),
        Err(e) => Err(e),
    }
}

/// Opens a stored record with a passphrase.
pub fn open_item(item: &Item, passphrase: &str) -> (r: Result<Vec<u8>, ServiceError>)
    ensures
        plain_result(r) == open_record(item@, passphrase@),
{
    let data = match item_to_encryt_data(item) {
        Ok(data) => data,
        Err(e) => return Err(ServiceError::Transform(e)),
    };
    match decrypt(&data, passphrase) {
        Ok(plain) => Ok(plain),
        Err(_) => Err(ServiceError::DecryptionFailed),
    }
}

/// A sealed record ready to be written, with its fresh handle.
pub struct NewRecord {
    pub id: String,
    pub item: Item,
}

/// Seals a plain text under a passphrase and lays it out as a record under a
/// fresh random handle. Fails, with `EncryptionFailed`, only where the plain
/// text is over the cipher's limit.
pub fn prepare_create(plain_text: &str, passphrase: &str) -> (r: Result<NewRecord, ServiceError>)
    ensures
        r is Ok <==> encode_utf8(plain_text@).len() <= MAX_PLAIN_TEXT_LEN,
        match r {
            Ok(rec) => {
                &&& seals(rec.item@, rec.id@, encode_utf8(plain_text@), passphrase@)
                &&& open_record(rec.item@, passphrase@) == Ok::<Seq<u8>, ServiceError>(
                    encode_utf8(plain_text@),
                )
            },
            Err(e) => e is EncryptionFailed,
        },
{
    let data = match encrypt(plain_text, passphrase) {
        Ok(data) => data,
        Err(_) => return Err(ServiceError::EncryptionFailed),
    };
    let id = new_id();
    let item = encrypt_data_to_item(id.as_str(), &data);
    proof {
        lemma_decode_encoded(id@, data.nonce@, data.encrypted_text@);
        assert(record_fields(
            id@,
            data.nonce@,
            aes256gcm_seal(derived_key(passphrase@), data.nonce@, encode_utf8(plain_text@)),
        ) == item@);
    }
    Ok(NewRecord { id, item })
}

/// What the store answered to a write.
pub enum Written {
    Stored,
    Failed(String),
}

/// The reply to a create once the store has answered the write.
pub fn finish_create(id: String, written: Written) -> (r: Result<EncryptResponse, ServiceError>)
    ensures
        match written {
            Written::Stored => r matches Ok(resp) && resp.id@ == id@,
            Written::Failed(m) => r matches Err(ServiceError::Storage(m2)) && m2@ == m@,
        },
{
    match written {
        Written::Stored => Ok(EncryptResponse { id }),
        Written::Failed(m) => Err(ServiceError::Storage(m)),
    }
}

/// What the store answered to a read.
pub enum Fetched {
    Found(Item),
    Missing,
    Failed(String),
}

/// What to do after a read: delete the record and deliver its plain text, or
/// leave the store as it is and report the error.
pub enum RetrievePlan {
    Deliver(Vec<u8>),
    Refuse(ServiceError),
}

/// Decides a retrieve once the store has answered the read. Only a record that
/// opens is to be deleted; one that is missing, malformed or does not open is
/// refused with the matching error.
pub fn plan_retrieve(fetched: &Fetched, passphrase: &str) -> (r: RetrievePlan)
    ensures
        match fetched {
            Fetched::Found(item) => match open_record(item@, passphrase@) {
                Ok(plain) => r matches RetrievePlan::Deliver(p) && p@ == plain,
                Err(e) => r == RetrievePlan::Refuse(e),
            },
            Fetched::Missing => r == RetrievePlan::Refuse(ServiceError::NotFound),
            Fetched::Failed(m) => r matches RetrievePlan::Refuse(ServiceError::Storage(m2)) && m2@
                == m@,
        },
{
    match fetched {
        Fetched::Found(item) => match open_item(item, passphrase) {
            Ok(plain) => RetrievePlan::Deliver(plain),
            Err(e) => RetrievePlan::Refuse(e),
        },
        Fetched::Missing => RetrievePlan::Refuse(ServiceError::NotFound),
        Fetched::Failed(m) => RetrievePlan::Refuse(ServiceError::Storage(m.clone())),
    }
}

/// What the store answered to a delete.
pub enum DeleteOutcome {
    Deleted,
    Failed(String),
}

/// A delivered secret, and whether its record is known to be gone.
pub struct Retrieved {
    pub text: String,
    pub burned: bool,
}

/// Delivers the plain text once the store has answered the delete. A failed
/// delete does not hold the text back; it is flagged in `burned`.
pub fn complete_retrieve(plain: &[u8], deleted: &DeleteOutcome) -> (r: Retrieved)
    ensures
        r.text@ == text_of(plain@),
        r.burned == (deleted is Deleted),
{
    let text = utf8_lossy(plain);
    let burned = match deleted {
        DeleteOutcome::Deleted => true,
        DeleteOutcome::Failed(_) => false,
    };
    Retrieved { text, burned }
}

/// `after` is `before` with one more record, under the handle `id`, which
/// seals `plain` under the key derived from `passphrase` and opens to it.
pub open spec fn created(
    before: StoreView,
    after: StoreView,
    id: Seq<char>,
    plain: Seq<u8>,
    passphrase: Seq<char>,
) -> bool {
    &&& after.contains_key(id)
    &&& after == before.insert(id, after[id])
    &&& seals(after[id], id, plain, passphrase)
    &&& open_record(after[id], passphrase) == Ok::<Seq<u8>, ServiceError>(plain)
}

/// The store after a retrieve, and its result: a missing handle is
/// `NotFound`; a record that opens is removed and its text returned; any other
/// failure leaves the store as it was.
pub open spec fn retrieve_spec(store: StoreView, id: Seq<char>, passphrase: Seq<char>) -> (
    StoreView,
    Result<Seq<char>, ServiceError>,
) {
    if !store.contains_key(id) {
        (store, Err(ServiceError::NotFound))
    } else {
        match open_record(store[id], passphrase) {
            Ok(plain) => (store.remove(id), Ok(text_of(plain))),
            Err(e) => (store, Err(e)),
        }
    }
}

pub open spec fn text_result(r: Result<String, ServiceError>) -> Result<Seq<char>, ServiceError> {
    match r {
        Ok(s) => Ok(s@),
        Err(e) => Err(e),
    }
}

/// Stores a plain text sealed under a passphrase and returns its fresh handle.
/// Fails, with `EncryptionFailed` and the store unchanged, only where the
/// plain text is over the cipher's limit.
pub fn create(store: &mut MemoryStore, plain_text: &str, passphrase: &str) -> (r: Result<String, ServiceError>)
    requires
        old(store).wf(),
    ensures
        final(store).wf(),
        r is Ok <==> encode_utf8(plain_text@).len() <= MAX_PLAIN_TEXT_LEN,
        match r {
            Ok(id) => created(old(store)@, final(store)@, id@, encode_utf8(plain_text@), passphrase@),
            Err(e) => e is EncryptionFailed && final(store)@ == old(store)@,
        },
{
    let record = match prepare_create(plain_text, passphrase) {
        Ok(record) => record,
        Err(e) => return Err(e),
    };
    let NewRecord { id, item } = record;
    store.put(id.clone(), item);
    match finish_create(id, Written::Stored) {
        Ok(resp) => Ok(resp.id),
        Err(e) => Err(e),
    }
}

/// Hands back the text stored under `id` if the record opens with the
/// passphrase, and removes the record; otherwise reports why, and leaves the
/// store as it was.
pub fn retrieve(store: &mut MemoryStore, id: &str, passphrase: &str) -> (r: Result<String, ServiceError>)
    requires
        old(store).wf(),
    ensures
        final(store).wf(),
        (final(store)@, text_result(r)) == retrieve_spec(old(store)@, id@, passphrase@),
{
    let fetched = match store.get(id) {
        Some(item) => Fetched::Found(item),
        None => Fetched::Missing,
    };
    match plan_retrieve(&fetched, passphrase) {
        RetrievePlan::Deliver(plain) => {
            store.delete(id);
            let done = complete_retrieve(plain.as_slice(), &DeleteOutcome::Deleted);
            Ok(done.text)
        },
        RetrievePlan::Refuse(e) => Err(e),
    }
}

/// Round trip: a secret just created is handed back, unchanged, by a retrieve
/// with the same passphrase, and only once.
pub proof fn lemma_round_trip(
    before: StoreView,
    after: StoreView,
    id: Seq<char>,
    plain_text: Seq<char>,
    passphrase: Seq<char>,
)
    requires
        created(before, after, id, encode_utf8(plain_text), passphrase),
    ensures
        retrieve_spec(after, id, passphrase) == (
            after.remove(id),
            Ok::<Seq<char>, ServiceError>(plain_text),
        ),
        retrieve_spec(after.remove(id), id, passphrase).1 == Err::<Seq<char>, ServiceError>(
            ServiceError::NotFound,
        ),
{
    encode_utf8_valid_utf8(plain_text);
    encode_utf8_decode_utf8(plain_text);
}

/// Burn after read: once a retrieve has succeeded, any further retrieve of
/// that handle, with any passphrase, finds nothing.
pub proof fn lemma_burn_after_read(
    store: StoreView,
    id: Seq<char>,
    passphrase: Seq<char>,
    next_passphrase: Seq<char>,
)
    requires
        retrieve_spec(store, id, passphrase).1 is Ok,
    ensures
        retrieve_spec(retrieve_spec(store, id, passphrase).0, id, next_passphrase) == (
            store.remove(id),
            Err::<Seq<char>, ServiceError>(ServiceError::NotFound),
        ),
{
}

/// A record that does not open under the passphrase, whether for a wrong
/// passphrase or for altered contents, fails alike with `DecryptionFailed`,
/// returns no plain text, and stays in the store.
pub proof fn lemma_failed_open_keeps_record(store: StoreView, id: Seq<char>, passphrase: Seq<char>)
    requires
        store.contains_key(id),
        decode_record(store[id]) is Ok,
        aes256gcm_open(
            derived_key(passphrase),
            decode_record(store[id])->Ok_0.0,
            decode_record(store[id])->Ok_0.1,
        ) is None,
    ensures
        retrieve_spec(store, id, passphrase) == (
            store,
            Err::<Seq<char>, ServiceError>(ServiceError::DecryptionFailed),
        ),
{
}

} // verus!

//! The at-rest record: a secret's handle, nonce and sealed text laid out as
//! three named fields, and the way back from such fields to a sealed secret.

use crate::crypto::EncryptData;
use vstd::prelude::*;
use vstd::slice::slice_to_vec;

verus! {

/// A stored field value, as far as this library reads it.
#[derive(Debug)]
pub enum FieldValue {
    /// A string field.
    S(String),
    /// A binary field.
    B(Vec<u8>),
    /// A field of any other kind.
    Other,
}

/// The mathematical model of a field value.
pub enum FieldModel {
    Str(Seq<char>),
    Bytes(Seq<u8>),
    Other,
}

impl View for FieldValue {
    type V = FieldModel;

    open spec fn view(&self) -> FieldModel {
        match self {
            FieldValue::S(s) => FieldModel::Str(s@),
            FieldValue::B(b) => FieldModel::Bytes(b@),
            FieldValue::Other => FieldModel::Other,
        }
    }
}

/// A record as a store holds it: named fields.
#[derive(Debug)]
pub struct Item {
    pub fields: Vec<(String, FieldValue)>,
}

/// The model of a record: its fields' names and values, in order.
pub type ItemView = Seq<(Seq<char>, FieldModel)>;

impl View for Item {
    type V = ItemView;

    open spec fn view(&self) -> ItemView {
        self.fields@.map_values(|f: (String, FieldValue)| (f.0@, f.1@))
    }
}

/// Why a stored record could not be read back.
#[derive(Debug, Clone, Copy, PartialEq, Eq, Structural)]
pub enum TransformError {
    /// No binary field named `nonce`.
    InvalidNonce,
    /// No binary field named `cipher_text`.
    InvalidCipherText,
}

impl TransformError {
    /// A message that names the field at fault.
    pub fn message(&self) -> (r: String)
        ensures
            r@ == transform_message(*self),
    {
        match self {
            TransformError::InvalidNonce => "Missing or invalid 'nonce'".to_owned(),
            TransformError::InvalidCipherText => "Missing or invalid 'cipher_text'".to_owned(),
        }
    }
}

pub open spec fn transform_message(e: TransformError) -> Seq<char> {
    match e {
        TransformError::InvalidNonce => "Missing or invalid 'nonce'"@,
        TransformError::InvalidCipherText => "Missing or invalid 'cipher_text'"@,
    }
}

/// The value of the first field named `name`, if any.
pub open spec fn field_named(fields: ItemView, name: Seq<char>) -> Option<FieldModel>
    decreases fields.len(),
{
    if fields.len() == 0 {
        None
    } else if fields[0].0 == name {
        Some(fields[0].1)
    } else {
        field_named(fields.drop_first(), name)
    }
}

/// The fields of the record for a handle, a nonce and a sealed text.
pub open spec fn record_fields(id: Seq<char>, nonce: Seq<u8>, sealed: Seq<u8>) -> ItemView {
    seq![
        ("id"@, FieldModel::Str(id)),
        ("nonce"@, FieldModel::Bytes(nonce)),
        ("cipher_text"@, FieldModel::Bytes(sealed)),
    ]
}

/// The nonce and sealed text that a record holds, or the first field at fault.
pub open spec fn decode_record(fields: ItemView) -> Result<(Seq<u8>, Seq<u8>), TransformError> {
    match field_named(fields, "nonce"@) {
        Some(FieldModel::Bytes(nonce)) => match field_named(fields, "cipher_text"@) {
            Some(FieldModel::Bytes(sealed)) => Ok((nonce, sealed)),
            _ => Err(TransformError::InvalidCipherText),
        },
        _ => Err(TransformError::InvalidNonce),
    }
}

impl Item {
    /// The number of fields.
    pub fn len(&self) -> (r: usize)
        ensures
            r == self@.len(),
    {
        self.fields.len()
    }

    /// The value of the first field named `name`, if any.
    pub fn field(&self, name: &str) -> (r: Option<&FieldValue>)
        ensures
            match r {
                Some(v) => field_named(self@, name@) == Some(v@),
                None => field_named(self@, name@) is None,
            },
    {
        let wanted = name.to_owned();
        let n = self.fields.len();
        let mut i: usize = 0;
        assert(self@.subrange(0, n as int) =~= self@);
        while i < n
            invariant
                n == self.fields@.len(),
                i <= n,
                wanted@ == name@,
                field_named(self@, name@) == field_named(self@.subrange(i as int, n as int), name@),
            decreases n - i,
        {
            let rest = Ghost(self@.subrange(i as int, n as int));
            assert(rest@.drop_first() =~= self@.subrange(i + 1, n as int));
            if self.fields[i].0 == wanted {
                return Some(&self.fields[i].1);
            }
            i = i + 1;
        }
        None
    }
}

/// Lays out a sealed secret as a record under the handle `id`.
pub fn encrypt_data_to_item(id: &str, data: &EncryptData) -> (r: Item)
    ensures
        r@ == record_fields(id@, data.nonce@, data.encrypted_text@),
{
    let mut fields: Vec<(String, FieldValue)> = Vec::new();
    fields.push(("id".to_owned(), FieldValue::S(id.to_owned())));
    fields.push(("nonce".to_owned(), FieldValue::B(slice_to_vec(data.nonce.as_slice()))));
    fields.push(
        ("cipher_text".to_owned(), FieldValue::B(slice_to_vec(data.encrypted_text.as_slice()))),
    );
    let r = Item { fields };
    assert(r@ =~= record_fields(id@, data.nonce@, data.encrypted_text@));
    r
}

/// Reads the nonce and sealed text back out of a record. Each of the two
/// fields must be present and binary; the first one that is not is named in
/// the error.
pub fn item_to_encryt_data(item: &Item) -> (r: Result<EncryptData, TransformError>)
    ensures
        match r {
            Ok(d) => decode_record(item@) == Ok::<(Seq<u8>, Seq<u8>), TransformError>(
                (d.nonce@, d.encrypted_text@),
            ),
            Err(e) => decode_record(item@) == Err::<(Seq<u8>, Seq<u8>), TransformError>(e),
        },
{
    let nonce = match item.field("nonce") {
        Some(FieldValue::B(bytes)) => slice_to_vec(bytes.as_slice()),
        _ => return Err(TransformError::InvalidNonce),
    };
    let cipher_text = match item.field("cipher_text") {
        Some(FieldValue::B(bytes)) => slice_to_vec(bytes.as_slice()),
        _ => return Err(TransformError::InvalidCipherText),
    };
    Ok(EncryptData { nonce, encrypted_text: cipher_text })
}

} // verus!

verus! {

/// Reading a record back gives the nonce and sealed text it was laid out
/// from.
pub proof fn lemma_decode_encoded(id: Seq<char>, nonce: Seq<u8>, sealed: Seq<u8>)
    ensures
        decode_record(record_fields(id, nonce, sealed)) == Ok::<(Seq<u8>, Seq<u8>), TransformError>(
            (nonce, sealed),
        ),
{
    reveal_strlit("id");
    reveal_strlit("nonce");
    reveal_strlit("cipher_text");
    reveal_with_fuel(field_named, 3);
    let f = record_fields(id, nonce, sealed);
    assert(f.drop_first().drop_first().drop_first().len() == 0);
    assert("id"@[0] != "nonce"@[0]);
    assert("id"@[0] != "cipher_text"@[0]);
    assert("nonce"@[0] != "cipher_text"@[0]);
    assert(field_named(f, "nonce"@) == Some(FieldModel::Bytes(nonce))) by {
        assert(f[0].0 != "nonce"@);
        assert(f.drop_first()[0].0 == "nonce"@);
    }
    assert(field_named(f, "cipher_text"@) == Some(FieldModel::Bytes(sealed))) by {
        assert(f[0].0 != "cipher_text"@);
        assert(f.drop_first()[0].0 != "cipher_text"@);
        assert(f.drop_first().drop_first()[0].0 == "cipher_text"@);
    }
}

} // verus!

//! Decoding of a secret's values to text, and the credential read from it.
use vstd::prelude::*;
use crate::crds::AccountSecretReference;

verus! {

/// The text that a byte sequence encodes in UTF-8, or `None` where it is not valid UTF-8.
pub uninterp spec fn utf8_text(b: Seq<u8>) -> Option<Seq<char>>;

/// Relies on `std::str::from_utf8`: it succeeds exactly on valid UTF-8, and the text it
/// yields depends on the bytes alone; no bytes decode to the empty text.
#[verifier::external_body]
fn text_of_bytes(b: &Vec<u8>) -> (r: Option<String>)
    ensures
        match r {
            Some(s) => utf8_text(b@) == Some(s@),
            None => utf8_text(b@) is None,
        },
        b@.len() == 0 ==> r is Some,
{
    match std::str::from_utf8(b.as_slice()) {
        Ok(s) => Some(s.to_string()),
        Err(_) => None,
    }
}

/// Why no credential could be read from a secret.
#[derive(Debug, Clone, PartialEq, Eq)]
pub enum ResolveError {
    /// A value of the secret is not valid UTF-8 text.
    NonUtf8Value,
    /// The secret holds no field of this name.
    FieldNotFound(String),
}

/// The key id and application key used to authorize against the storage service.
#[derive(Debug, Clone)]
pub struct Credential {
    pub key_id: String,
    pub application_key: String,
}

/// Every value of the entries is valid UTF-8.
pub open spec fn all_text(entries: Seq<(String, Vec<u8>)>) -> bool {
    forall|i: int| 0 <= i < entries.len() ==> (#[trigger] utf8_text(entries[i].1@)) is Some
}

/// The decoded entries hold the same keys, in order, with each value decoded.
pub open spec fn decoded_from(
    d: Seq<(String, String)>,
    entries: Seq<(String, Vec<u8>)>,
) -> bool {
    &&& d.len() == entries.len()
    &&& forall|i: int|
        0 <= i < d.len() ==> {
            &&& (#[trigger] d[i]).0@ == entries[i].0@
            &&& utf8_text(entries[i].1@) == Some(d[i].1@)
        }
}

/// The value of the first entry whose key is `key`.
pub open spec fn lookup(d: Seq<(String, String)>, key: Seq<char>) -> Option<Seq<char>>
    decreases d.len(),
{
    if d.len() == 0 {
        None
    } else if d[0].0@ == key {
        Some(d[0].1@)
    } else {
        lookup(d.drop_first(), key)
    }
}

/// Decodes every value of a secret, given as its entries, to text.
/// Fails as a whole when any value is not valid UTF-8.
pub fn decode(entries: &Vec<(String, Vec<u8>)>) -> (r: Result<Vec<(String, String)>, ResolveError>)
    ensures
        r is Ok <==> all_text(entries@),
        r matches Ok(d) ==> decoded_from(d@, entries@),
        r matches Err(e) ==> e == ResolveError::NonUtf8Value,
{
    let mut res: Vec<(String, String)> = Vec::new();
    let mut i: usize = 0;
    while i < entries.len()
        invariant
            i <= entries.len(),
            forall|j: int| 0 <= j < i ==> (#[trigger] utf8_text(entries@[j].1@)) is Some,
            decoded_from(res@, entries@.take(i as int)),
        decreases entries.len() - i,
    {
        let t = text_of_bytes(&entries[i].1);
        match t {
            Some(s) => {
                res.push((entries[i].0.clone(), s));
            },
            None => {
                return Err(ResolveError::NonUtf8Value);
            },
        }
        i = i + 1;
    }
    assert(entries@.take(i as int) =~= entries@);
    Ok(res)
}

/// Looks up `key` among decoded entries.
pub fn find_field(d: &Vec<(String, String)>, key: &String) -> (r: Option<String>)
    ensures
        match r {
            Some(v) => lookup(d@, key@) == Some(v@),
            None => lookup(d@, key@) is None,
        },
{
    let mut i: usize = 0;
    assert(d@.skip(0) =~= d@);
    while i < d.len()
        invariant
            i <= d.len(),
            lookup(d@, key@) == lookup(d@.skip(i as int), key@),
        decreases d.len() - i,
    {
        assert(d@.skip(i as int).drop_first() =~= d@.skip(i + 1));
        if d[i].0 == *key {
            return Some(d[i].1.clone());
        }
        i = i + 1;
    }
    assert(d@.skip(i as int).len() == 0);
    None
}

/// Reads the credential from decoded secret entries, by the field names of the reference.
pub fn credential_from_fields(
    secret_description: &AccountSecretReference,
    d: &Vec<(String, String)>,
) -> (r: Result<Credential, ResolveError>)
    ensures
        r is Ok <==> (lookup(d@, secret_description.key_id_field@) is Some && lookup(
            d@,
            secret_description.application_key_field@,
        ) is Some),
        r matches Ok(c) ==> {
            &&& lookup(d@, secret_description.key_id_field@) == Some(c.key_id@)
            &&& lookup(d@, secret_description.application_key_field@) == Some(
                c.application_key@,
            )
        },
        r matches Err(e) ==> e == ResolveError::FieldNotFound(
            if lookup(d@, secret_description.key_id_field@) is None {
                secret_description.key_id_field
            } else {
                secret_description.application_key_field
            },
        ),
{
    let key_id = match find_field(d, &secret_description.key_id_field) {
        Some(v) => v,
        None => {
            return Err(ResolveError::FieldNotFound(secret_description.key_id_field.clone()));
        },
    };
    let application_key = match find_field(d, &secret_description.application_key_field) {
        Some(v) => v,
        None => {
            return Err(
                ResolveError::FieldNotFound(secret_description.application_key_field.clone()),
            );
        },
    };
    Ok(Credential { key_id, application_key })
}

/// The raw value of the first entry whose key is `key`.
pub open spec fn raw_lookup(entries: Seq<(String, Vec<u8>)>, key: Seq<char>) -> Option<Seq<u8>>
    decreases entries.len(),
{
    if entries.len() == 0 {
        None
    } else if entries[0].0@ == key {
        Some(entries[0].1@)
    } else {
        raw_lookup(entries.drop_first(), key)
    }
}

/// The text of the field `key` of a secret, where it is present and valid UTF-8.
pub open spec fn field_text(entries: Seq<(String, Vec<u8>)>, key: Seq<char>) -> Option<Seq<char>> {
    match raw_lookup(entries, key) {
        Some(b) => utf8_text(b),
        None => None,
    }
}

/// Looking a field up among decoded entries gives the decoded text of the raw field.
proof fn lemma_lookup_decoded(
    d: Seq<(String, String)>,
    entries: Seq<(String, Vec<u8>)>,
    key: Seq<char>,
)
    requires
        decoded_from(d, entries),
    ensures
        lookup(d, key) == field_text(entries, key),
    decreases d.len(),
{
    if d.len() > 0 {
        assert(d[0].0@ == entries[0].0@);
        assert(utf8_text(entries[0].1@) == Some(d[0].1@));
        if d[0].0@ != key {
            assert forall|i: int| 0 <= i < d.drop_first().len() implies {
                &&& (#[trigger] d.drop_first()[i]).0@ == entries.drop_first()[i].0@
                &&& utf8_text(entries.drop_first()[i].1@) == Some(d.drop_first()[i].1@)
            } by {
                assert(d[i + 1] == d.drop_first()[i]);
            }
            lemma_lookup_decoded(d.drop_first(), entries.drop_first(), key);
        }
    }
}

/// Reads the credential that `secret_description` names from the secret's entries.
/// Fails with `NonUtf8Value` when any value of the secret is not valid UTF-8, and
/// otherwise with `FieldNotFound` naming the first of the two fields that is absent.
pub fn get_b2_credentials_from_secret(
    secret_description: &AccountSecretReference,
    secret_data: &Vec<(String, Vec<u8>)>,
) -> (r: Result<Credential, ResolveError>)
    ensures
        !all_text(secret_data@) ==> r == Err::<Credential, ResolveError>(
            ResolveError::NonUtf8Value,
        ),
        all_text(secret_data@) ==> (r is Ok <==> (field_text(
            secret_data@,
            secret_description.key_id_field@,
        ) is Some && field_text(secret_data@, secret_description.application_key_field@) is Some)),
        r matches Ok(c) ==> {
            &&& field_text(secret_data@, secret_description.key_id_field@) == Some(c.key_id@)
            &&& field_text(secret_data@, secret_description.application_key_field@) == Some(
                c.application_key@,
            )
        },
        all_text(secret_data@) ==> (r matches Err(e) ==> e == ResolveError::FieldNotFound(
            if field_text(secret_data@, secret_description.key_id_field@) is None {
                secret_description.key_id_field
            } else {
                secret_description.application_key_field
            },
        )),
{
    let d = decode(secret_data)?;
    proof {
        lemma_lookup_decoded(d@, secret_data@, secret_description.key_id_field@);
        lemma_lookup_decoded(d@, secret_data@, secret_description.application_key_field@);
    }
    credential_from_fields(secret_description, &d)
}

} // verus!

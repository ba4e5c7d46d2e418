//! Encryption of stored conversations with an age passphrase: text goes in as
//! an ASCII-armored age file and comes back out; without a passphrase the text
//! is stored as it is.
use vstd::prelude::*;
use vstd::string::*;
use vstd::utf8::{decode_utf8, encode_utf8, valid_utf8};
use crate::text::{chars_of, concat2, copy_str, ends_with, starts_with, starts_with_exec, trim_end};
use std::io::{Read, Write};

verus! {

broadcast use vstd::string::group_string_axioms;

/// The first line of an ASCII-armored age file.
pub open spec fn armor_header() -> Seq<char> {
    "-----BEGIN AGE ENCRYPTED FILE-----"@
}

/// The last line of an ASCII-armored age file (a line ending follows it).
pub open spec fn armor_footer() -> Seq<char> {
    "-----END AGE ENCRYPTED FILE-----"@
}

/// Whether age's `Decryptor::new` reads `file` as an age file sealed to
/// recipients rather than to a passphrase: its header parses and names no
/// `scrypt` stanza, and the nonce that follows the header is there.
pub uninterp spec fn age_recipient_file(file: Seq<u8>) -> bool;

/// The payload that the age file `file` seals under `passphrase`, if it is one.
pub uninterp spec fn age_payload(file: Seq<u8>, passphrase: Seq<char>) -> Option<Seq<u8>>;

/// Why age could not encrypt or decrypt.
#[derive(Debug)]
pub enum AgeFailure {
    Encrypt(String),
    Decrypt(String),
    Io(String),
    /// The file is sealed to recipients, not to a passphrase.
    NotPassphrase,
}

/// Seals `plaintext` under `passphrase` in an ASCII-armored age file, with
/// age's `Encryptor::with_user_passphrase`, `ArmoredWriter` and `StreamWriter`.
/// The file is fresh at each call (age draws a new file key, salt and nonce),
/// so nothing fixes its bytes; what holds of every file written: it is ASCII
/// text that begins with the armor header and ends with the armor footer and a
/// line ending, and it seals `plaintext` under `passphrase` (so it is read as
/// a passphrase file, not one sealed to recipients). Writing into
/// memory has no failing path: the passphrase stanza is always made, and the
/// writers only fail when the output they write to does.
#[verifier::external_body]
fn age_seal(passphrase: &str, plaintext: &[u8]) -> (r: Result<Vec<u8>, AgeFailure>)
    ensures
        r is Ok,
        r matches Ok(file) ==> {
            &&& valid_utf8(file@)
            &&& starts_with(decode_utf8(file@), armor_header())
            &&& ends_with(trim_end(decode_utf8(file@)), armor_footer())
            &&& age_payload(file@, passphrase@) == Some(plaintext@)
            &&& !age_recipient_file(file@)
        },
{
    let secret = age::secrecy::SecretString::new(passphrase.to_string());
    let io = |e: std::io::Error| AgeFailure::Io(e.to_string());
    let mut file = Vec::new();
    let armor = age::armor::ArmoredWriter::wrap_output(&mut file, age::armor::Format::AsciiArmor)
        .map_err(io)?;
    let mut writer = age::Encryptor::with_user_passphrase(secret).wrap_output(armor)
        .map_err(|e| AgeFailure::Encrypt(e.to_string()))?;
    writer.write_all(plaintext).map_err(io)?;
    writer.finish().and_then(|armor| armor.finish()).map_err(io)?;
    Ok(file)
}

/// Opens the age file `file` with `passphrase`, with age's `ArmoredReader`,
/// `Decryptor` and `PassphraseDecryptor::decrypt` (default work-factor limit).
/// Whether it succeeds also rests on how fast this machine runs scrypt (age
/// refuses files whose work factor is far above what it measures here), so no
/// clause says when it succeeds; what it returns when it does is the sealed
/// payload. A file sealed to recipients is reported as such; the other
/// failures are those of reading the header and unwrapping the key (`Decrypt`)
/// and of reading the payload (`Io`), never an encryption failure.
#[verifier::external_body]
fn age_open(passphrase: &str, file: &[u8]) -> (r: Result<Vec<u8>, AgeFailure>)
    ensures
        r matches Ok(payload) ==> age_payload(file@, passphrase@) == Some(payload@),
        r matches Err(AgeFailure::NotPassphrase) <==> age_recipient_file(file@),
        !(r matches Err(AgeFailure::Encrypt(_))),
{
    let secret = age::secrecy::SecretString::new(passphrase.to_string());
    let reader = age::armor::ArmoredReader::new(file);
    let decryptor = age::Decryptor::new(reader).map_err(|e| AgeFailure::Decrypt(e.to_string()))?;
    let mut payload = Vec::new();
    match decryptor {
        age::Decryptor::Passphrase(d) => d.decrypt(&secret, None)
            .map_err(|e| AgeFailure::Decrypt(e.to_string()))?
            .read_to_end(&mut payload).map_err(|e| AgeFailure::Io(e.to_string()))?,
        age::Decryptor::Recipients(_) => return Err(AgeFailure::NotPassphrase),
    };
    Ok(payload)
}

/// The text whose UTF-8 encoding is `bytes` (`String::from_utf8`): it fails
/// exactly when `bytes` are not UTF-8.
#[verifier::external_body]
fn string_from_utf8(bytes: Vec<u8>) -> (r: Result<String, String>)
    ensures
        r is Ok <==> valid_utf8(bytes@),
        r matches Ok(s) ==> s@ == decode_utf8(bytes@),
{
    String::from_utf8(bytes).map_err(|e| e.to_string())
}

/// Why a text could not be encrypted or decrypted.
#[derive(Debug)]
pub enum EncryptionError {
    Encrypt(String),
    Decrypt(String),
    Io(String),
    Utf8(String),
    MissingKey,
}

impl EncryptionError {
    /// The text the error displays.
    pub open spec fn spec_message(&self) -> Seq<char> {
        match self {
            EncryptionError::Encrypt(err) => "age encryption error: "@ + err@,
            EncryptionError::Decrypt(err) => "age encryption error: "@ + err@,
            EncryptionError::Io(err) => "IO error: "@ + err@,
            EncryptionError::Utf8(err) => "UTF-8 error: "@ + err@,
            EncryptionError::MissingKey => "missing encryption key"@,
        }
    }

    /// The text the error displays.
    pub fn message(&self) -> (m: String)
        ensures
            m@ == self.spec_message(),
    {
        match self {
            EncryptionError::Encrypt(err) => concat2("age encryption error: ", err.as_str()),
            EncryptionError::Decrypt(err) => concat2("age encryption error: ", err.as_str()),
            EncryptionError::Io(err) => concat2("IO error: ", err.as_str()),
            EncryptionError::Utf8(err) => concat2("UTF-8 error: ", err.as_str()),
            EncryptionError::MissingKey => copy_str("missing encryption key"),
        }
    }

    fn from_age(f: AgeFailure) -> (e: EncryptionError)
        ensures
            e == age_error(f),
    {
        match f {
            AgeFailure::Encrypt(m) => EncryptionError::Encrypt(m),
            AgeFailure::Decrypt(m) => EncryptionError::Decrypt(m),
            AgeFailure::Io(m) => EncryptionError::Io(m),
            AgeFailure::NotPassphrase => EncryptionError::MissingKey,
        }
    }
}

/// The error an age failure is reported as; a file sealed to recipients has no
/// passphrase to open it, so its key is missing.
pub open spec fn age_error(f: AgeFailure) -> EncryptionError {
    match f {
        AgeFailure::Encrypt(m) => EncryptionError::Encrypt(m),
        AgeFailure::Decrypt(m) => EncryptionError::Decrypt(m),
        AgeFailure::Io(m) => EncryptionError::Io(m),
        AgeFailure::NotPassphrase => EncryptionError::MissingKey,
    }
}

/// What decrypting comes to once age has opened a file (or failed to): the
/// payload read as UTF-8 text, a UTF-8 error when it is not text, or age's
/// failure.
pub fn open_payload(opened: Result<Vec<u8>, AgeFailure>) -> (r: Result<String, EncryptionError>)
    ensures
        match opened {
            Ok(p) => if valid_utf8(p@) {
                r matches Ok(s) && s@ == decode_utf8(p@)
            } else {
                r matches Err(EncryptionError::Utf8(_))
            },
            Err(f) => r == Err::<String, EncryptionError>(age_error(f)),
        },
{
    match opened {
        Ok(payload) => match string_from_utf8(payload) {
            Ok(text) => Ok(text),
            Err(m) => Err(EncryptionError::Utf8(m)),
        },
        Err(f) => Err(EncryptionError::from_age(f)),
    }
}

/// Encrypts and decrypts stored text with an optional passphrase.
#[derive(Debug, Clone)]
pub struct AgeEncryption {
    key: Option<String>,
}

impl AgeEncryption {
    /// The passphrase, if any.
    pub closed spec fn spec_key(&self) -> Option<Seq<char>> {
        match self.key {
            Some(k) => Some(k@),
            None => None,
        }
    }

    /// Whether text is stored as it is: there is no passphrase, or it is empty.
    pub open spec fn stores_plain(&self) -> bool {
        self.spec_key() is None || self.spec_key().unwrap().len() == 0
    }

    /// `ciphertext` is what encrypting `plaintext` may give: the text itself
    /// when stored plain, else an armored age file that seals it.
    pub open spec fn encrypted_as(&self, plaintext: Seq<char>, ciphertext: Seq<char>) -> bool {
        if self.stores_plain() {
            ciphertext == plaintext
        } else {
            &&& starts_with(ciphertext, armor_header())
            &&& ends_with(trim_end(ciphertext), armor_footer())
            &&& age_payload(encode_utf8(ciphertext), self.spec_key().unwrap()) == Some(
                encode_utf8(plaintext),
            )
            &&& !age_recipient_file(encode_utf8(ciphertext))
        }
    }

    /// What decrypting `ciphertext` may come to: a text that is not an armored
    /// age file comes back unchanged; the key is missing exactly when there is
    /// no passphrase or the file is sealed to recipients; a UTF-8 error only
    /// for a sealed payload that is not UTF-8; never an encryption error; and
    /// a text that comes back is the one sealed.
    pub open spec fn decrypt_result(&self, ciphertext: Seq<char>, r: Result<String, EncryptionError>) -> bool {
        &&& !starts_with(ciphertext, armor_header()) ==> (r matches Ok(p) && p@ == ciphertext)
        &&& (r matches Err(EncryptionError::MissingKey)) <==> (starts_with(ciphertext, armor_header())
            && (self.spec_key() is None || age_recipient_file(encode_utf8(ciphertext))))
        &&& r matches Err(EncryptionError::Utf8(_)) ==> (self.spec_key() is Some && (age_payload(
            encode_utf8(ciphertext),
            self.spec_key().unwrap(),
        ) matches Some(payload) && !valid_utf8(payload)))
        &&& !(r matches Err(EncryptionError::Encrypt(_)))
        &&& r matches Ok(p) ==> self.decrypted_as(ciphertext, p@)
    }

    /// `plaintext` is what decrypting `ciphertext` may give: the text itself
    /// when it is not an armored age file, else the text it seals under the
    /// passphrase.
    pub open spec fn decrypted_as(&self, ciphertext: Seq<char>, plaintext: Seq<char>) -> bool {
        if !starts_with(ciphertext, armor_header()) {
            plaintext == ciphertext
        } else {
            &&& self.spec_key() is Some
            &&& age_payload(encode_utf8(ciphertext), self.spec_key().unwrap()) == Some(
                encode_utf8(plaintext),
            )
        }
    }

    /// Encryption with the given passphrase, or none.
    pub fn new(key: Option<String>) -> (e: Self)
        ensures
            e.spec_key() == match key {
                Some(k) => Some(k@),
                None => None,
            },
    {
        AgeEncryption { key }
    }

    /// Encrypts `plaintext`: unchanged when there is no passphrase (or an
    /// empty one), else as an ASCII-armored age file sealed with the
    /// passphrase. It always succeeds.
    pub fn encrypt(&self, plaintext: &str) -> (r: Result<String, EncryptionError>)
        ensures
            r is Ok,
            self.stores_plain() ==> (r matches Ok(c) && c@ == plaintext@),
            r matches Ok(c) ==> self.encrypted_as(plaintext@, c@),
    {
        let key = match &self.key {
            Some(k) => k,
            None => return Ok(copy_str(plaintext)),
        };
        if key.as_str().is_empty() {
            return Ok(copy_str(plaintext));
        }
        let bytes = plaintext.as_bytes();
        let file = match age_seal(key.as_str(), bytes) {
            Ok(f) => f,
            Err(e) => return Err(EncryptionError::from_age(e)),
        };
        let ghost file_bytes = file@;
        match string_from_utf8(file) {
            Ok(text) => {
                proof {
                    vstd::utf8::decode_utf8_encode_utf8(file_bytes);
                }
                Ok(text)
            },
            Err(m) => Err(EncryptionError::Utf8(m)),
        }
    }

    /// Decrypts `ciphertext`: a text that is not an armored age file is
    /// returned unchanged; a file needs the passphrase, and must be sealed to
    /// one. The key is missing when there is no passphrase or the file is
    /// sealed to recipients; a payload that is not UTF-8 is a UTF-8 error; the
    /// other failures are age's (`Decrypt` for the header and the key, `Io`
    /// for the payload). What age opens is read by `open_payload`.
    pub fn decrypt(&self, ciphertext: &str) -> (r: Result<String, EncryptionError>)
        ensures
            starts_with(ciphertext@, armor_header()) && self.spec_key() is None ==> r matches Err(
                EncryptionError::MissingKey,
            ),
            self.decrypt_result(ciphertext@, r),
    {
        let v = chars_of(ciphertext);
        let header = chars_of("-----BEGIN AGE ENCRYPTED FILE-----");
        if !starts_with_exec(&v, &header) {
            return Ok(copy_str(ciphertext));
        }
        let key = match &self.key {
            Some(k) => k,
            None => return Err(EncryptionError::MissingKey),
        };
        let bytes = ciphertext.as_bytes();
        let opened = age_open(key.as_str(), bytes);
        let ghost o = opened;
        let r = open_payload(opened);
        proof {
            if let Ok(p) = o {
                if valid_utf8(p@) {
                    vstd::utf8::decode_utf8_encode_utf8(p@);
                }
            }
        }
        r
    }
}

/// Decrypting what was encrypted with a passphrase gives the text back, or
/// fails in age itself (opening the file, `Decrypt`, or reading its payload,
/// `Io`): the key is not missing, the file is a passphrase file, and its
/// payload is text. Whether age opens it rests on this machine's scrypt speed.
pub proof fn lemma_sealed_text_reads_back_or_age_fails(
    e: AgeEncryption,
    plaintext: Seq<char>,
    ciphertext: Seq<char>,
    r: Result<String, EncryptionError>,
)
    requires
        !e.stores_plain(),
        e.encrypted_as(plaintext, ciphertext),
        e.decrypt_result(ciphertext, r),
    ensures
        r matches Ok(t) ==> t@ == plaintext,
        r is Err ==> (r matches Err(EncryptionError::Decrypt(_)) || r matches Err(
            EncryptionError::Io(_),
        )),
{
    vstd::utf8::encode_utf8_valid_utf8(plaintext);
    if let Ok(t) = r {
        lemma_decrypt_inverts_encrypt(e, plaintext, ciphertext, t@);
    }
}

/// What is decrypted from what was encrypted is the text that was encrypted. The one
/// exception: without a passphrase a text that itself begins with the armor
/// header is stored as it is and then read as a file.
pub proof fn lemma_decrypt_inverts_encrypt(
    e: AgeEncryption,
    plaintext: Seq<char>,
    ciphertext: Seq<char>,
    decrypted: Seq<char>,
)
    requires
        e.encrypted_as(plaintext, ciphertext),
        e.decrypted_as(ciphertext, decrypted),
        e.stores_plain() ==> !starts_with(plaintext, armor_header()),
    ensures
        decrypted == plaintext,
{
    if !e.stores_plain() {
        vstd::utf8::encode_utf8_decode_utf8(plaintext);
        vstd::utf8::encode_utf8_decode_utf8(decrypted);
    }
}

} // verus!

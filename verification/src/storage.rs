//! Conversation records and the storage rules that do not depend on a database:
//! the queries sent to it and how its rows are filtered.
use vstd::prelude::*;
use vstd::string::*;
use crate::encryption::{armor_header, lemma_decrypt_inverts_encrypt, AgeEncryption};
use crate::paths::{lowercase, to_lowercase};
use crate::text::{chars_of, concat2, concat3, contains, contains_exec, copy_str, starts_with};

verus! {

/// Why a storage operation failed.
#[derive(Debug)]
pub enum StorageError {
    Database(String),
    Encryption(String),
    AlreadyInitialized,
}

impl StorageError {
    /// The text the error displays.
    pub open spec fn spec_message(&self) -> Seq<char> {
        match self {
            StorageError::Database(err) => "storage error: "@ + err@,
            StorageError::Encryption(err) => "storage encryption error: "@ + err@,
            StorageError::AlreadyInitialized => "storage backend already initialized"@,
        }
    }

    /// The text the error displays.
    pub fn message(&self) -> (m: String)
        ensures
            m@ == self.spec_message(),
    {
        match self {
            StorageError::Database(err) => concat2("storage error: ", err.as_str()),
            StorageError::Encryption(err) => concat2("storage encryption error: ", err.as_str()),
            StorageError::AlreadyInitialized => copy_str("storage backend already initialized"),
        }
    }
}

/// One exchange between the user and the assistant.
#[derive(Debug, Clone)]
pub struct ConversationRecord {
    pub user_message: String,
    pub assistant_response: String,
    pub created_at: String,
}

impl ConversationRecord {
    /// A copy of the record.
    pub fn copy(&self) -> (r: ConversationRecord)
        ensures
            r == *self,
    {
        ConversationRecord {
            user_message: self.user_message.clone(),
            assistant_response: self.assistant_response.clone(),
            created_at: self.created_at.clone(),
        }
    }
}

/// Whether a record matches a search: an empty search matches everything;
/// otherwise the search, lowercased, must occur in the lowercased user message
/// or assistant response.
pub open spec fn record_matches(r: ConversationRecord, search: Seq<char>) -> bool {
    ||| search.len() == 0
    ||| contains(lowercase(r.user_message@), lowercase(search))
    ||| contains(lowercase(r.assistant_response@), lowercase(search))
}

/// The records of `rs` that match `search`, in order.
pub open spec fn matching_records(rs: Seq<ConversationRecord>, search: Seq<char>) -> Seq<ConversationRecord>
    decreases rs.len(),
{
    if rs.len() == 0 {
        Seq::empty()
    } else {
        matching_records(rs.drop_last(), search) + if record_matches(rs.last(), search) {
            seq![rs.last()]
        } else {
            Seq::empty()
        }
    }
}

/// The most records a history search returns.
pub open spec fn history_limit() -> nat {
    8
}

/// The first eight (at most) records of `rs` that match `search`.
pub open spec fn history_page(rs: Seq<ConversationRecord>, search: Seq<char>) -> Seq<ConversationRecord> {
    let m = matching_records(rs, search);
    if m.len() <= history_limit() {
        m
    } else {
        m.take(history_limit() as int)
    }
}

/// `plain` is a decryption of the stored record `stored`: the same time, and
/// each text decrypted.
pub open spec fn decrypted_record(
    enc: AgeEncryption,
    stored: ConversationRecord,
    plain: ConversationRecord,
) -> bool {
    &&& enc.decrypted_as(stored.user_message@, plain.user_message@)
    &&& enc.decrypted_as(stored.assistant_response@, plain.assistant_response@)
    &&& plain.created_at@ == stored.created_at@
}

/// Whether a stored text of `r` is an armored age file.
pub open spec fn record_armored(r: ConversationRecord) -> bool {
    starts_with(r.user_message@, armor_header()) || starts_with(r.assistant_response@, armor_header())
}

/// Whether some stored text of `rs` is an armored age file.
pub open spec fn any_armored(rs: Seq<ConversationRecord>) -> bool {
    exists|i: int| 0 <= i < rs.len() && record_armored(#[trigger] rs[i])
}

/// `plain` decrypts `stored`, record by record.
pub open spec fn decrypted_records(
    enc: AgeEncryption,
    stored: Seq<ConversationRecord>,
    plain: Seq<ConversationRecord>,
) -> bool {
    &&& plain.len() == stored.len()
    &&& forall|i: int| 0 <= i < stored.len() ==> decrypted_record(enc, stored[i], #[trigger] plain[i])
}

/// `stored` holds the exchanges `saved` as encrypted for storing: the same
/// times, and each text encrypted.
pub open spec fn encrypted_records(
    enc: AgeEncryption,
    saved: Seq<ConversationRecord>,
    stored: Seq<ConversationRecord>,
) -> bool {
    &&& stored.len() == saved.len()
    &&& forall|i: int|
        0 <= i < saved.len() ==> {
            &&& enc.encrypted_as(saved[i].user_message@, #[trigger] stored[i].user_message@)
            &&& enc.encrypted_as(saved[i].assistant_response@, stored[i].assistant_response@)
            &&& stored[i].created_at@ == saved[i].created_at@
        }
}

/// Reading the history gives back what was saved: the exchanges decrypted from
/// what was stored are the saved ones, text for text. Without a passphrase a
/// text that itself begins with the armor header is the exception (it is
/// stored as it is and read back as an encrypted file).
pub proof fn lemma_history_reads_back_saved(
    enc: AgeEncryption,
    saved: Seq<ConversationRecord>,
    stored: Seq<ConversationRecord>,
    plain: Seq<ConversationRecord>,
)
    requires
        encrypted_records(enc, saved, stored),
        decrypted_records(enc, stored, plain),
        enc.stores_plain() ==> forall|i: int|
            0 <= i < saved.len() ==> !starts_with(#[trigger] saved[i].user_message@, armor_header())
                && !starts_with(saved[i].assistant_response@, armor_header()),
    ensures
        plain.len() == saved.len(),
        forall|i: int|
            0 <= i < saved.len() ==> {
                &&& (#[trigger] plain[i]).user_message@ == saved[i].user_message@
                &&& plain[i].assistant_response@ == saved[i].assistant_response@
                &&& plain[i].created_at@ == saved[i].created_at@
            },
{
    assert forall|i: int| 0 <= i < saved.len() implies {
        &&& (#[trigger] plain[i]).user_message@ == saved[i].user_message@
        &&& plain[i].assistant_response@ == saved[i].assistant_response@
        &&& plain[i].created_at@ == saved[i].created_at@
    } by {
        assert(enc.encrypted_as(saved[i].user_message@, stored[i].user_message@));
        assert(decrypted_record(enc, stored[i], plain[i]));
        lemma_decrypt_inverts_encrypt(
            enc,
            saved[i].user_message@,
            stored[i].user_message@,
            plain[i].user_message@,
        );
        lemma_decrypt_inverts_encrypt(
            enc,
            saved[i].assistant_response@,
            stored[i].assistant_response@,
            plain[i].assistant_response@,
        );
    }
}

/// Without a passphrase, exchanges whose texts do not begin with the armor
/// header are stored as no armored file, so reading their history always
/// succeeds (`select_history` returns `Ok` on such records).
pub proof fn lemma_plain_history_unarmored(
    enc: AgeEncryption,
    saved: Seq<ConversationRecord>,
    stored: Seq<ConversationRecord>,
)
    requires
        encrypted_records(enc, saved, stored),
        enc.stores_plain(),
        forall|i: int|
            0 <= i < saved.len() ==> !starts_with(#[trigger] saved[i].user_message@, armor_header())
                && !starts_with(saved[i].assistant_response@, armor_header()),
    ensures
        !any_armored(stored),
{
    assert forall|i: int| 0 <= i < stored.len() implies !record_armored(#[trigger] stored[i]) by {
        assert(enc.encrypted_as(saved[i].user_message@, stored[i].user_message@));
        assert(enc.encrypted_as(saved[i].assistant_response@, stored[i].assistant_response@));
    }
}

/// An empty search matches every record.
pub proof fn lemma_empty_search_matches_all(rs: Seq<ConversationRecord>)
    ensures
        matching_records(rs, Seq::empty()) == rs,
    decreases rs.len(),
{
    if rs.len() > 0 {
        lemma_empty_search_matches_all(rs.drop_last());
        assert(rs.drop_last() + seq![rs.last()] =~= rs);
    }
}

/// A history read with an empty search is the first eight (at most) records,
/// in order: a saved exchange among the eight newest is found.
pub proof fn lemma_empty_search_page(rs: Seq<ConversationRecord>)
    ensures
        history_page(rs, Seq::empty()) == (if rs.len() <= history_limit() {
            rs
        } else {
            rs.take(history_limit() as int)
        }),
        forall|i: int|
            0 <= i < rs.len() && i < history_limit() ==> #[trigger] history_page(rs, Seq::empty())[i]
                == rs[i],
{
    lemma_empty_search_matches_all(rs);
}

/// The Postgres query for the history, newest first, from a start time if one
/// is given (as parameter `$1`).
pub open spec fn postgres_history_query(has_since: bool) -> Seq<char> {
    "SELECT user_message, assistant_response, created_at::text AS created_at FROM conversations"@
        + if has_since {
        " WHERE created_at >= $1"@
    } else {
        Seq::empty()
    } + " ORDER BY created_at DESC"@
}

/// The SQLite query for at most eight matching exchanges, newest first, from a
/// start time if one is given (parameter `?2`; the search pattern is `?1`).
pub open spec fn sqlite_history_query(has_since: bool) -> Seq<char> {
    "SELECT user_message, assistant_response, created_at FROM conversations WHERE (user_message LIKE ?1 OR assistant_response LIKE ?1)"@
        + if has_since {
        " AND created_at >= ?2"@
    } else {
        Seq::empty()
    } + " ORDER BY created_at DESC LIMIT 8"@
}

/// Whether `r` matches `search`.
pub fn record_matches_exec(r: &ConversationRecord, search: &str) -> (b: bool)
    ensures
        b == record_matches(*r, search@),
{
    if search.is_empty() {
        return true;
    }
    let needle = to_lowercase(search);
    let needle_chars = chars_of(needle.as_str());
    let user = to_lowercase(r.user_message.as_str());
    if contains_exec(&chars_of(user.as_str()), &needle_chars) {
        return true;
    }
    let reply = to_lowercase(r.assistant_response.as_str());
    contains_exec(&chars_of(reply.as_str()), &needle_chars)
}

/// The first eight (at most) records of `records` that match `search`, in
/// order.
pub fn history_page_exec(records: Vec<ConversationRecord>, search: &str) -> (r: Vec<ConversationRecord>)
    ensures
        r@ == history_page(records@, search@),
{
    let mut matched: Vec<ConversationRecord> = Vec::new();
    let mut i: usize = 0;
    while i < records.len()
        invariant
            i <= records@.len(),
            matched@ == matching_records(records@.take(i as int), search@),
        decreases records@.len() - i,
    {
        let ghost before = matched@;
        if record_matches_exec(&records[i], search) {
            matched.push(records[i].copy());
        }
        proof {
            assert(records@.take(i + 1).drop_last() =~= records@.take(i as int));
            assert(records@.take(i + 1).last() == records@[i as int]);
            assert(matched@ =~= matching_records(records@.take(i + 1), search@));
        }
        i = i + 1;
    }
    assert(records@.take(records@.len() as int) =~= records@);
    if matched.len() > 8 {
        matched.truncate(8);
    }
    matched
}

/// Decrypts the stored records one by one; the first failure is returned as an
/// encryption error. Records holding no armored age file always decrypt (to
/// themselves); without a passphrase the first armored text fails with the
/// missing key.
pub fn decrypt_records(enc: &AgeEncryption, stored: Vec<ConversationRecord>) -> (r: Result<
    Vec<ConversationRecord>,
    StorageError,
>)
    ensures
        r matches Ok(plain) ==> decrypted_records(*enc, stored@, plain@),
        r matches Err(e) ==> e is Encryption,
        !any_armored(stored@) ==> r is Ok,
        r is Err ==> any_armored(stored@),
        any_armored(stored@) && enc.spec_key() is None ==> (r matches Err(StorageError::Encryption(m))
            && m@ == "missing encryption key"@),
{
    let mut plain: Vec<ConversationRecord> = Vec::new();
    let mut i: usize = 0;
    while i < stored.len()
        invariant
            i <= stored@.len(),
            plain@.len() == i,
            forall|k: int| 0 <= k < i ==> decrypted_record(*enc, stored@[k], #[trigger] plain@[k]),
            enc.spec_key() is None ==> forall|k: int| 0 <= k < i ==> !record_armored(#[trigger] stored@[k]),
        decreases stored@.len() - i,
    {
        let row = &stored[i];
        assert(row == stored@[i as int]);
        let user_message = match enc.decrypt(row.user_message.as_str()) {
            Ok(t) => t,
            Err(e) => return Err(StorageError::Encryption(e.message())),
        };
        let assistant_response = match enc.decrypt(row.assistant_response.as_str()) {
            Ok(t) => t,
            Err(e) => return Err(StorageError::Encryption(e.message())),
        };
        let created_at = copy_str(row.created_at.as_str());
        plain.push(ConversationRecord { user_message, assistant_response, created_at });
        i = i + 1;
    }
    proof {
        if enc.spec_key() is None && any_armored(stored@) {
            let k = choose|k: int| 0 <= k < stored@.len() && record_armored(#[trigger] stored@[k]);
            assert(!record_armored(stored@[k]));
        }
    }
    Ok(plain)
}

/// The history as the Postgres backend returns it: every stored record
/// decrypted, then the first eight (at most) that match `search`. A history
/// holding no armored age file is always read; without a passphrase an armored
/// text fails with the missing key.
pub fn select_history(enc: &AgeEncryption, stored: Vec<ConversationRecord>, search: &str) -> (r: Result<
    Vec<ConversationRecord>,
    StorageError,
>)
    ensures
        r matches Ok(page) ==> exists|plain: Seq<ConversationRecord>|
            decrypted_records(*enc, stored@, plain) && page@ == #[trigger] history_page(
                plain,
                search@,
            ),
        r matches Err(e) ==> e is Encryption,
        !any_armored(stored@) ==> r is Ok,
        r is Err ==> any_armored(stored@),
        any_armored(stored@) && enc.spec_key() is None ==> (r matches Err(StorageError::Encryption(m))
            && m@ == "missing encryption key"@),
{
    match decrypt_records(enc, stored) {
        Ok(plain) => {
            let ghost p = plain@;
            let page = history_page_exec(plain, search);
            assert(decrypted_records(*enc, stored@, p) && page@ == history_page(p, search@));
            Ok(page)
        },
        Err(e) => Err(e),
    }
}

/// Encrypts an exchange for storing; it always succeeds.
pub fn encrypt_exchange(enc: &AgeEncryption, user_message: &str, assistant_response: &str) -> (r: Result<
    (String, String),
    StorageError,
>)
    ensures
        r is Ok,
        r matches Ok((u, a)) ==> enc.encrypted_as(user_message@, u@) && enc.encrypted_as(
            assistant_response@,
            a@,
        ),
        r matches Err(e) ==> e is Encryption,
        enc.stores_plain() ==> (r matches Ok((u, a)) && u@ == user_message@ && a@
            == assistant_response@),
{
    let u = match enc.encrypt(user_message) {
        Ok(t) => t,
        Err(e) => return Err(StorageError::Encryption(e.message())),
    };
    let a = match enc.encrypt(assistant_response) {
        Ok(t) => t,
        Err(e) => return Err(StorageError::Encryption(e.message())),
    };
    Ok((u, a))
}

/// The Postgres history query.
pub fn postgres_history_query_exec(has_since: bool) -> (q: String)
    ensures
        q@ == postgres_history_query(has_since),
{
    let mut q = copy_str(
        "SELECT user_message, assistant_response, created_at::text AS created_at FROM conversations",
    );
    if has_since {
        q.append(" WHERE created_at >= $1");
    }
    q.append(" ORDER BY created_at DESC");
    q
}

/// The SQLite history query.
pub fn sqlite_history_query_exec(has_since: bool) -> (q: String)
    ensures
        q@ == sqlite_history_query(has_since),
{
    let mut q = copy_str(
        "SELECT user_message, assistant_response, created_at FROM conversations WHERE (user_message LIKE ?1 OR assistant_response LIKE ?1)",
    );
    if has_since {
        q.append(" AND created_at >= ?2");
    }
    q.append(" ORDER BY created_at DESC LIMIT 8");
    q
}

/// The SQLite `LIKE` pattern for a search: the text anywhere.
pub fn sqlite_search_pattern(search: &str) -> (p: String)
    ensures
        p@ == "%"@ + search@ + "%"@,
{
    concat3("%", search, "%")
}

} // verus!

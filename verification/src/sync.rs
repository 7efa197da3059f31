//! Sync coordinator: the counts it reports and how an import payload is opened.
use vstd::prelude::*;

use crate::crypto::{blob_view, decrypt, decryption_error_text, decryption_outcome, DecryptOutcome, EncryptedBlob};
use crate::error::DaemonError;
use crate::text::{has_prefix, owned};

verus! {

#[derive(Debug, Clone, Copy)]
pub struct RecordCounts {
    pub projects: i64,
    pub tasks: i64,
    pub conversations: i64,
    pub messages: i64,
    pub capability_scores: i64,
    pub artifacts: i64,
}

#[derive(Debug, Clone, Copy)]
pub struct ImportSummary {
    pub projects: usize,
    pub tasks: usize,
    pub conversations: usize,
    pub messages: usize,
    pub capability_scores: usize,
    pub artifacts: usize,
}

pub open spec fn text_or_empty(o: Option<String>) -> Seq<char> {
    match o {
        Some(s) => s@,
        None => Seq::empty(),
    }
}

/// The text a field of an imported row is stored with: its own, `default` when missing.
pub open spec fn text_or(v: Option<&str>, default: Seq<char>) -> Seq<char> {
    match v {
        Some(s) => s@,
        None => default,
    }
}

/// The status an imported project is stored with ("active" when the row has none).
pub fn imported_project_status<'a>(status: Option<&'a str>) -> (r: &'a str)
    ensures
        r@ == text_or(status, "active"@),
{
    match status {
        Some(s) => s,
        None => "active",
    }
}

/// The status an imported task is stored with ("todo" when the row has none).
pub fn imported_task_status<'a>(status: Option<&'a str>) -> (r: &'a str)
    ensures
        r@ == text_or(status, "todo"@),
{
    match status {
        Some(s) => s,
        None => "todo",
    }
}

/// The priority an imported task is stored with (1 when the row has none).
pub fn imported_task_priority(priority: Option<i64>) -> (r: i64)
    ensures
        r == match priority {
            Some(p) => p,
            None => 1,
        },
{
    match priority {
        Some(p) => p,
        None => 1,
    }
}

/// The format an imported artifact is stored with ("markdown" when the row has none).
pub fn imported_artifact_format<'a>(format: Option<&'a str>) -> (r: &'a str)
    ensures
        r@ == text_or(format, "markdown"@),
{
    match format {
        Some(f) => f,
        None => "markdown",
    }
}

/// Opens an import payload. A plain payload (`encrypted` false) needs no decryption: the
/// result is `None` and its data is used as is. An encrypted one needs a passphrase; its
/// salt, nonce and ciphertext (empty when missing) are decrypted, and the result is the
/// plaintext.
pub fn import_plaintext(
    encrypted: bool,
    passphrase: Option<&str>,
    salt: Option<String>,
    nonce: Option<String>,
    ciphertext: Option<String>,
) -> (r: Result<Option<Vec<u8>>, DaemonError>)
    ensures
        !encrypted ==> r matches Ok(None),
        encrypted && passphrase is None ==> (r matches Err(DaemonError::Internal(m)) && m@
            == "passphrase required for encrypted import"@),
        encrypted && passphrase is Some ==> match decryption_outcome(
            passphrase->0@,
            (text_or_empty(salt), text_or_empty(nonce), text_or_empty(ciphertext)),
        ) {
            DecryptOutcome::Plain(p) => r matches Ok(Some(v)) && v@ == p,
            DecryptOutcome::KeyDerivationFailed => r matches Err(DaemonError::Internal(m))
                && has_prefix(m@, "key derivation: "@),
            o => r matches Err(DaemonError::Internal(m)) && m@ == decryption_error_text(o),
        },
{
    if !encrypted {
        return Ok(None);
    }
    let pass = match passphrase {
        Some(p) => p,
        None => return Err(DaemonError::Internal(owned("passphrase required for encrypted import"))),
    };
    let blob = EncryptedBlob {
        salt: match salt {
            Some(s) => s,
            None => String::new(),
        },
        nonce: match nonce {
            Some(n) => n,
            None => String::new(),
        },
        ciphertext: match ciphertext {
            Some(c) => c,
            None => String::new(),
        },
    };
    let plain = decrypt(pass, &blob)?;
    Ok(Some(plain))
}

/// An encrypted export, imported with the same passphrase, opens to the exported plaintext:
/// `encrypt` guarantees the decryption outcome of the blob it returns, and the import of the
/// blob's salt, nonce and ciphertext is decided by that same outcome.
pub proof fn lemma_import_opens_export(passphrase: Seq<char>, plaintext: Seq<u8>, blob: EncryptedBlob)
    requires
        decryption_outcome(passphrase, blob_view(blob)) == DecryptOutcome::Plain(plaintext),
    ensures
        decryption_outcome(
            passphrase,
            (
                text_or_empty(Some(blob.salt)),
                text_or_empty(Some(blob.nonce)),
                text_or_empty(Some(blob.ciphertext)),
            ),
        ) == DecryptOutcome::Plain(plaintext),
{
}

} // verus!

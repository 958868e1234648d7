//! Bookkeeping of which files are in sync: the status of a tracked file and
//! its text form in the sync database.

use vstd::prelude::*;
use vstd::string::StringSliceAdditionalSpecFns;

verus! {

/// Where a tracked file stands relative to the remote copies.
#[derive(Debug, Clone, Copy, PartialEq, Eq, Structural)]
pub enum SyncStatus {
    Synced,
    Pending,
    Conflict,
}

/// The text that stands for a status in the `sync_status` column.
pub open spec fn status_text(status: SyncStatus) -> Seq<char> {
    match status {
        SyncStatus::Synced => "synced"@,
        SyncStatus::Pending => "pending"@,
        SyncStatus::Conflict => "conflict"@,
    }
}

/// The status whose column text is `text`, if any.
pub open spec fn status_of_text(text: Seq<char>) -> Option<SyncStatus> {
    if text == "synced"@ {
        Some(SyncStatus::Synced)
    } else if text == "pending"@ {
        Some(SyncStatus::Pending)
    } else if text == "conflict"@ {
        Some(SyncStatus::Conflict)
    } else {
        None
    }
}

/// Whether two strings hold the same characters, compared byte by byte.
fn same_text(a: &str, b: &str) -> (r: bool)
    ensures
        r == (a@ == b@),
{
    let x = a.as_bytes();
    let y = b.as_bytes();
    proof {
        vstd::utf8::encode_utf8_decode_utf8(a@);
        vstd::utf8::encode_utf8_decode_utf8(b@);
    }
    if x.len() != y.len() {
        assert(x@ != y@);
        return false;
    }
    let mut i: usize = 0;
    while i < x.len()
        invariant
            i <= x@.len(),
            x@.len() == y@.len(),
            x@ == a.spec_bytes(),
            y@ == b.spec_bytes(),
            forall|j: int| 0 <= j < i ==> x@[j] == y@[j],
        decreases x@.len() - i,
    {
        if x[i] != y[i] {
            assert(x@[i as int] != y@[i as int]);
            return false;
        }
        i = i + 1;
    }
    assert(x@ =~= y@);
    true
}

impl SyncStatus {
    /// The text that stands for this status in the sync database.
    pub fn as_db_text(&self) -> (r: &'static str)
        ensures
            r@ == status_text(*self),
    {
        match self {
            SyncStatus::Synced => "synced",
            SyncStatus::Pending => "pending",
            SyncStatus::Conflict => "conflict",
        }
    }

    /// The status that `text` stands for in the sync database, or `None`
    /// where it stands for none.
    pub fn from_db_text(text: &str) -> (r: Option<SyncStatus>)
        ensures
            r == status_of_text(text@),
    {
        if same_text(text, "synced") {
            Some(SyncStatus::Synced)
        } else if same_text(text, "pending") {
            Some(SyncStatus::Pending)
        } else if same_text(text, "conflict") {
            Some(SyncStatus::Conflict)
        } else {
            None
        }
    }
}

/// Reading back the text that a status is stored as gives that status.
pub proof fn lemma_status_text_round_trip(status: SyncStatus)
    ensures
        status_of_text(status_text(status)) == Some(status),
{
    reveal_strlit("synced");
    reveal_strlit("pending");
    reveal_strlit("conflict");
    assert("synced"@.len() == 6);
    assert("pending"@.len() == 7);
    assert("conflict"@.len() == 8);
}

} // verus!

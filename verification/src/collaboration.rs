//! Collaboration sessions: connected users, cursors and change messages.

use vstd::prelude::*;
use vstd::utf8::encode_utf8;
use crate::clock::{Timestamp, now, new_id, is_uuid_v4_text};

verus! {

/// A collaboration session on a document.
#[derive(Debug, Clone, PartialEq, Eq)]
pub struct CollaborationSession {
    pub id: String,
    pub document_id: String,
    pub created_at: Timestamp,
    pub updated_at: Timestamp,
    pub is_active: bool,
}

/// A user connected to a session.
#[derive(Debug, Clone, PartialEq, Eq)]
pub struct ConnectedUser {
    pub id: String,
    pub session_id: String,
    pub user_id: String,
    pub username: String,
    pub cursor_position: Option<CursorPosition>,
    pub color: String,
    pub joined_at: Timestamp,
    pub last_activity: Timestamp,
}

/// A cursor and its selection, as offsets into the text.
#[derive(Debug, Clone, Copy, PartialEq, Eq)]
pub struct CursorPosition {
    pub offset: usize,
    pub selection_start: Option<usize>,
    pub selection_end: Option<usize>,
}

/// A message exchanged within a session.
#[derive(Debug, Clone, PartialEq, Eq)]
pub enum CollaborationMessage {
    Join { session_id: String, user: ConnectedUser },
    Leave { user_id: String, session_id: String },
    ContentChange { user_id: String, changes: Vec<TextChange>, version: u64 },
    CursorUpdate { user_id: String, position: CursorPosition },
    Sync { content: String, version: u64, users: Vec<ConnectedUser> },
}

/// One edit: the replaced range and the text inserted and deleted there.
#[derive(Debug, Clone, PartialEq, Eq)]
pub struct TextChange {
    pub start: usize,
    pub end: usize,
    pub inserted: String,
    pub deleted: String,
}

/// The sum of the bytes of a text.
pub open spec fn byte_sum(b: Seq<u8>) -> nat
    decreases b.len(),
{
    if b.len() == 0 {
        0
    } else {
        byte_sum(b.drop_last()) + b.last() as nat
    }
}

/// The palette that user colours are drawn from.
pub open spec fn palette() -> Seq<Seq<char>> {
    seq![
        "#FF6B6B"@, "#4ECDC4"@, "#45B7D1"@, "#96CEB4"@,
        "#FFEAA7"@, "#DDA0DD"@, "#98D8C8"@, "#F7DC6F"@,
        "#BB8FCE"@, "#85C1E9"@, "#F8B500"@, "#00CED1"@,
    ]
}

/// The colour of a user: the palette entry at the sum of the bytes of the
/// user's identifier, modulo the palette's size.
pub open spec fn user_color_spec(user_id: Seq<char>) -> Seq<char> {
    palette()[(byte_sum(encode_utf8(user_id)) % 12) as int]
}

/// The colour of a user, the same every time for the same identifier. The
/// byte sum is a `u32`, so identifiers whose bytes sum beyond it are left out.
pub fn generate_user_color(user_id: &str) -> (r: String)
    requires
        byte_sum(encode_utf8(user_id@)) <= u32::MAX,
    ensures
        r@ == user_color_spec(user_id@),
{
    let b = user_id.as_bytes();
    let mut hash: u32 = 0;
    let mut i: usize = 0;
    while i < b.len()
        invariant
            b@ == encode_utf8(user_id@),
            byte_sum(b@) <= u32::MAX,
            i <= b@.len(),
            hash == byte_sum(b@.take(i as int)),
        decreases b.len() - i,
    {
        assert(b@.take(i + 1).drop_last() =~= b@.take(i as int));
        proof {
            lemma_byte_sum_prefix(b@, i + 1);
        }
        hash = hash + b[i] as u32;
        i = i + 1;
    }
    assert(b@.take(i as int) =~= b@);
    let colors = [
        "#FF6B6B", "#4ECDC4", "#45B7D1", "#96CEB4",
        "#FFEAA7", "#DDA0DD", "#98D8C8", "#F7DC6F",
        "#BB8FCE", "#85C1E9", "#F8B500", "#00CED1",
    ];
    let k = (hash % 12) as usize;
    assert(colors@.map_values(|c: &str| c@) =~= palette());
    colors[k].to_string()
}

/// Whether the bytes of a user identifier sum to at most `u32::MAX`, the
/// condition under which its colour can be computed.
pub fn byte_sum_fits(user_id: &str) -> (r: bool)
    ensures
        r == (byte_sum(encode_utf8(user_id@)) <= u32::MAX),
{
    let b = user_id.as_bytes();
    let mut sum: u64 = 0;
    let mut i: usize = 0;
    while i < b.len()
        invariant
            b@ == encode_utf8(user_id@),
            i <= b@.len(),
            sum == byte_sum(b@.take(i as int)),
            sum <= u32::MAX,
        decreases b.len() - i,
    {
        assert(b@.take(i + 1).drop_last() =~= b@.take(i as int));
        sum = sum + b[i] as u64;
        i = i + 1;
        if sum > u32::MAX as u64 {
            proof {
                lemma_byte_sum_prefix(b@, i as int);
            }
            return false;
        }
    }
    assert(b@.take(i as int) =~= b@);
    true
}

/// A prefix sums to no more than the whole.
proof fn lemma_byte_sum_prefix(b: Seq<u8>, n: int)
    requires
        0 <= n <= b.len(),
    ensures
        byte_sum(b.take(n)) <= byte_sum(b),
    decreases b.len() - n,
{
    if n < b.len() {
        lemma_byte_sum_prefix(b, n + 1);
        assert(b.take(n + 1).drop_last() =~= b.take(n));
    } else {
        assert(b.take(n) =~= b);
    }
}

impl CollaborationSession {
    /// A new active session on a document, created and updated now.
    pub fn open(document_id: &str) -> (s: CollaborationSession)
        ensures
            is_uuid_v4_text(s.id@),
            s.document_id@ == document_id@,
            s.created_at == s.updated_at,
            s.is_active,
    {
        let t = now();
        CollaborationSession {
            id: new_id(),
            document_id: document_id.to_string(),
            created_at: t,
            updated_at: t,
            is_active: true,
        }
    }
}

impl ConnectedUser {
    /// A user joining a session: a fresh identifier, their colour, no cursor
    /// yet, joined and active now.
    pub fn joining(session_id: &str, user_id: &str, username: &str) -> (u: ConnectedUser)
        requires
            byte_sum(encode_utf8(user_id@)) <= u32::MAX,
        ensures
            is_uuid_v4_text(u.id@),
            u.session_id@ == session_id@,
            u.user_id@ == user_id@,
            u.username@ == username@,
            u.cursor_position is None,
            u.color@ == user_color_spec(user_id@),
            u.joined_at == u.last_activity,
    {
        let t = now();
        ConnectedUser {
            id: new_id(),
            session_id: session_id.to_string(),
            user_id: user_id.to_string(),
            username: username.to_string(),
            cursor_position: None,
            color: generate_user_color(user_id),
            joined_at: t,
            last_activity: t,
        }
    }
}

/// Every user colour is one of the palette's colours.
pub proof fn law_user_color_in_palette(user_id: Seq<char>)
    ensures
        palette().contains(user_color_spec(user_id)),
{
    let k = (byte_sum(encode_utf8(user_id)) % 12) as int;
    assert(palette()[k] == user_color_spec(user_id));
}

} // verus!

//! Invite tokens.

use crate::ids::id_text;
use crate::ids::uuid_text;
use crate::time::local_text;
use crate::time::time_text;
use crate::time::Timestamp;
use std::collections::hash_map::DefaultHasher;
use std::hash::Hash;
use std::hash::Hasher;
use uuid::Uuid;
use vstd::prelude::*;
use vstd::std_specs::hash::DefaultHasherAdditionalSpecFns;
use vstd::string::StringExecFns;

verus! {

/// What the `Hash` of a `String` writes to a hasher for a text.
pub uninterp spec fn text_writes(text: Seq<char>) -> Seq<Seq<u8>>;

/// `Hash::hash` of a `String` into a `DefaultHasher`: what it writes comes
/// after what the hasher was given before and depends on the text alone,
/// as equal strings must hash alike. The writes are given the name
/// `text_writes`; std does not say which bytes they are.
#[verifier::external_body]
fn feed_text(text: &String, hasher: &mut DefaultHasher)
    ensures
        final(hasher)@ == old(hasher)@ + text_writes(text@),
{
    text.hash(hasher);
}

/// The token of an identifier at a point in time: what a fresh default
/// hasher of std makes of the identifier's text followed by the time's
/// text. How `uuid` and `chrono` print, and what the hasher makes of a
/// text, is theirs to say: the token is a number fixed by the identifier
/// and the time, and which number is left open.
pub open spec fn token_of(id: Uuid, at: Timestamp) -> u64 {
    DefaultHasher::spec_finish(
        Seq::<Seq<u8>>::empty() + text_writes(
            id_text(id) + time_text(at.spec_utc(), at.spec_offset()),
        ),
    )
}

/// The token of `admin_id` at the time `at`: the 64-bit hash of the text
/// of the identifier followed by the text of the time.
pub fn stamp_token(admin_id: &Uuid, at: &Timestamp) -> (token: u64)
    ensures
        token == token_of(*admin_id, *at),
{
    let text = uuid_text(admin_id).concat(local_text(at).as_str());
    let mut hasher = DefaultHasher::new();
    feed_text(&text, &mut hasher);
    hasher.finish()
}

/// The invite token for `admin_id`: none unless `admin` holds, else the
/// token of the identifier at the current local time, as `stamp_token`
/// makes it. The token is a stand-in: it is stored nowhere, cannot be
/// redeemed, and two calls in one instant give one token.
pub fn invite_token(admin: bool, admin_id: &Uuid) -> (token: Option<u64>)
    ensures
        token is Some <==> admin,
        admin ==> exists|at: Timestamp| token == Some(#[trigger] token_of(*admin_id, at)),
{
    if admin {
        let now = Timestamp::now();
        Some(stamp_token(admin_id, &now))
    } else {
        None
    }
}

} // verus!

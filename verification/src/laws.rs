//! Round-trip guarantees of the marshalling layer.
//!
//! Each law relates the encoder's canonical wire encoding to the decoder's
//! decode relation: whatever value the decoder's contract admits for the
//! storage an encoder wrote, that value equals what was encoded.

use vstd::prelude::*;

use crate::data::SQLITE_NULL;
use crate::data::storage_class;
use crate::types::FromSql;
use crate::types::ToSql;

verus! {

/// Round trip for byte sequences: any value the blob decoder may produce from
/// the storage written by binding `b` — including the empty and the single-byte
/// sequence — is byte-for-byte equal to `b`.
pub proof fn blob_round_trip(b: Vec<u8>, r: Vec<u8>)
    requires
        r.is_decode_of(b.wire()),
    ensures
        r@ == b@,
{
}

/// Round trip for text: any value the text decoder may produce from the
/// storage written by binding `s` — including empty and multi-byte-character
/// content — is character-for-character equal to `s`.
pub proof fn text_round_trip(s: String, r: String)
    requires
        r.is_decode_of(s.wire()),
    ensures
        r@ == s@,
{
}

/// Round trip for an absent optional: binding absent writes null storage, the
/// dynamic type probe reports null for it, and the optional decoder yields
/// absent from it.
pub proof fn option_null_round_trip<T: ToSql + FromSql>(r: Option<T>)
    requires
        r.is_decode_of((None::<T>).wire()),
    ensures
        (None::<T>).wire() is Null,
        storage_class((None::<T>).wire()) == SQLITE_NULL as int,
        r is None,
{
}

/// Round trip for a present optional: `present(v)` binds exactly as `v` does,
/// and whenever `v`'s encoding is not null, the optional decoder yields a
/// present value standing in the same decode relation as a direct,
/// non-optional decode of that storage.
pub proof fn option_present_round_trip<T: ToSql + FromSql>(v: T, r: Option<T>)
    requires
        !(v.wire() is Null),
        r.is_decode_of((Some(v)).wire()),
    ensures
        (Some(v)).wire() == v.wire(),
        r matches Some(inner) && inner.is_decode_of(v.wire()),
{
}

/// The present-optional round trip for text, pinned to the characters: the
/// optional decoder yields present, and the inner string equals the one bound.
pub proof fn option_text_round_trip(s: String, r: Option<String>)
    requires
        r.is_decode_of((Some(s)).wire()),
    ensures
        r matches Some(t) && t@ == s@,
{
}

/// The present-optional round trip for blobs, pinned to the bytes: the
/// optional decoder yields present, and the inner bytes equal those bound.
pub proof fn option_blob_round_trip(b: Vec<u8>, r: Option<Vec<u8>>)
    requires
        r.is_decode_of((Some(b)).wire()),
    ensures
        r matches Some(v) && v@ == b@,
{
}

} // verus!

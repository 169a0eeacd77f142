//! Token sets issued by an OAuth provider: the staleness rule, the
//! refresh-token merge, and the stored record codec.
//!
//! A token set is persisted (inside an encrypted blob) as a form record of
//! percent-encoded `key=value` pairs, parsed with the same verified query
//! codec that reads the OAuth callback.

use vstd::prelude::*;
use vstd::utf8::{encode_utf8, encode_utf8_valid_utf8, encode_utf8_decode_utf8};
use crate::encoding::{all_dec_digits, dec_digits, dec_value, dec_digits_value, dec_digits_len_u64,
    format_u64, parse_u64, bytes_into_string, pct_encoded_len};
use crate::query::{
    query_pairs, query_value, pairs_lookup, parse_query, lookup_pair, push_pair,
    segment_pair_encoded, query_pairs_single, query_pairs_prepend,
};

verus! {

/// Safety skew, in seconds: a token counts as stale this long before its
/// actual expiry, so that an in-flight request cannot outlive it.
pub const EXPIRY_SKEW_SECONDS: u64 = 300;

/// An access token together with its optional refresh token and expiry.
///
/// `expires_at` is a Unix timestamp in seconds. When it is absent the token
/// is always treated as expired, which forces a refresh attempt before use.
pub struct TokenSet {
    pub access_token: String,
    pub refresh_token: Option<String>,
    pub expires_at: Option<u64>,
}

impl TokenSet {
    /// Whether the token must be refreshed before use at time `now`: either
    /// it carries no expiry at all, or `now` plus the safety skew has
    /// reached the expiry.
    pub open spec fn spec_is_expired(&self, now: u64) -> bool {
        match self.expires_at {
            Some(expiry) => now + EXPIRY_SKEW_SECONDS >= expiry,
            None => true,
        }
    }

    /// Staleness check: expired exactly when the expiry is absent or
    /// `now + EXPIRY_SKEW_SECONDS >= expires_at`.
    pub fn is_expired(&self, now: u64) -> (r: bool)
        requires
            now <= u64::MAX - EXPIRY_SKEW_SECONDS,
        ensures
            r == self.spec_is_expired(now),
    {
        match self.expires_at {
            Some(expiry) => now + EXPIRY_SKEW_SECONDS >= expiry,
            None => true,
        }
    }
}

/// Builds the token set that a token-endpoint response describes:
/// `expires_at` is `now + expires_in` when the provider gave a lifetime.
pub fn token_set_from_response(
    access_token: String,
    refresh_token: Option<String>,
    expires_in: Option<u64>,
    now: u64,
) -> (r: TokenSet)
    requires
        expires_in matches Some(e) ==> now + e <= u64::MAX,
    ensures
        r.access_token == access_token,
        r.refresh_token == refresh_token,
        match expires_in {
            Some(e) => r.expires_at == Some((now + e) as u64),
            None => r.expires_at is None,
        },
{
    let expires_at = match expires_in {
        Some(e) => Some(now + e),
        None => None,
    };
    TokenSet { access_token, refresh_token, expires_at }
}

/// Merges a refresh response into the previous token set: the new access
/// token and expiry always win, but a refresh response that omits the
/// refresh token keeps the previous one — refresh tokens are not reissued
/// on every refresh.
pub fn merge_refreshed(previous: &TokenSet, refreshed: TokenSet) -> (r: TokenSet)
    ensures
        r.access_token == refreshed.access_token,
        r.expires_at == refreshed.expires_at,
        refreshed.refresh_token matches Some(new_rt) ==> r.refresh_token == Some(new_rt),
        refreshed.refresh_token is None
            ==> match previous.refresh_token {
                Some(prior) => r.refresh_token matches Some(kept) && kept@ == prior@,
                None => r.refresh_token is None,
            },
{
    let refresh_token = match refreshed.refresh_token {
        Some(new_rt) => Some(new_rt),
        None => match &previous.refresh_token {
            Some(prior) => Some(prior.clone()),
            None => None,
        },
    };
    TokenSet {
        access_token: refreshed.access_token,
        refresh_token,
        expires_at: refreshed.expires_at,
    }
}

// ------------------------------------------------------------------
// The stored record codec
// ------------------------------------------------------------------

/// The record key under which the access token is stored.
pub open spec fn token_key_access() -> Seq<u8> {
    seq![97u8, 99, 99, 101, 115, 115]
}

/// The record key under which the refresh token is stored.
pub open spec fn token_key_refresh() -> Seq<u8> {
    seq![114u8, 101, 102, 114, 101, 115, 104]
}

/// The record key under which the expiry timestamp is stored.
pub open spec fn token_key_expires() -> Seq<u8> {
    seq![101u8, 120, 112, 105, 114, 101, 115]
}

/// The byte length of the refresh token, zero when there is none; it
/// bounds the stored record's size.
pub open spec fn spec_refresh_len(t: TokenSet) -> nat {
    match t.refresh_token {
        Some(rt) => encode_utf8(rt@).len(),
        None => 0,
    }
}

/// A record represents a token set when each field reads back from it: the
/// access token under `access`, the refresh token under `refresh` exactly
/// when present, and the expiry under `expires` as its decimal digits.
pub open spec fn record_matches(rec: Seq<u8>, t: TokenSet) -> bool {
    &&& query_value(rec, token_key_access()) == Some(encode_utf8(t.access_token@))
    &&& match t.refresh_token {
        Some(rt) => query_value(rec, token_key_refresh()) == Some(encode_utf8(rt@)),
        None => query_value(rec, token_key_refresh()) is None,
    }
    &&& match t.expires_at {
        Some(e) => query_value(rec, token_key_expires()) matches Some(s) && all_dec_digits(s)
            && dec_value(s) == e,
        None => query_value(rec, token_key_expires()) is None,
    }
}

/// A record pins its token set: two token sets read from one record agree
/// on every field (up to string contents).
pub proof fn record_matches_deterministic(rec: Seq<u8>, t1: TokenSet, t2: TokenSet)
    requires
        record_matches(rec, t1),
        record_matches(rec, t2),
    ensures
        t1.access_token@ == t2.access_token@,
        t1.refresh_token is Some <==> t2.refresh_token is Some,
        t1.refresh_token matches Some(r1)
            ==> t2.refresh_token matches Some(r2) && r1@ == r2@,
        t1.expires_at == t2.expires_at,
{
    assert(encode_utf8(t1.access_token@) == encode_utf8(t2.access_token@));
    encode_utf8_decode_utf8(t1.access_token@);
    encode_utf8_decode_utf8(t2.access_token@);
    match (t1.refresh_token, t2.refresh_token) {
        (Some(r1), Some(r2)) => {
            assert(encode_utf8(r1@) == encode_utf8(r2@));
            encode_utf8_decode_utf8(r1@);
            encode_utf8_decode_utf8(r2@);
        },
        _ => {},
    }
}

/// The exec form of `token_key_access`.
fn token_key_access_exec() -> (r: Vec<u8>)
    ensures
        r@ == token_key_access(),
{
    let mut v: Vec<u8> = Vec::new();
    v.push(97);
    v.push(99);
    v.push(99);
    v.push(101);
    v.push(115);
    v.push(115);
    proof {
        assert(v@ =~= token_key_access());
    }
    v
}

/// The exec form of `token_key_refresh`.
fn token_key_refresh_exec() -> (r: Vec<u8>)
    ensures
        r@ == token_key_refresh(),
{
    let mut v: Vec<u8> = Vec::new();
    v.push(114);
    v.push(101);
    v.push(102);
    v.push(114);
    v.push(101);
    v.push(115);
    v.push(104);
    proof {
        assert(v@ =~= token_key_refresh());
    }
    v
}

/// The exec form of `token_key_expires`.
fn token_key_expires_exec() -> (r: Vec<u8>)
    ensures
        r@ == token_key_expires(),
{
    let mut v: Vec<u8> = Vec::new();
    v.push(101);
    v.push(120);
    v.push(112);
    v.push(105);
    v.push(114);
    v.push(101);
    v.push(115);
    proof {
        assert(v@ =~= token_key_expires());
    }
    v
}

/// Writes a token set as a stored record. The record reads back to exactly
/// this token set, and its size is linear in the token fields.
pub fn encode_token_record(t: &TokenSet) -> (r: Vec<u8>)
    ensures
        record_matches(r@, *t),
        r@.len() <= 200 + 3 * (encode_utf8(t.access_token@).len() + spec_refresh_len(*t)),
{
    let mut buf: Vec<u8> = Vec::new();
    let akey = token_key_access_exec();
    push_pair(&mut buf, akey.as_slice(), t.access_token.as_str().as_bytes());
    let ghost seg_a = buf@;
    proof {
        segment_pair_encoded(token_key_access(), encode_utf8(t.access_token@));
        assert(seg_a =~= crate::encoding::pct_encoded(token_key_access()) + seq![61u8]
            + crate::encoding::pct_encoded(encode_utf8(t.access_token@)));
    }
    let mut refresh_present: bool = false;
    let ghost mut seg_r: Seq<u8> = seq![];
    match &t.refresh_token {
        Some(rt) => {
            let rkey = token_key_refresh_exec();
            let ghost before = buf@;
            push_pair(&mut buf, rkey.as_slice(), rt.as_str().as_bytes());
            refresh_present = true;
            proof {
                seg_r = crate::encoding::pct_encoded(token_key_refresh()) + seq![61u8]
                    + crate::encoding::pct_encoded(encode_utf8(rt@));
                segment_pair_encoded(token_key_refresh(), encode_utf8(rt@));
                assert(buf@ =~= before + seq![38u8] + seg_r);
            }
        },
        None => {},
    }
    let ghost mid = buf@;
    let ghost mut seg_e: Seq<u8> = seq![];
    let mut expires_present: bool = false;
    match t.expires_at {
        Some(e) => {
            let ekey = token_key_expires_exec();
            let digits = format_u64(e);
            let ghost before = buf@;
            push_pair(&mut buf, ekey.as_slice(), digits.as_slice());
            expires_present = true;
            proof {
                seg_e = crate::encoding::pct_encoded(token_key_expires()) + seq![61u8]
                    + crate::encoding::pct_encoded(dec_digits(e as nat));
                segment_pair_encoded(token_key_expires(), dec_digits(e as nat));
                assert(buf@ =~= before + seq![38u8] + seg_e);
            }
        },
        None => {},
    }
    proof {
        dec_digits_value_if_some(t.expires_at);
        lemma_record_pairs(*t, seg_a, seg_r, seg_e, refresh_present, expires_present, buf@);
        pct_encoded_len(token_key_access());
        pct_encoded_len(encode_utf8(t.access_token@));
        match &t.refresh_token {
            Some(rt) => {
                pct_encoded_len(token_key_refresh());
                pct_encoded_len(encode_utf8(rt@));
            },
            None => {},
        }
        match t.expires_at {
            Some(e) => {
                pct_encoded_len(token_key_expires());
                dec_digits_len_u64(e);
                pct_encoded_len(dec_digits(e as nat));
            },
            None => {},
        }
    }
    buf
}

/// Helper: establishes the digit facts of the stored expiry.
proof fn dec_digits_value_if_some(e: Option<u64>)
    ensures
        e matches Some(v) ==> all_dec_digits(dec_digits(v as nat))
            && dec_value(dec_digits(v as nat)) == v,
{
    match e {
        Some(v) => dec_digits_value(v as nat),
        None => {},
    }
}

/// Helper: a record assembled from the given segments reads back to the
/// token set's fields.
proof fn lemma_record_pairs(
    t: TokenSet,
    seg_a: Seq<u8>,
    seg_r: Seq<u8>,
    seg_e: Seq<u8>,
    refresh_present: bool,
    expires_present: bool,
    rec: Seq<u8>,
)
    requires
        seg_a == crate::encoding::pct_encoded(token_key_access()) + seq![61u8]
            + crate::encoding::pct_encoded(encode_utf8(t.access_token@)),
        refresh_present <==> t.refresh_token is Some,
        expires_present <==> t.expires_at is Some,
        t.refresh_token matches Some(rt) ==> seg_r == crate::encoding::pct_encoded(
            token_key_refresh()) + seq![61u8] + crate::encoding::pct_encoded(encode_utf8(rt@)),
        t.expires_at matches Some(e) ==> seg_e == crate::encoding::pct_encoded(
            token_key_expires()) + seq![61u8] + crate::encoding::pct_encoded(dec_digits(e as nat)),
        rec == if refresh_present && expires_present {
            seg_a + seq![38u8] + seg_r + seq![38u8] + seg_e
        } else if refresh_present {
            seg_a + seq![38u8] + seg_r
        } else if expires_present {
            seg_a + seq![38u8] + seg_e
        } else {
            seg_a
        },
    ensures
        record_matches(rec, t),
{
    reveal_with_fuel(pairs_lookup, 5);
    segment_pair_encoded(token_key_access(), encode_utf8(t.access_token@));
    let pair_a = (token_key_access(), encode_utf8(t.access_token@));
    assert(token_key_access().len() == 6);
    assert(token_key_refresh().len() == 7);
    assert(token_key_expires().len() == 7);
    assert(token_key_refresh()[0] == 114 && token_key_expires()[0] == 101);
    assert(token_key_access() != token_key_refresh());
    assert(token_key_access() != token_key_expires());
    assert(token_key_refresh() != token_key_expires());
    if refresh_present && expires_present {
        let rt = t.refresh_token->Some_0;
        let e = t.expires_at->Some_0;
        segment_pair_encoded(token_key_refresh(), encode_utf8(rt@));
        segment_pair_encoded(token_key_expires(), dec_digits(e as nat));
        dec_digits_value(e as nat);
        let tail = seg_r + seq![38u8] + seg_e;
        assert(rec =~= seg_a + seq![38u8] + tail);
        query_pairs_prepend(seg_a, tail);
        query_pairs_prepend(seg_r, seg_e);
        query_pairs_single(seg_e);
        let pair_r = (token_key_refresh(), encode_utf8(rt@));
        let pair_e = (token_key_expires(), dec_digits(e as nat));
        let ps = seq![pair_a, pair_r, pair_e];
        assert(query_pairs(rec) =~= ps);
        assert(ps.drop_first() =~= seq![pair_r, pair_e]);
        assert(seq![pair_r, pair_e].drop_first() =~= seq![pair_e]);
        assert(seq![pair_e].drop_first() =~= Seq::<(Seq<u8>, Seq<u8>)>::empty());
        assert(pairs_lookup(ps, token_key_access()) == Some(pair_a.1));
        assert(pairs_lookup(ps, token_key_refresh()) == Some(pair_r.1));
        assert(pairs_lookup(ps, token_key_expires()) == Some(pair_e.1));
    } else if refresh_present {
        let rt = t.refresh_token->Some_0;
        segment_pair_encoded(token_key_refresh(), encode_utf8(rt@));
        query_pairs_prepend(seg_a, seg_r);
        query_pairs_single(seg_r);
        let pair_r = (token_key_refresh(), encode_utf8(rt@));
        let ps = seq![pair_a, pair_r];
        assert(query_pairs(rec) =~= ps);
        assert(ps.drop_first() =~= seq![pair_r]);
        assert(seq![pair_r].drop_first() =~= Seq::<(Seq<u8>, Seq<u8>)>::empty());
        assert(pairs_lookup(ps, token_key_access()) == Some(pair_a.1));
        assert(pairs_lookup(ps, token_key_refresh()) == Some(pair_r.1));
        assert(pairs_lookup(ps, token_key_expires()) is None);
    } else if expires_present {
        let e = t.expires_at->Some_0;
        segment_pair_encoded(token_key_expires(), dec_digits(e as nat));
        dec_digits_value(e as nat);
        query_pairs_prepend(seg_a, seg_e);
        query_pairs_single(seg_e);
        let pair_e = (token_key_expires(), dec_digits(e as nat));
        let ps = seq![pair_a, pair_e];
        assert(query_pairs(rec) =~= ps);
        assert(ps.drop_first() =~= seq![pair_e]);
        assert(seq![pair_e].drop_first() =~= Seq::<(Seq<u8>, Seq<u8>)>::empty());
        assert(pairs_lookup(ps, token_key_access()) == Some(pair_a.1));
        assert(pairs_lookup(ps, token_key_refresh()) is None);
        assert(pairs_lookup(ps, token_key_expires()) == Some(pair_e.1));
    } else {
        query_pairs_single(seg_a);
        let ps = seq![pair_a];
        assert(query_pairs(rec) =~= ps);
        assert(ps.drop_first() =~= Seq::<(Seq<u8>, Seq<u8>)>::empty());
        assert(pairs_lookup(ps, token_key_access()) == Some(pair_a.1));
        assert(pairs_lookup(ps, token_key_refresh()) is None);
        assert(pairs_lookup(ps, token_key_expires()) is None);
    }
}

/// Reads a stored record back into a token set.
///
/// Succeeds exactly on records that represent some token set, and the
/// result is the represented one.
pub fn parse_token_record(record: &[u8]) -> (r: Option<TokenSet>)
    ensures
        r matches Some(t) ==> record_matches(record@, t),
        r is None ==> forall|t: TokenSet| !record_matches(record@, t),
{
    let pairs = parse_query(record);
    let akey = token_key_access_exec();
    let access_bytes = match lookup_pair(&pairs, akey.as_slice()) {
        Some(b) => b,
        None => {
            return None;
        },
    };
    let ghost access_view = access_bytes@;
    let access = match bytes_into_string(access_bytes) {
        Ok(s) => s,
        Err(_) => {
            proof {
                assert forall|t: TokenSet| !record_matches(record@, t) by {
                    if record_matches(record@, t) {
                        encode_utf8_valid_utf8(t.access_token@);
                    }
                }
            }
            return None;
        },
    };
    let rkey = token_key_refresh_exec();
    let refresh_token = match lookup_pair(&pairs, rkey.as_slice()) {
        Some(b) => {
            let ghost b_view = b@;
            match bytes_into_string(b) {
                Ok(s) => Some(s),
                Err(_) => {
                    proof {
                        assert forall|t: TokenSet| !record_matches(record@, t) by {
                            if record_matches(record@, t) {
                                match t.refresh_token {
                                    Some(rt) => {
                                        encode_utf8_valid_utf8(rt@);
                                    },
                                    None => {},
                                }
                            }
                        }
                    }
                    return None;
                },
            }
        },
        None => None,
    };
    let ekey = token_key_expires_exec();
    let expires_at = match lookup_pair(&pairs, ekey.as_slice()) {
        Some(digits) => {
            match parse_u64(digits.as_slice()) {
                Some(v) => Some(v),
                None => {
                    return None;
                },
            }
        },
        None => None,
    };
    Some(TokenSet { access_token: access, refresh_token, expires_at })
}

} // verus!

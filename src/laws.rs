//! Properties that hold across calls of the service.

use vstd::prelude::*;
use crate::errors::ShortenError;
use crate::models::{parses_as_url, CreateLinkRequest, LinkView};
use crate::password::argon2_accepts;
use crate::policy::{is_exhausted, is_expired, Outcome};
use crate::service::{created_from, records_after, request_error, resolution_in};

verus! {

/// A link just created for a URL, with no alias and no policy, resolves to
/// that URL, at the time of creation and at any later time.
pub proof fn lemma_round_trip(
    before: Map<Seq<char>, LinkView>,
    request: CreateLinkRequest,
    now: i64,
    link: LinkView,
    later: i64,
)
    requires
        parses_as_url(request.original_url@),
        request.custom_alias is None,
        request.expires_at is None,
        request.password is None,
        request.click_limit is None,
        created_from(link, request, now),
    ensures
        resolution_in(before.insert(link.short_code, link), link.short_code, now, None)
            == Outcome::Found(request.original_url@),
        resolution_in(before.insert(link.short_code, link), link.short_code, later, None)
            == Outcome::Found(request.original_url@),
{
}

/// A code that no record carries resolves to `NotFound`, and resolving it
/// changes nothing.
pub proof fn lemma_unknown_code(
    records: Map<Seq<char>, LinkView>,
    code: Seq<char>,
    now: i64,
    password: Option<Seq<char>>,
)
    requires
        !records.contains_key(code),
    ensures
        resolution_in(records, code, now, password) == Outcome::NotFound,
        records_after(records, code, now, password) == records,
{
}

proof fn lemma_claimed_stay(
    stores: Seq<Map<Seq<char>, LinkView>>,
    codes: Seq<Seq<char>>,
    links: Seq<LinkView>,
    i: int,
    j: int,
)
    requires
        stores.len() == codes.len() + 1,
        links.len() == codes.len(),
        forall|k: int|
            0 <= k < codes.len() ==> #[trigger] stores[k + 1] == stores[k].insert(
                codes[k],
                links[k],
            ),
        0 <= i < j <= codes.len(),
    ensures
        stores[j].contains_key(codes[i]),
    decreases j - i,
{
    assert(stores[i + 1] == stores[i].insert(codes[i], links[i]));
    if j > i + 1 {
        lemma_claimed_stay(stores, codes, links, i, j - 1);
        let k = j - 1;
        assert(stores[k + 1] == stores[k].insert(codes[k], links[k]));
    }
}

/// Successive allocations, each of which claims a code absent from the
/// store at that moment, yield pairwise distinct codes.
pub proof fn lemma_distinct_codes(
    stores: Seq<Map<Seq<char>, LinkView>>,
    codes: Seq<Seq<char>>,
    links: Seq<LinkView>,
)
    requires
        stores.len() == codes.len() + 1,
        links.len() == codes.len(),
        forall|k: int| 0 <= k < codes.len() ==> !(#[trigger] stores[k]).contains_key(codes[k]),
        forall|k: int|
            0 <= k < codes.len() ==> #[trigger] stores[k + 1] == stores[k].insert(
                codes[k],
                links[k],
            ),
    ensures
        forall|i: int, j: int|
            #![trigger codes[i], codes[j]]
            0 <= i < j < codes.len() ==> codes[i] != codes[j],
{
    assert forall|i: int, j: int|
        #![trigger codes[i], codes[j]]
        0 <= i < j < codes.len() implies codes[i] != codes[j] by {
        lemma_claimed_stay(stores, codes, links, i, j);
        assert(!stores[j].contains_key(codes[j]));
    }
}

/// A link whose expiry time is past yields `Expired`, also after an earlier
/// resolution of it, whatever that yielded.
pub proof fn lemma_expired(
    records: Map<Seq<char>, LinkView>,
    code: Seq<char>,
    earlier: i64,
    earlier_password: Option<Seq<char>>,
    now: i64,
    password: Option<Seq<char>>,
)
    requires
        records.contains_key(code),
        is_expired(records[code], now),
    ensures
        resolution_in(records, code, now, password) == Outcome::Expired,
        resolution_in(
            records_after(records, code, earlier, earlier_password),
            code,
            now,
            password,
        ) == Outcome::Expired,
{
}

/// A link with a click limit of one is found once. That resolution uses up
/// the limit and deactivates the record, and the next one yields
/// `LimitExhausted`.
pub proof fn lemma_single_click(
    records: Map<Seq<char>, LinkView>,
    code: Seq<char>,
    first: i64,
    second: i64,
)
    requires
        records.contains_key(code),
        records[code].click_limit == Some(1i32),
        records[code].is_active,
        records[code].password_hash is None,
        !is_expired(records[code], first),
        !is_expired(records[code], second),
    ensures
        resolution_in(records, code, first, None) == Outcome::Found(records[code].original_url),
        records_after(records, code, first, None)[code].click_limit == Some(0i32),
        records_after(records, code, first, None)[code].is_active == false,
        resolution_in(records_after(records, code, first, None), code, second, None)
            == Outcome::LimitExhausted,
{
}

/// A link whose click limit is used up yields `LimitExhausted`, active or
/// not, when it has no password gate.
pub proof fn lemma_limit_exhausted(
    records: Map<Seq<char>, LinkView>,
    code: Seq<char>,
    now: i64,
    password: Option<Seq<char>>,
)
    requires
        records.contains_key(code),
        is_exhausted(records[code]),
        !is_expired(records[code], now),
        records[code].password_hash is None,
    ensures
        resolution_in(records, code, now, password) == Outcome::LimitExhausted,
        records_after(records, code, now, password) =~= records,
{
}

/// A link created with a password asks for it, refuses a password that does
/// not verify against the stored hash, and is found with the one it was
/// created with.
pub proof fn lemma_password_gate(
    before: Map<Seq<char>, LinkView>,
    request: CreateLinkRequest,
    now: i64,
    link: LinkView,
    wrong: Seq<char>,
    at: i64,
)
    requires
        request.password is Some,
        request.expires_at is None,
        request.click_limit is None,
        created_from(link, request, now),
        !argon2_accepts(wrong, link.password_hash->0),
    ensures
        resolution_in(before.insert(link.short_code, link), link.short_code, at, None)
            == Outcome::PasswordRequired,
        resolution_in(before.insert(link.short_code, link), link.short_code, at, Some(wrong))
            == Outcome::PasswordMismatch,
        resolution_in(
            before.insert(link.short_code, link),
            link.short_code,
            at,
            Some(request.password->0@),
        ) == Outcome::Found(request.original_url@),
{
}

/// Once a request with a custom alias has created its link, the same
/// request is refused with `AliasTaken`, whenever it is otherwise valid, and
/// the first link stays stored under the alias. (`shorten` leaves the store
/// unchanged whenever `request_error` names an error.)
pub proof fn lemma_alias_taken(
    before: Map<Seq<char>, LinkView>,
    request: CreateLinkRequest,
    now: i64,
    link: LinkView,
    again: i64,
)
    requires
        request.custom_alias is Some,
        request_error(request, now, before) is None,
        request_error(request, again, before) is None,
        created_from(link, request, now),
    ensures
        request_error(request, again, before.insert(link.short_code, link)) == Some(
            ShortenError::AliasTaken,
        ),
        before.insert(link.short_code, link)[request.custom_alias->0@] == link,
{
}

} // verus!

//! Allocation of short codes and resolution of short links.

use vstd::prelude::*;
use crate::code::{generate_random_code, is_code, CODE_LENGTH};
use crate::errors::ShortenError;
use crate::models::{is_valid_url, parses_as_url, CreateLinkRequest, Link, LinkView};
use crate::password::{argon2_accepts, hash_password, MAX_PASSWORD_CHARS};
use crate::policy::{
    after_resolution, opt_str_view, outcome_of, password_check, resolve_link, Outcome,
    ResolutionOutcome,
};
use crate::store::MemoryStore;

verus! {

/// Candidate codes drawn before allocation gives up.
pub const DEFAULT_MAX_ATTEMPTS: u32 = 8;

/// Lifetime of a stored mapping without an expiry time: seven days.
pub const DEFAULT_TTL_SECONDS: u64 = 604800;

/// What to do after an attempt to claim a candidate code.
#[derive(Clone, Copy, Debug, PartialEq, Eq, Structural)]
pub enum AllocationStep {
    /// The candidate was claimed: it is the code.
    Done,
    /// The candidate was taken: draw another.
    Retry,
    /// The candidate was taken and no attempt is left.
    GiveUp,
}

/// The step after `attempt` attempts (counting the one just made) out of
/// `max_attempts`, the last of which did or did not claim its candidate.
pub open spec fn allocation_step(attempt: u32, max_attempts: u32, claimed: bool) -> AllocationStep {
    if claimed {
        AllocationStep::Done
    } else if attempt < max_attempts {
        AllocationStep::Retry
    } else {
        AllocationStep::GiveUp
    }
}

/// Decides the next step of the allocation loop.
pub fn next_allocation_step(attempt: u32, max_attempts: u32, claimed: bool) -> (r: AllocationStep)
    ensures
        r == allocation_step(attempt, max_attempts, claimed),
{
    if claimed {
        AllocationStep::Done
    } else if attempt < max_attempts {
        AllocationStep::Retry
    } else {
        AllocationStep::GiveUp
    }
}

/// The store key of `code` under `prefix`.
pub fn storage_key(prefix: &str, code: &str) -> (r: String)
    ensures
        r@ == prefix@ + code@,
{
    prefix.to_owned().concat(code)
}

/// Seconds a mapping is kept: until `expires_at` when it lies ahead of
/// `now`, else `default_ttl`.
pub open spec fn ttl_for(expires_at: Option<i64>, now: i64, default_ttl: u64) -> int {
    match expires_at {
        Some(e) => if e > now {
            e - now
        } else {
            default_ttl as int
        },
        None => default_ttl as int,
    }
}

/// Seconds a mapping is kept in a store that evicts by time.
pub fn ttl_seconds(expires_at: Option<i64>, now: i64, default_ttl: u64) -> (r: u64)
    ensures
        r == ttl_for(expires_at, now, default_ttl),
{
    match expires_at {
        Some(e) => if e > now {
            (e as i128 - now as i128) as u64
        } else {
            default_ttl
        },
        None => default_ttl,
    }
}

/// The outcome of looking up the stored value of a short code in a store
/// that only maps codes to target URLs.
pub fn outcome_for_target(target: Option<String>) -> (r: ResolutionOutcome)
    ensures
        r@ == match target {
            Some(u) => Outcome::Found(u@),
            None => Outcome::NotFound,
        },
{
    match target {
        Some(u) => ResolutionOutcome::Found(u),
        None => ResolutionOutcome::NotFound,
    }
}

/// The reason a request is refused before a code is claimed, if any. The
/// checks apply in order: URL, expiry, click limit, custom alias.
pub open spec fn request_error(
    request: CreateLinkRequest,
    now: i64,
    existing: Map<Seq<char>, LinkView>,
) -> Option<ShortenError> {
    if !parses_as_url(request.original_url@) {
        Some(ShortenError::InvalidUrl)
    } else if request.expires_at is Some && request.expires_at->0 <= now {
        Some(ShortenError::InvalidExpiry)
    } else if request.click_limit is Some && request.click_limit->0 < 0 {
        Some(ShortenError::InvalidClickLimit)
    } else if request.custom_alias is Some && existing.contains_key(
        request.custom_alias->0@,
    ) {
        Some(ShortenError::AliasTaken)
    } else {
        None
    }
}

/// Checks the URL, expiry time and click limit of `request` at time `now`,
/// in that order, without looking at any store.
pub fn check_request(request: &CreateLinkRequest, now: i64) -> (r: Result<(), ShortenError>)
    ensures
        r == match request_error(*request, now, Map::empty()) {
            Some(e) => Err::<(), ShortenError>(e),
            None => Ok(()),
        },
{
    if !is_valid_url(request.original_url.as_str()) {
        return Err(ShortenError::InvalidUrl);
    }
    match request.expires_at {
        Some(e) => if e <= now {
            return Err(ShortenError::InvalidExpiry);
        },
        None => {},
    }
    match request.click_limit {
        Some(n) => if n < 0 {
            return Err(ShortenError::InvalidClickLimit);
        },
        None => {},
    }
    Ok(())
}

/// `l` is the record that `request` creates at time `now`: the policy of the
/// request, active, with the custom alias as its code or else a generated
/// one, and only a hash of the password, which verifies against it.
pub open spec fn created_from(l: LinkView, request: CreateLinkRequest, now: i64) -> bool {
    &&& l.original_url == request.original_url@
    &&& l.created_at == now
    &&& l.expires_at == request.expires_at
    &&& l.click_limit == request.click_limit
    &&& l.is_active
    &&& match request.password {
        None => l.password_hash is None,
        Some(p) => l.password_hash is Some && argon2_accepts(p@, l.password_hash->0),
    }
    &&& match request.custom_alias {
        Some(a) => l.short_code == a@,
        None => l.short_code.len() == CODE_LENGTH && is_code(l.short_code),
    }
}

/// The password of the request fits the hasher.
pub open spec fn password_fits(request: &CreateLinkRequest) -> bool {
    request.password is Some ==> request.password->0@.len() <= MAX_PASSWORD_CHARS
}

/// Some record of `m` carries a code of the generated shape: six letters or
/// digits. Without one, the first candidate drawn is always free.
pub open spec fn holds_generated_code(m: Map<Seq<char>, LinkView>) -> bool {
    exists|c: Seq<char>| #[trigger] m.contains_key(c) && c.len() == CODE_LENGTH && is_code(c)
}

/// Stores a copy of `template` under a fresh random code, drawing at most
/// `max_attempts` candidates. Each candidate is claimed in one step, so a
/// code already present is never overwritten.
pub fn claim_fresh_code(store: &mut MemoryStore, template: &Link, max_attempts: u32) -> (r: Result<
    Link,
    ShortenError,
>)
    requires
        old(store).wf(),
    ensures
        final(store).wf(),
        match r {
            Ok(l) => {
                &&& l@ == LinkView { short_code: l.short_code@, ..template@ }
                &&& l.short_code@.len() == CODE_LENGTH
                &&& is_code(l.short_code@)
                &&& !old(store)@.contains_key(l.short_code@)
                &&& final(store)@ == old(store)@.insert(l.short_code@, l@)
            },
            Err(e) => e == ShortenError::AllocationExhausted && final(store)@ == old(store)@,
        },
        max_attempts == 0 ==> r is Err,
        r is Err ==> max_attempts == 0 || holds_generated_code(old(store)@),
{
    let mut attempt: u32 = 0;
    while attempt < max_attempts
        invariant
            store.wf(),
            store@ == old(store)@,
            attempt <= max_attempts,
            attempt > 0 ==> holds_generated_code(old(store)@),
        decreases max_attempts - attempt,
    {
        let mut link = template.duplicate();
        link.short_code = generate_random_code(CODE_LENGTH);
        let copy = link.duplicate();
        let ghost code = link.short_code@;
        let claimed = store.insert_if_absent(link);
        proof {
            if !claimed {
                assert(old(store)@.contains_key(code) && code.len() == CODE_LENGTH && is_code(code));
            }
        }
        attempt += 1;
        match next_allocation_step(attempt, max_attempts, claimed) {
            AllocationStep::Done => {
                return Ok(copy);
            },
            AllocationStep::Retry => {},
            AllocationStep::GiveUp => {
                return Err(ShortenError::AllocationExhausted);
            },
        }
    }
    Err(ShortenError::AllocationExhausted)
}

/// Creates a short link for `request` at time `now`.
///
/// The request is checked before anything is written; a custom alias is
/// claimed as given, otherwise a fresh code is drawn (at most `max_attempts`
/// times). A refused request leaves the store as it was.
pub fn shorten(
    store: &mut MemoryStore,
    request: &CreateLinkRequest,
    now: i64,
    max_attempts: u32,
) -> (r: Result<Link, ShortenError>)
    requires
        old(store).wf(),
        password_fits(request),
    ensures
        final(store).wf(),
        match request_error(*request, now, old(store)@) {
            Some(e) => r == Err::<Link, ShortenError>(e) && final(store)@ == old(store)@,
            None => match r {
                Ok(l) => {
                    &&& created_from(l@, *request, now)
                    &&& l.id == old(store).size()
                    &&& !old(store)@.contains_key(l.short_code@)
                    &&& final(store)@ == old(store)@.insert(l.short_code@, l@)
                },
                Err(e) => {
                    &&& request.custom_alias is None
                    &&& e == ShortenError::AllocationExhausted
                    &&& final(store)@ == old(store)@
                    &&& (max_attempts == 0 || holds_generated_code(old(store)@))
                },
            },
        },
{
    match check_request(request, now) {
        Ok(()) => {},
        Err(e) => {
            return Err(e);
        },
    }
    let password_hash = match &request.password {
        Some(p) => Some(hash_password(p.as_str())),
        None => None,
    };
    let id = store.len() as u128;
    match &request.custom_alias {
        Some(alias) => {
            let link = Link {
                id,
                original_url: request.original_url.clone(),
                short_code: alias.clone(),
                created_at: now,
                expires_at: request.expires_at,
                password_hash,
                click_limit: request.click_limit,
                is_active: true,
            };
            let copy = link.duplicate();
            if store.insert_if_absent(link) {
                Ok(copy)
            } else {
                Err(ShortenError::AliasTaken)
            }
        },
        None => {
            let template = Link {
                id,
                original_url: request.original_url.clone(),
                short_code: String::new(),
                created_at: now,
                expires_at: request.expires_at,
                password_hash,
                click_limit: request.click_limit,
                is_active: true,
            };
            claim_fresh_code(store, &template, max_attempts)
        },
    }
}

/// The outcome of resolving `code` at time `now` against the records `m`.
pub open spec fn resolution_in(
    m: Map<Seq<char>, LinkView>,
    code: Seq<char>,
    now: i64,
    password: Option<Seq<char>>,
) -> Outcome {
    if m.contains_key(code) {
        outcome_of(m[code], now, password_check(m[code], password))
    } else {
        Outcome::NotFound
    }
}

/// The records `m` after resolving `code` at time `now`.
pub open spec fn records_after(
    m: Map<Seq<char>, LinkView>,
    code: Seq<char>,
    now: i64,
    password: Option<Seq<char>>,
) -> Map<Seq<char>, LinkView> {
    if m.contains_key(code) {
        m.insert(code, after_resolution(m[code], now, password_check(m[code], password)))
    } else {
        m
    }
}

/// Resolves `code` at time `now`, with an optional password: the verdict on
/// the record, with one click taken off its limit when it is found.
pub fn resolve(store: &mut MemoryStore, code: &str, password: Option<&str>, now: i64) -> (r:
    ResolutionOutcome)
    requires
        old(store).wf(),
    ensures
        final(store).wf(),
        r@ == resolution_in(old(store)@, code@, now, opt_str_view(password)),
        final(store)@ == records_after(old(store)@, code@, now, opt_str_view(password)),
{
    let key = code.to_owned();
    match store.get(&key) {
        None => ResolutionOutcome::NotFound,
        Some(link) => {
            let (outcome, after) = resolve_link(&link, now, password);
            store.replace(after);
            outcome
        },
    }
}

} // verus!

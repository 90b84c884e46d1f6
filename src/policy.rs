//! What resolving a stored link yields, and how the record changes.

use vstd::prelude::*;
use crate::models::{Link, LinkView};
use crate::password::{argon2_accepts, argon2_verify};

verus! {

/// The result of resolving a short code.
///
/// Only `Found` sends the caller on; the others are typed verdicts, not
/// errors.
#[derive(Clone, Debug, PartialEq, Eq)]
pub enum ResolutionOutcome {
    Found(String),
    NotFound,
    Expired,
    Inactive,
    PasswordRequired,
    PasswordMismatch,
    LimitExhausted,
}

/// The value of a [`ResolutionOutcome`].
pub enum Outcome {
    Found(Seq<char>),
    NotFound,
    Expired,
    Inactive,
    PasswordRequired,
    PasswordMismatch,
    LimitExhausted,
}

impl View for ResolutionOutcome {
    type V = Outcome;

    open spec fn view(&self) -> Outcome {
        match self {
            ResolutionOutcome::Found(u) => Outcome::Found(u@),
            ResolutionOutcome::NotFound => Outcome::NotFound,
            ResolutionOutcome::Expired => Outcome::Expired,
            ResolutionOutcome::Inactive => Outcome::Inactive,
            ResolutionOutcome::PasswordRequired => Outcome::PasswordRequired,
            ResolutionOutcome::PasswordMismatch => Outcome::PasswordMismatch,
            ResolutionOutcome::LimitExhausted => Outcome::LimitExhausted,
        }
    }
}

/// The link carries an expiry time and `now` is past it.
pub open spec fn is_expired(l: LinkView, now: i64) -> bool {
    match l.expires_at {
        Some(e) => e < now,
        None => false,
    }
}

/// The link carries a click limit with nothing left of it.
pub open spec fn is_exhausted(l: LinkView) -> bool {
    match l.click_limit {
        Some(n) => n <= 0,
        None => false,
    }
}

/// The verdict on `l` at time `now`. `password` is `None` when no password
/// was supplied, and otherwise whether the supplied one verifies against the
/// link's hash. The checks apply in order: expiry, deactivation, password,
/// click limit. A link deactivated because its clicks are used up reports
/// the used-up limit rather than the deactivation.
pub open spec fn outcome_of(l: LinkView, now: i64, password: Option<bool>) -> Outcome {
    if is_expired(l, now) {
        Outcome::Expired
    } else if !l.is_active && !is_exhausted(l) {
        Outcome::Inactive
    } else if l.password_hash is Some && password is None {
        Outcome::PasswordRequired
    } else if l.password_hash is Some && password == Some(false) {
        Outcome::PasswordMismatch
    } else if is_exhausted(l) {
        Outcome::LimitExhausted
    } else {
        Outcome::Found(l.original_url)
    }
}

/// The record after a successful resolution: one click taken off its limit,
/// and deactivated when that leaves none.
pub open spec fn after_click(l: LinkView) -> LinkView {
    match l.click_limit {
        Some(n) => LinkView { click_limit: Some((n - 1) as i32), is_active: n - 1 != 0, ..l },
        None => l,
    }
}

/// The record after resolving it with verdict `outcome_of(l, now, password)`.
pub open spec fn after_resolution(l: LinkView, now: i64, password: Option<bool>) -> LinkView {
    if outcome_of(l, now, password) is Found {
        after_click(l)
    } else {
        l
    }
}

/// The characters of an optional string slice.
pub open spec fn opt_str_view(s: Option<&str>) -> Option<Seq<char>> {
    match s {
        Some(v) => Some(v@),
        None => None,
    }
}

/// What the password check says of `password` for `l`: `None` when none was
/// supplied; when the link has no hash, any supplied password passes.
pub open spec fn password_check(l: LinkView, password: Option<Seq<char>>) -> Option<bool> {
    match password {
        None => None,
        Some(p) => match l.password_hash {
            Some(h) => Some(argon2_accepts(p, h)),
            None => Some(true),
        },
    }
}

/// The verdict on `link` at time `now`, given the result of the password
/// check (`None` when no password was supplied).
pub fn judge(link: &Link, now: i64, password: Option<bool>) -> (r: ResolutionOutcome)
    ensures
        r@ == outcome_of(link@, now, password),
{
    let expired = match link.expires_at {
        Some(e) => e < now,
        None => false,
    };
    let exhausted = match link.click_limit {
        Some(n) => n <= 0,
        None => false,
    };
    if expired {
        ResolutionOutcome::Expired
    } else if !link.is_active && !exhausted {
        ResolutionOutcome::Inactive
    } else if link.password_hash.is_some() && password.is_none() {
        ResolutionOutcome::PasswordRequired
    } else if link.password_hash.is_some() && password == Some(false) {
        ResolutionOutcome::PasswordMismatch
    } else if exhausted {
        ResolutionOutcome::LimitExhausted
    } else {
        ResolutionOutcome::Found(link.original_url.clone())
    }
}

/// Takes one click off the link's limit, deactivating it when none is left.
pub fn take_click(link: &Link) -> (r: Link)
    requires
        !is_exhausted(link@),
    ensures
        r@ == after_click(link@),
{
    let mut r = link.duplicate();
    match link.click_limit {
        Some(n) => {
            r.click_limit = Some(n - 1);
            r.is_active = n - 1 != 0;
        },
        None => {},
    }
    r
}

/// Resolves `link` at time `now` with an optional password: the verdict and
/// the record as it stands afterwards.
pub fn resolve_link(link: &Link, now: i64, password: Option<&str>) -> (r: (ResolutionOutcome, Link))
    ensures
        r.0@ == outcome_of(link@, now, password_check(link@, opt_str_view(password))),
        r.1@ == after_resolution(link@, now, password_check(link@, opt_str_view(password))),
{
    let check = match password {
        None => None,
        Some(p) => match &link.password_hash {
            Some(h) => Some(argon2_verify(p, h.as_str())),
            None => Some(true),
        },
    };
    let outcome = judge(link, now, check);
    let after = match outcome {
        ResolutionOutcome::Found(_) => take_click(link),
        _ => link.duplicate(),
    };
    (outcome, after)
}

} // verus!

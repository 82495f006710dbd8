//! Broker facade: wraps one credential lifecycle manager together with a
//! "last refreshed" timestamp and applies a fixed 30-minute staleness
//! policy before serving a capability call.
//!
//! The facade is a small state machine over `last_updated`: `None` until
//! the first successful refresh, then always the completion time of the
//! latest one, advanced and never rolled back. The network exchange
//! itself is a collaborator: [`TdaBroker::maybe_update`] names the grant
//! to perform and [`TdaBroker::complete_update`] applies its outcome.

use vstd::prelude::*;

use crate::tda_client::applied_response;
use crate::tda_client::grant_request_for;
use crate::tda_client::Client;
use crate::tda_client::TokenRequest;
use crate::tda_client::TokenResponse;
use crate::Rational;
use crate::TdaError;

verus! {

/// Seconds after which a served credential counts as stale: 30 minutes.
pub const STALENESS_SECONDS: i64 = 1800;

/// An open position; its shape belongs to the brokerage schema outside
/// this crate's scope.
#[derive(Clone, Debug)]
pub struct Position {}

/// A standing order; its shape belongs to the brokerage schema outside
/// this crate's scope.
#[derive(Clone, Debug)]
pub struct Order {}

/// The broker facade: one credential plus the time of its last
/// successful refresh.
#[derive(Clone, Debug)]
pub struct TdaBroker {
    pub client: Client,
    pub last_updated: Option<i64>,
}

/// How one completed exchange at time `now` carries the facade from
/// `pre` to `post`: the credential absorbs the reply and `last_updated`
/// becomes `now`.
pub open spec fn updated(pre: TdaBroker, resp: TokenResponse, now: i64, post: TdaBroker) -> bool {
    &&& applied_response(pre.client, resp, now as int, post.client)
    &&& post.last_updated == Some(now)
}

impl TdaBroker {
    /// Whether the credential is stale at time `now`: it has never been
    /// refreshed, or its last refresh lies more than the staleness
    /// threshold in the past.
    pub open spec fn stale_at(self, now: int) -> bool {
        match self.last_updated {
            Option::None => true,
            Option::Some(t) => t + STALENESS_SECONDS < now,
        }
    }

    /// A facade over the given credential that has not yet refreshed.
    pub fn new(client: Client) -> (b: TdaBroker)
        ensures
            b.client == client,
            b.last_updated is None,
    {
        TdaBroker { client, last_updated: Option::None }
    }

    /// Whether a capability call at time `now` must refresh first.
    pub fn needs_update(&self, now: i64) -> (r: bool)
        ensures
            r == self.stale_at(now as int),
    {
        match self.last_updated {
            Option::None => true,
            Option::Some(t) => (t as i128) + (STALENESS_SECONDS as i128) < (now as i128),
        }
    }

    /// The staleness decision of a capability call at time `now`:
    /// exactly when the credential is stale, the grant to perform;
    /// otherwise no network action.
    pub fn maybe_update(&self, client_id: &str, now: i64) -> (r: Option<TokenRequest>)
        ensures
            self.stale_at(now as int) ==> (r matches Some(req) && grant_request_for(
                self.client,
                client_id@,
                req,
            )),
            !self.stale_at(now as int) ==> r is None,
    {
        if self.needs_update(now) {
            Some(self.client.update_access_token(client_id))
        } else {
            None
        }
    }

    /// Absorbs the outcome of a performed exchange, completed at time
    /// `now`: a decoded reply updates the credential and advances
    /// `last_updated` to `now`; a failure is reported and leaves the
    /// facade exactly as it was.
    pub fn complete_update(&mut self, outcome: Result<TokenResponse, TdaError>, now: i64) -> (r:
        Result<(), TdaError>)
        requires
            outcome matches Ok(resp) ==> i64::MIN <= now + resp.expires_in <= i64::MAX && (
            resp.refresh_token_expires_in matches Some(e) ==> i64::MIN <= now + e <= i64::MAX),
            old(self).last_updated matches Some(t) ==> t <= now,
        ensures
            outcome matches Ok(resp) ==> r is Ok && updated(*old(self), resp, now, *final(self)),
            outcome matches Err(e) ==> r == Err::<(), TdaError>(e) && *final(self) == *old(self),
    {
        match outcome {
            Ok(resp) => {
                self.client.apply_token_response(resp, now);
                self.last_updated = Some(now);
                Ok(())
            },
            Err(e) => Err(e),
        }
    }

    /// The cash balance served by this facade: a fixed placeholder;
    /// callers may rely only on the staleness policy, not on the figure.
    pub fn get_cash(&self) -> (r: Rational)
        ensures
            r.numer == 100,
            r.denom == 100,
    {
        Rational::new(100, 100)
    }

    /// Positions are declared by the capability interface but have no
    /// backing implementation here; every call reports so.
    pub fn get_positions(&self) -> (r: Result<Vec<Position>, TdaError>)
        ensures
            (r matches Err(e) && e == TdaError::Unimplemented),
    {
        Err(TdaError::Unimplemented)
    }

    /// Orders are declared by the capability interface but have no
    /// backing implementation here; every call reports so.
    pub fn get_orders(&self) -> (r: Result<Vec<Order>, TdaError>)
        ensures
            (r matches Err(e) && e == TdaError::Unimplemented),
    {
        Err(TdaError::Unimplemented)
    }

    /// Placing an order is declared by the capability interface but has
    /// no backing implementation here; every call reports so and leaves
    /// the facade unchanged.
    pub fn new_order(&mut self, _order: Order) -> (r: Result<(), TdaError>)
        ensures
            (r matches Err(e) && e == TdaError::Unimplemented),
            *final(self) == *old(self),
    {
        Err(TdaError::Unimplemented)
    }
}

/// Staleness policy at the threshold: within the threshold no refresh is
/// due; past it, or before any refresh, one is.
pub proof fn lemma_staleness_threshold(b: TdaBroker, now: int)
    ensures
        (b.last_updated matches Some(t) && now - t <= STALENESS_SECONDS) ==> !b.stale_at(now),
        (b.last_updated matches Some(t) && now - t > STALENESS_SECONDS) ==> b.stale_at(now),
        b.last_updated is None ==> b.stale_at(now),
{
}

/// A facade that has never refreshed is stale at every time, so a
/// successful construction always performs an update.
pub proof fn lemma_new_facade_stale(client: Client, now: int)
    ensures
        (TdaBroker { client, last_updated: None }).stale_at(now),
{
}

/// Every completed update primes the facade: `last_updated` is set, and
/// set to the completion time.
pub proof fn lemma_update_primes(pre: TdaBroker, resp: TokenResponse, now: i64, post: TdaBroker)
    requires
        updated(pre, resp, now, post),
    ensures
        post.last_updated is Some,
        post.last_updated == Some(now),
{
}

/// `last_updated` never rolls back: an update completed no earlier than
/// the previous one advances it monotonically.
pub proof fn lemma_last_updated_monotone(
    pre: TdaBroker,
    resp: TokenResponse,
    now: i64,
    post: TdaBroker,
)
    requires
        updated(pre, resp, now, post),
        pre.last_updated matches Some(t) ==> t <= now,
    ensures
        pre.last_updated matches Some(t) ==> (post.last_updated matches Some(u) && t <= u),
{
}

} // verus!

//! The decisions of one reconciliation of an account. The caller performs the two outside
//! steps: it fetches the secret before the first decision, and, where that decision asks
//! for it, calls the authorize API between the two. The cache is never held across that call.
use vstd::prelude::*;
use crate::cache::{AuthorizationCache, TimestampedAuthorization};
use crate::crds::AccountSpec;
use crate::policy::{
    backoff_action, classify, outcome_category, category_delay, Action, AuthFailure,
    AUTHORIZED_DELAY_SECS,
};
use crate::secret::{
    all_text, field_text, get_b2_credentials_from_secret, Credential, ResolveError,
};

verus! {

/// What a reconciliation does after resolving the credential and checking the cache.
#[derive(Debug)]
pub enum Step {
    /// The key id is already authorized: nothing to do but requeue.
    Requeue(Action),
    /// The key id is not authorized yet: authorize with this credential.
    Authorize(Credential),
}

/// First decision of a reconciliation: resolve the account's credential from its secret,
/// then look its key id up in the cache.
pub fn reconcile_account<H>(
    spec: &AccountSpec,
    secret_data: &Vec<(String, Vec<u8>)>,
    cache: &AuthorizationCache<H>,
) -> (r: Result<Step, ResolveError>)
    requires
        cache.wf(),
    ensures
        ({
            let reference = spec.credential_reference;
            let key_id = field_text(secret_data@, reference.key_id_field@);
            let application_key = field_text(secret_data@, reference.application_key_field@);
            &&& r is Ok <==> (all_text(secret_data@) && key_id is Some && application_key is Some)
            &&& !all_text(secret_data@) ==> r == Err::<Step, ResolveError>(
                ResolveError::NonUtf8Value,
            )
            &&& all_text(secret_data@) ==> (r matches Err(e) ==> e == ResolveError::FieldNotFound(
                if key_id is None {
                    reference.key_id_field
                } else {
                    reference.application_key_field
                },
            ))
            &&& r matches Ok(Step::Requeue(a)) ==> a.requeue_after_secs == 300
                && cache@.contains_key(key_id->Some_0)
            &&& r matches Ok(Step::Authorize(c)) ==> c.key_id@ == key_id->Some_0
                && c.application_key@ == application_key->Some_0
                && !cache@.contains_key(c.key_id@)
            &&& r is Ok ==> (r matches Ok(Step::Requeue(_)) <==> cache@.contains_key(
                key_id->Some_0,
            ))
        }),
{
    let credential = get_b2_credentials_from_secret(&spec.credential_reference, secret_data)?;
    if cache.contains_key(&credential.key_id) {
        Ok(Step::Requeue(Action { requeue_after_secs: AUTHORIZED_DELAY_SECS }))
    } else {
        Ok(Step::Authorize(credential))
    }
}

/// Second decision of a reconciliation: record the outcome of the authorize call made for
/// `key_id` at time `now`, and choose the requeue delay. A handle is stored in the cache,
/// replacing any entry for `key_id`; a failure leaves the cache as it was.
pub fn complete_authorization<H>(
    cache: &mut AuthorizationCache<H>,
    key_id: String,
    outcome: Result<H, AuthFailure>,
    now: u64,
) -> (r: Action)
    requires
        old(cache).wf(),
    ensures
        final(cache).wf(),
        r.requeue_after_secs == category_delay(outcome_category(outcome)),
        match outcome {
            Ok(h) => final(cache)@ == old(cache)@.insert(
                key_id@,
                TimestampedAuthorization { authorization: h, creation_time: now },
            ),
            Err(_) => final(cache)@ == old(cache)@,
        },
{
    let category = classify(&outcome);
    match outcome {
        Ok(h) => {
            cache.insert(key_id, TimestampedAuthorization::new(h, now));
        },
        Err(_) => {},
    }
    backoff_action(category)
}

} // verus!

//! Logging in and out. A log-in stores the account first, then the caller
//! checks that the bucket can be reached with it, then `confirm_log_in`
//! keeps the account or takes it back out.
use vstd::prelude::*;

use crate::account::AccountModel;
use crate::error::ClientError;
use crate::store::{
    account_required,
    after_log_in,
    after_log_out,
    after_set_bucket,
    after_set_region,
    log_in_result,
    ConfigStore,
    StoreModel,
};

verus! {

/// The store after the reachability check of a log-in: a failed check takes
/// the account back out.
pub open spec fn after_check(s: StoreModel, reachable: bool) -> StoreModel {
    if reachable {
        s
    } else {
        after_log_out(s)
    }
}

pub open spec fn check_result(reachable: bool) -> Result<(), ClientError> {
    if reachable {
        Ok(())
    } else {
        Err(ClientError::InvalidCredentials)
    }
}

/// A whole log-in with account `c`, whose reachability check, if it is made,
/// comes out as `reachable`: the store and the outcome afterwards.
pub open spec fn full_log_in(s: StoreModel, c: AccountModel, reachable: bool) -> (
    StoreModel,
    Result<(), ClientError>,
) {
    if log_in_result(s) is Err {
        (s, log_in_result(s))
    } else {
        (after_check(after_log_in(s, c), reachable), check_result(reachable))
    }
}

/// Ends a log-in once the bucket has been tried with the stored account:
/// keeps the account when it was reachable, else removes it again so that
/// no unusable credentials stay behind.
pub fn confirm_log_in(store: &mut ConfigStore, reachable: bool) -> (r: Result<(), ClientError>)
    ensures
        r == check_result(reachable),
        final(store)@ == after_check(old(store)@, reachable),
{
    if reachable {
        Ok(())
    } else {
        let gone = store.log_out();
        if gone.is_err() {
            assert(old(store)@.account is None);
            assert(after_log_out(old(store)@) == old(store)@);
        }
        Err(ClientError::InvalidCredentials)
    }
}

/// A second log-in right after one that left an account stored fails with
/// `AlreadyLoggedIn` and leaves the store, and so the account, as it was.
pub proof fn lemma_second_log_in_refused(
    s: StoreModel,
    first: AccountModel,
    first_reachable: bool,
    second: AccountModel,
    second_reachable: bool,
)
    requires
        full_log_in(s, first, first_reachable).0.account is Some,
    ensures
        ({
            let s1 = full_log_in(s, first, first_reachable).0;
            &&& full_log_in(s1, second, second_reachable).1 == Err::<(), ClientError>(
                ClientError::AlreadyLoggedIn,
            )
            &&& full_log_in(s1, second, second_reachable).0 == s1
        }),
{
}

/// A log-in whose reachability check fails leaves the store exactly as it was.
pub proof fn lemma_failed_log_in_restores(s: StoreModel, c: AccountModel)
    ensures
        full_log_in(s, c, false).0 == s,
{
}

/// With no account stored, changing the bucket or the region fails with
/// `NotLoggedIn` and changes nothing.
pub proof fn lemma_settings_need_account(s: StoreModel, name: Seq<char>)
    requires
        s.account is None,
    ensures
        account_required(s) == Err::<(), ClientError>(ClientError::NotLoggedIn),
        after_set_bucket(s, name) == s,
        after_set_region(s, name) == s,
{
}

} // verus!

use vstd::prelude::*;
use vstd::string::*;

use crate::account::{AccountConfigQuery, AccountModel};
use crate::error::ClientError;
use crate::event::{Event, EventModel};

verus! {

/// What is persisted: at most one account, whose presence is what being
/// logged in means, and the audit events recorded through this store, oldest
/// first. Events are only ever appended.
pub struct ConfigStore {
    account: Option<AccountConfigQuery>,
    events: Vec<Event>,
}

/// The mathematical value of a store.
pub struct StoreModel {
    pub account: Option<AccountModel>,
    pub events: Seq<EventModel>,
}

pub open spec fn account_view(a: Option<AccountConfigQuery>) -> Option<AccountModel> {
    match a {
        Some(c) => Some(c@),
        None => None,
    }
}

pub open spec fn events_view(events: Seq<Event>) -> Seq<EventModel> {
    events.map_values(|e: Event| e@)
}

impl View for ConfigStore {
    type V = StoreModel;

    closed spec fn view(&self) -> StoreModel {
        StoreModel { account: account_view(self.account), events: events_view(self.events@) }
    }
}

/// The outcome of an operation that needs a stored account.
pub open spec fn account_required(s: StoreModel) -> Result<(), ClientError> {
    if s.account is Some {
        Ok(())
    } else {
        Err(ClientError::NotLoggedIn)
    }
}

/// The outcome of storing an account.
pub open spec fn log_in_result(s: StoreModel) -> Result<(), ClientError> {
    if s.account is Some {
        Err(ClientError::AlreadyLoggedIn)
    } else {
        Ok(())
    }
}

/// The store after storing account `c`: unchanged when one is there already.
pub open spec fn after_log_in(s: StoreModel, c: AccountModel) -> StoreModel {
    if s.account is Some {
        s
    } else {
        StoreModel { account: Some(c), events: s.events }
    }
}

/// The store after the account is removed; the events stay.
pub open spec fn after_log_out(s: StoreModel) -> StoreModel {
    StoreModel { account: None, events: s.events }
}

/// The store after the stored account's bucket is renamed.
pub open spec fn after_set_bucket(s: StoreModel, name: Seq<char>) -> StoreModel {
    match s.account {
        Some(a) => StoreModel {
            account: Some(
                AccountModel {
                    key_id: a.key_id,
                    key_secret: a.key_secret,
                    region: a.region,
                    bucket_name: name,
                },
            ),
            events: s.events,
        },
        None => s,
    }
}

/// The store after the stored account's region is changed.
pub open spec fn after_set_region(s: StoreModel, region: Seq<char>) -> StoreModel {
    match s.account {
        Some(a) => StoreModel {
            account: Some(
                AccountModel {
                    key_id: a.key_id,
                    key_secret: a.key_secret,
                    region,
                    bucket_name: a.bucket_name,
                },
            ),
            events: s.events,
        },
        None => s,
    }
}

/// The store after one event is appended.
pub open spec fn after_event(s: StoreModel, e: EventModel) -> StoreModel {
    StoreModel { account: s.account, events: s.events.push(e) }
}

impl ConfigStore {
    /// A store holding `account`, if any, and no events yet.
    pub fn new(account: Option<AccountConfigQuery>) -> (r: ConfigStore)
        ensures
            r@ == (StoreModel { account: account_view(account), events: Seq::empty() }),
    {
        let r = ConfigStore { account, events: Vec::new() };
        assert(events_view(r.events@) =~= Seq::empty());
        r
    }

    pub fn is_logged_in(&self) -> (r: bool)
        ensures
            r == (self@.account is Some),
    {
        self.account.is_some()
    }

    /// Stores `cfg` as the account, unless one is stored already.
    pub fn log_in(&mut self, cfg: AccountConfigQuery) -> (r: Result<(), ClientError>)
        ensures
            r == log_in_result(old(self)@),
            final(self)@ == after_log_in(old(self)@, cfg@),
    {
        if self.account.is_some() {
            return Err(ClientError::AlreadyLoggedIn);
        }
        self.account = Some(cfg);
        Ok(())
    }

    /// Removes the stored account; the events stay.
    pub fn log_out(&mut self) -> (r: Result<(), ClientError>)
        ensures
            r == account_required(old(self)@),
            final(self)@ == if r is Ok {
                after_log_out(old(self)@)
            } else {
                old(self)@
            },
    {
        if self.account.is_none() {
            return Err(ClientError::NotLoggedIn);
        }
        self.account = None;
        Ok(())
    }

    /// Points the stored account at another bucket.
    pub fn set_bucket_name(&mut self, bucket_name: &str) -> (r: Result<(), ClientError>)
        ensures
            r == account_required(old(self)@),
            final(self)@ == after_set_bucket(old(self)@, bucket_name@),
    {
        match &mut self.account {
            Some(a) => {
                a.bucket_name = String::from_str(bucket_name);
                Ok(())
            },
            None => Err(ClientError::NotLoggedIn),
        }
    }

    /// Points the stored account at another region.
    pub fn set_region(&mut self, region: &str) -> (r: Result<(), ClientError>)
        ensures
            r == account_required(old(self)@),
            final(self)@ == after_set_region(old(self)@, region@),
    {
        match &mut self.account {
            Some(a) => {
                a.region = String::from_str(region);
                Ok(())
            },
            None => Err(ClientError::NotLoggedIn),
        }
    }

    /// The stored account.
    pub fn get_account_cfg(&self) -> (r: Result<&AccountConfigQuery, ClientError>)
        ensures
            match r {
                Ok(a) => self@.account == Some(a@),
                Err(e) => self@.account is None && e == ClientError::NotLoggedIn,
            },
    {
        match &self.account {
            Some(a) => Ok(a),
            None => Err(ClientError::NotLoggedIn),
        }
    }

    /// The bucket of the stored account.
    pub fn get_bucket_name(&self) -> (r: Result<String, ClientError>)
        ensures
            match r {
                Ok(b) => self@.account is Some && b@ == self@.account->Some_0.bucket_name,
                Err(e) => self@.account is None && e == ClientError::NotLoggedIn,
            },
    {
        match &self.account {
            Some(a) => Ok(a.bucket_name.clone()),
            None => Err(ClientError::NotLoggedIn),
        }
    }

    /// Appends one audit event.
    pub fn add_event(&mut self, event: Event)
        ensures
            final(self)@ == after_event(old(self)@, event@),
    {
        let ghost e = event@;
        self.events.push(event);
        assert(events_view(self.events@) =~= events_view(old(self).events@).push(e));
    }

    /// The events recorded through this store, oldest first.
    pub fn events(&self) -> (r: &Vec<Event>)
        ensures
            events_view(r@) == self@.events,
    {
        &self.events
    }
}

} // verus!

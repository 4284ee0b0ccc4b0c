use vstd::prelude::*;

verus! {

/// The stored account: the credentials and where they point.
pub struct AccountConfigQuery {
    pub key_id: String,
    pub key_secret: String,
    pub region: String,
    pub bucket_name: String,
}

/// The mathematical value of an account.
pub struct AccountModel {
    pub key_id: Seq<char>,
    pub key_secret: Seq<char>,
    pub region: Seq<char>,
    pub bucket_name: Seq<char>,
}

impl View for AccountConfigQuery {
    type V = AccountModel;

    open spec fn view(&self) -> AccountModel {
        AccountModel {
            key_id: self.key_id@,
            key_secret: self.key_secret@,
            region: self.region@,
            bucket_name: self.bucket_name@,
        }
    }
}

impl AccountConfigQuery {
    pub fn new(key_id: String, key_secret: String, region: String, bucket_name: String) -> (r:
        AccountConfigQuery)
        ensures
            r.key_id@ == key_id@,
            r.key_secret@ == key_secret@,
            r.region@ == region@,
            r.bucket_name@ == bucket_name@,
    {
        AccountConfigQuery { key_id, key_secret, region, bucket_name }
    }
}

} // verus!

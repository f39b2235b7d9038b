//! Which store the gateway speaks to, and with which credentials.

use rusoto_credential::AwsCredentials;
use rusoto_signature::region::ParseRegionError;
use rusoto_signature::Region;
use std::str::FromStr;
use vstd::prelude::*;
use vstd::string::*;

verus! {

/// The signer's `Region`: a region of AWS, or a custom one with a name and an
/// endpoint. It is handed to the signer as it comes; nothing is read of it.
#[verifier::external_type_specification]
#[verifier::external_body]
pub struct ExRegion(rusoto_signature::Region);

/// The signer's `ParseRegionError`, which `Region::from_str` gives for a name
/// that it does not know. Nothing is read of it.
#[verifier::external_type_specification]
#[verifier::external_body]
pub struct ExParseRegionError(rusoto_signature::region::ParseRegionError);

/// The signer's `AwsCredentials`: a key, a secret, and here neither token nor
/// expiry. They are handed to the signer as they come; nothing is read of them.
#[verifier::external_type_specification]
#[verifier::external_body]
pub struct ExAwsCredentials(rusoto_credential::AwsCredentials);

/// Whether `Region::from_str` takes the name for one of the regions of AWS.
pub uninterp spec fn known_region(name: Seq<char>) -> bool;

/// `Region::from_str`. It gives a region exactly for the names that
/// `known_region` holds of; nothing is said of the region itself.
#[verifier::external_body]
fn parse_region(name: &str) -> (parsed: Result<Region, ParseRegionError>)
    ensures
        parsed is Ok <==> known_region(name@),
{
    Region::from_str(name)
}

/// `Region::Custom` with this name and this endpoint. Nothing is said of the region.
#[verifier::external_body]
fn custom_region(name: &str, endpoint: &str) -> Region {
    Region::Custom { name: name.to_string(), endpoint: endpoint.to_string() }
}

/// `AwsCredentials::new` with this key and this secret, without a token and
/// without an expiry. Nothing is said of the credentials.
#[verifier::external_body]
fn static_credentials(access_key_id: &str, secret_access_key: &str) -> AwsCredentials {
    AwsCredentials::new(access_key_id, secret_access_key, None, None)
}

/// A region whose name is none that the signer knows.
#[derive(Debug, Clone, PartialEq, Eq)]
pub struct UnknownRegion {
    pub name: String,
}

/// The store and the credentials that every operation uses. The region is
/// either one of AWS, by its name, or a label of the caller's choice beside
/// the endpoint of another store.
#[derive(Debug)]
pub struct S3Configuration {
    access_key_id: String,
    secret_access_key: String,
    region: String,
    endpoint: Option<String>,
}

pub struct S3ConfigurationView {
    pub access_key_id: Seq<char>,
    pub secret_access_key: Seq<char>,
    pub region: Seq<char>,
    pub endpoint: Option<Seq<char>>,
}

impl View for S3Configuration {
    type V = S3ConfigurationView;

    closed spec fn view(&self) -> S3ConfigurationView {
        S3ConfigurationView {
            access_key_id: self.access_key_id@,
            secret_access_key: self.secret_access_key@,
            region: self.region@,
            endpoint: self.endpoint.deep_view(),
        }
    }
}

/// Whether a configuration names a store: without an endpoint, the region is
/// one of AWS.
pub open spec fn names_a_store(configuration: S3ConfigurationView) -> bool {
    configuration.endpoint is None ==> known_region(configuration.region)
}

impl Clone for S3Configuration {
    fn clone(&self) -> (copy: Self)
        ensures
            copy@ == self@,
    {
        proof {
            use_type_invariant(self);
        }
        let endpoint = match &self.endpoint {
            Some(endpoint) => Some(endpoint.clone()),
            None => None,
        };
        Self {
            access_key_id: self.access_key_id.clone(),
            secret_access_key: self.secret_access_key.clone(),
            region: self.region.clone(),
            endpoint,
        }
    }
}

impl S3Configuration {
    #[verifier::type_invariant]
    spec fn well_formed(&self) -> bool {
        names_a_store(self@)
    }

    /// The configuration of a store of AWS.
    pub fn new(access_key_id: &str, secret_access_key: &str, region: &str) -> (made: Result<
        Self,
        UnknownRegion,
    >)
        ensures
            made is Ok <==> known_region(region@),
            made matches Ok(configuration) ==> configuration@ == (S3ConfigurationView {
                access_key_id: access_key_id@,
                secret_access_key: secret_access_key@,
                region: region@,
                endpoint: None,
            }),
            made matches Err(unknown) ==> unknown.name@ == region@,
    {
        match parse_region(region) {
            Ok(_) => Ok(
                Self {
                    access_key_id: access_key_id.to_owned(),
                    secret_access_key: secret_access_key.to_owned(),
                    region: region.to_owned(),
                    endpoint: None,
                },
            ),
            Err(_) => Err(UnknownRegion { name: region.to_owned() }),
        }
    }

    /// The configuration of a store at an endpoint of its own.
    pub fn new_with_hostname(
        access_key_id: &str,
        secret_access_key: &str,
        region: &str,
        hostname: &str,
    ) -> (configuration: Self)
        ensures
            configuration@ == (S3ConfigurationView {
                access_key_id: access_key_id@,
                secret_access_key: secret_access_key@,
                region: region@,
                endpoint: Some(hostname@),
            }),
    {
        Self {
            access_key_id: access_key_id.to_owned(),
            secret_access_key: secret_access_key.to_owned(),
            region: region.to_owned(),
            endpoint: Some(hostname.to_owned()),
        }
    }

    pub fn access_key_id(&self) -> (access_key_id: &String)
        ensures
            access_key_id@ == self@.access_key_id,
    {
        &self.access_key_id
    }

    pub fn secret_access_key(&self) -> (secret_access_key: &String)
        ensures
            secret_access_key@ == self@.secret_access_key,
    {
        &self.secret_access_key
    }

    /// The name of the region.
    pub fn region(&self) -> (region: &String)
        ensures
            region@ == self@.region,
            names_a_store(self@),
    {
        proof {
            use_type_invariant(self);
        }
        &self.region
    }

    /// The endpoint, for a store that is not one of AWS.
    pub fn endpoint(&self) -> (endpoint: &Option<String>)
        ensures
            endpoint.deep_view() == self@.endpoint,
    {
        &self.endpoint
    }

    /// The region as the signer takes it.
    pub(crate) fn signing_region(&self) -> Region {
        match &self.endpoint {
            Some(endpoint) => custom_region(self.region.as_str(), endpoint.as_str()),
            None => {
                proof {
                    use_type_invariant(self);
                }
                parse_region(self.region.as_str()).unwrap()
            },
        }
    }

    /// The credentials as the signer takes them.
    pub(crate) fn credentials(&self) -> AwsCredentials {
        static_credentials(self.access_key_id.as_str(), self.secret_access_key.as_str())
    }
}

} // verus!

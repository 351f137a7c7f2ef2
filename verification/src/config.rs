//! User configuration

use vstd::prelude::*;

verus! {

#[derive(Clone, Debug, Eq, PartialEq)]
pub struct Config {
    pub aws_config: AwsConfig,
}

#[derive(Clone, Debug, Eq, PartialEq)]
pub struct AwsConfig {
    /// The profile to take credentials from, if not the default one.
    pub profile_name: Option<String>,
    /// The URL of the object store, if not the one the profile implies.
    pub endpoint_url: Option<String>,
    pub s3_config: AwsS3Config,
}

#[derive(Clone, Debug, Eq, PartialEq)]
pub struct AwsS3Config {
    /// The name of the destination bucket.
    pub bucket_name: String,
    /// The URL under which the objects of the bucket are publicly served.
    pub public_url: Option<String>,
}

/// The URL that object keys are joined to: the explicit public URL where
/// there is one, else the endpoint URL, else none.
pub open spec fn base_url(public_url: Option<Seq<char>>, endpoint_url: Option<Seq<char>>) -> Option<
    Seq<char>,
> {
    match public_url {
        Some(url) => Some(url),
        None => endpoint_url,
    }
}

impl AwsConfig {
    /// The mathematical content of [`AwsConfig::public_base`].
    pub open spec fn spec_public_base(&self) -> Option<Seq<char>> {
        base_url(self.s3_config.public_url.deep_view(), self.endpoint_url.deep_view())
    }

    /// Returns the URL that the links of published objects start from.
    pub fn public_base(&self) -> (base: Option<&String>)
        ensures
            base.deep_view() == self.spec_public_base(),
    {
        match &self.s3_config.public_url {
            Some(url) => Some(url),
            None => self.endpoint_url.as_ref(),
        }
    }
}

} // verus!

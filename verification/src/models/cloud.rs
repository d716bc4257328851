use crate::openapi::models::serverless_spec::Cloud as OpenApiCloud;
use crate::utils::text::str_eq;
use vstd::prelude::*;

verus! {

/// The public cloud where you would like your index hosted.
#[derive(Debug, Clone, Copy, PartialEq, Eq, Structural)]
pub enum Cloud {
    /// GCP
    Gcp,
    /// AWS
    Aws,
    /// Azure
    Azure,
}

/// A name that names no variant.
#[derive(Debug, Clone, Copy, PartialEq, Eq, Structural)]
pub enum ParseError {
    /// No variant has the given name.
    VariantNotFound,
}

impl Default for Cloud {
    fn default() -> (r: Cloud)
        ensures
            r == Cloud::Gcp,
    {
        Cloud::Gcp
    }
}

/// The lowercase name of a cloud.
pub open spec fn cloud_name(c: Cloud) -> Seq<char> {
    match c {
        Cloud::Gcp => "gcp"@,
        Cloud::Aws => "aws"@,
        Cloud::Azure => "azure"@,
    }
}

/// The cloud that a lowercase name names.
pub open spec fn cloud_named(s: Seq<char>) -> Option<Cloud> {
    if s == "gcp"@ {
        Some(Cloud::Gcp)
    } else if s == "aws"@ {
        Some(Cloud::Aws)
    } else if s == "azure"@ {
        Some(Cloud::Azure)
    } else {
        None
    }
}

impl Cloud {
    /// The lowercase name of the cloud: `gcp`, `aws` or `azure`.
    pub fn as_str(&self) -> (r: &'static str)
        ensures
            r@ == cloud_name(*self),
    {
        match self {
            Cloud::Gcp => "gcp",
            Cloud::Aws => "aws",
            Cloud::Azure => "azure",
        }
    }

    /// The cloud that a lowercase name (`gcp`, `aws` or `azure`) names.
    pub fn parse(s: &str) -> (r: Result<Cloud, ParseError>)
        ensures
            match cloud_named(s@) {
                Some(c) => r == Ok::<Cloud, ParseError>(c),
                None => r == Err::<Cloud, ParseError>(ParseError::VariantNotFound),
            },
    {
        if str_eq(s, "gcp") {
            Ok(Cloud::Gcp)
        } else if str_eq(s, "aws") {
            Ok(Cloud::Aws)
        } else if str_eq(s, "azure") {
            Ok(Cloud::Azure)
        } else {
            Err(ParseError::VariantNotFound)
        }
    }
}

/// A cloud's name names that cloud.
pub proof fn cloud_name_round_trip(c: Cloud)
    ensures
        cloud_named(cloud_name(c)) == Some(c),
{
    reveal_strlit("gcp");
    reveal_strlit("aws");
    reveal_strlit("azure");
    assert("gcp"@ != "aws"@ && "gcp"@ != "azure"@ && "aws"@ != "azure"@) by {
        assert("gcp"@[0] != "aws"@[0]);
        assert("gcp"@[0] != "azure"@[0]);
        assert("aws"@.len() != "azure"@.len());
    }
}

/// The SDK's cloud for the API's cloud.
pub open spec fn cloud_from_openapi(cloud: OpenApiCloud) -> Cloud {
    match cloud {
        OpenApiCloud::Gcp => Cloud::Gcp,
        OpenApiCloud::Aws => Cloud::Aws,
        OpenApiCloud::Azure => Cloud::Azure,
    }
}

/// The API's cloud for the SDK's cloud.
pub open spec fn cloud_to_openapi(cloud: Cloud) -> OpenApiCloud {
    match cloud {
        Cloud::Gcp => OpenApiCloud::Gcp,
        Cloud::Aws => OpenApiCloud::Aws,
        Cloud::Azure => OpenApiCloud::Azure,
    }
}

impl From<OpenApiCloud> for Cloud {
    fn from(cloud: OpenApiCloud) -> (r: Cloud)
        ensures
            r == cloud_from_openapi(cloud),
    {
        match cloud {
            OpenApiCloud::Gcp => Cloud::Gcp,
            OpenApiCloud::Aws => Cloud::Aws,
            OpenApiCloud::Azure => Cloud::Azure,
        }
    }
}

impl vstd::std_specs::convert::FromSpecImpl<OpenApiCloud> for Cloud {
    open spec fn obeys_from_spec() -> bool {
        true
    }

    open spec fn from_spec(v: OpenApiCloud) -> Cloud {
        cloud_from_openapi(v)
    }
}

impl From<Cloud> for OpenApiCloud {
    fn from(cloud: Cloud) -> (r: OpenApiCloud)
        ensures
            r == cloud_to_openapi(cloud),
    {
        match cloud {
            Cloud::Gcp => OpenApiCloud::Gcp,
            Cloud::Aws => OpenApiCloud::Aws,
            Cloud::Azure => OpenApiCloud::Azure,
        }
    }
}

impl vstd::std_specs::convert::FromSpecImpl<Cloud> for OpenApiCloud {
    open spec fn obeys_from_spec() -> bool {
        true
    }

    open spec fn from_spec(v: Cloud) -> OpenApiCloud {
        cloud_to_openapi(v)
    }
}

/// Converting a cloud to the API's cloud and back gives the same cloud, both ways round.
pub proof fn cloud_conversion_round_trip(c: Cloud, o: OpenApiCloud)
    ensures
        cloud_from_openapi(cloud_to_openapi(c)) == c,
        cloud_to_openapi(cloud_from_openapi(o)) == o,
{
}

/// Every cloud keeps its name: its lowercase name is `gcp`, `aws` or `azure`, and it converts
/// to and from the API's cloud of the same name.
pub proof fn clouds_keep_their_names()
    ensures
        cloud_name(Cloud::Gcp) == "gcp"@,
        cloud_name(Cloud::Aws) == "aws"@,
        cloud_name(Cloud::Azure) == "azure"@,
        cloud_named("gcp"@) == Some(Cloud::Gcp),
        cloud_named("aws"@) == Some(Cloud::Aws),
        cloud_named("azure"@) == Some(Cloud::Azure),
        cloud_to_openapi(Cloud::Gcp) == OpenApiCloud::Gcp,
        cloud_to_openapi(Cloud::Aws) == OpenApiCloud::Aws,
        cloud_to_openapi(Cloud::Azure) == OpenApiCloud::Azure,
        cloud_from_openapi(OpenApiCloud::Gcp) == Cloud::Gcp,
        cloud_from_openapi(OpenApiCloud::Aws) == Cloud::Aws,
        cloud_from_openapi(OpenApiCloud::Azure) == Cloud::Azure,
{
    cloud_name_round_trip(Cloud::Gcp);
    cloud_name_round_trip(Cloud::Aws);
    cloud_name_round_trip(Cloud::Azure);
}

} // verus!

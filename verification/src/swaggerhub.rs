//! Where a hosted API description is fetched from and stored.
use vstd::prelude::*;
use vstd::string::*;

verus! {

/// The address under which the description of an API is served.
pub open spec fn definition_url(owner: Seq<char>, api: Seq<char>, version: Seq<char>) -> Seq<
    char,
> {
    "https://api.swaggerhub.com/apis/"@ + owner + seq!['/'] + api + seq!['/'] + version
}

/// The name of the file in which a fetched description is stored.
pub open spec fn definition_file(version: Seq<char>) -> Seq<char> {
    "swagger-"@ + version + ".yaml"@
}

/// The address under which the description of an API is served.
pub fn definition_url_of(owner: &str, api: &str, version: &str) -> (r: String)
    ensures
        r@ == definition_url(owner@, api@, version@),
{
    let mut url = String::from_str("https://api.swaggerhub.com/apis/");
    url.append(owner);
    url.push('/');
    url.append(api);
    url.push('/');
    url.append(version);
    url
}

/// The name of the file in which a fetched description is stored.
pub fn definition_file_of(version: &str) -> (r: String)
    ensures
        r@ == definition_file(version@),
{
    let mut name = String::from_str("swagger-");
    name.append(version);
    name.append(".yaml");
    name
}

} // verus!

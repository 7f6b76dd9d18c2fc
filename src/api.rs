use vstd::prelude::*;
use vstd::string::*;

verus! {

/// Scheme and host of the service.
pub open spec fn api_root() -> Seq<char> {
    "https://api.openopus.org"@
}

/// Full address of the endpoint at `path`, which every endpoint serves as JSON.
pub open spec fn endpoint(path: Seq<char>) -> Seq<char> {
    api_root() + path + ".json"@
}

/// Starts an address with the service root followed by `path`.
pub fn start_url(path: &str) -> (r: String)
    ensures
        r@ == api_root() + path@,
{
    let mut r = String::from_str("https://api.openopus.org");
    r.append(path);
    r
}

/// Ends an address with the extension every endpoint carries.
pub fn finish_url(url: &mut String)
    ensures
        final(url)@ == old(url)@ + ".json"@,
{
    url.append(".json");
}

} // verus!

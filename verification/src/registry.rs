use vstd::prelude::*;

use crate::error::Error;
use crate::package::Package;
use crate::text::{concat2, concat3, opt_text_view};

verus! {

/// The fixed client identifier sent with every registry request.
pub fn http_user_agent() -> (r: &'static str)
    ensures
        r@ == "openfare-rs"@,
{
    "openfare-rs"
}

/// The registry's package-info endpoint for a package.
pub fn registry_entry_url(package_name: &str) -> (r: String)
    ensures
        r@ == "https://crates.io/api/v1/crates/"@ + package_name@,
{
    concat2("https://crates.io/api/v1/crates/", package_name)
}

/// The deterministic download location of one version of a package.
pub fn crate_download_url(package_name: &str, package_version: &str) -> (r: String)
    ensures
        r@ == "https://crates.io/api/v1/crates/"@ + package_name@ + "/"@ + package_version@
            + "/download"@,
{
    let mut s = concat3("https://crates.io/api/v1/crates/", package_name, "/");
    let tail = concat2(package_version, "/download");
    crate::text::append_str(&mut s, tail.as_str());
    s
}

/// What the registry's package-info response body holds: nothing when the
/// body is not well-formed structured data, and otherwise the optional
/// `crate.newest_version` field.
pub uninterp spec fn registry_newest_version(body: Seq<char>) -> Option<Option<Seq<char>>>;

/// Relies on `serde_json::from_str::<serde_json::Value>`, `Value::get` and
/// `Value::as_str`: reads the `crate.newest_version` string of a registry
/// package-info response body.
#[verifier::external_body]
fn read_newest_version(body: &str) -> (r: Option<Option<String>>)
    ensures
        r is None ==> registry_newest_version(body@) is None,
        r matches Some(v) ==> registry_newest_version(body@) == Some(opt_text_view(v)),
{
    let value: serde_json::Value = match serde_json::from_str(body) {
        Ok(v) => v,
        Err(_) => return None,
    };
    Some(
        value.get("crate").and_then(|c| c.get("newest_version")).and_then(|v| v.as_str()).map(
            |s| s.to_string(),
        ),
    )
}

/// Extracts the latest version of a package from the registry's package-info
/// response body.  An absent version field is not an error; a malformed body
/// is.
pub fn get_latest_version(registry_response_body: &str) -> (r: Result<Option<String>, Error>)
    ensures
        registry_newest_version(registry_response_body@) is None ==> (r matches Err(e)
            && e matches Error::RegistryError { message } && message@
            == "registry response body was not well-formatted: "@ + registry_response_body@),
        registry_newest_version(registry_response_body@) matches Some(v) ==> (r matches Ok(o)
            && opt_text_view(o) == v),
{
    match read_newest_version(registry_response_body) {
        None => Err(
            Error::RegistryError {
                message: concat2(
                    "registry response body was not well-formatted: ",
                    registry_response_body,
                ),
            },
        ),
        Some(v) => Ok(v),
    }
}

/// The version a by-name resolution uses: the requested version when one was
/// given, else the latest version the registry reported; no version at all is
/// a failure.
pub fn require_version(package_name: &str, package_version: Option<String>) -> (r: Result<
    String,
    Error,
>)
    ensures
        package_version matches Some(v) ==> (r matches Ok(s) && s@ == v@),
        package_version is None ==> (r matches Err(e) && e matches Error::NotFound { .. }),
{
    match package_version {
        Some(v) => Ok(v),
        None => Err(
            Error::NotFound {
                message: concat2(
                    "failed to find latest version of package: ",
                    package_name,
                ),
            },
        ),
    }
}

/// The version a by-name resolution proceeds with, stated over the whole
/// decision.  A requested version is used as given, without consulting the
/// registry.  Otherwise the registry's package-info response decides: its
/// `crate.newest_version` field is the resolved version, a malformed body is
/// a registry error, and a response without the field is a failure — the
/// resolution stops here, so nothing is downloaded or resolved for a package
/// the registry reports no version of.
pub fn resolve_package_version(
    package_name: &str,
    package_version: Option<String>,
    registry_response_body: Option<&str>,
) -> (r: Result<String, Error>)
    requires
        package_version is None ==> registry_response_body is Some,
    ensures
        package_version matches Some(v) ==> (r matches Ok(s) && s@ == v@),
        package_version is None ==> (registry_response_body matches Some(b) ==> {
            &&& registry_newest_version(b@) is None ==> (r matches Err(e)
                && e matches Error::RegistryError { .. })
            &&& registry_newest_version(b@) matches Some(nv) ==> {
                &&& nv is None ==> (r matches Err(e) && e matches Error::NotFound { .. })
                &&& nv matches Some(version) ==> (r matches Ok(s) && s@ == version)
            }
        }),
{
    match package_version {
        Some(v) => Ok(v),
        None => match registry_response_body {
            Some(body) => match get_latest_version(body) {
                Ok(latest) => require_version(package_name, latest),
                Err(e) => Err(e),
            },
            None => Err(
                Error::InvalidInput {
                    message: "a registry response is required to resolve a version".to_owned(),
                },
            ),
        },
    }
}

/// The primary package identity of a by-name resolution, constructed directly
/// from the known name and version.
pub fn get_package(package_name: &str, package_version: &str) -> (r: Package)
    ensures
        r@ == ("crates.io"@, package_name@, package_version@),
{
    Package {
        name: package_name.to_owned(),
        version: package_version.to_owned(),
        registry: crate::host_name().to_owned(),
    }
}

} // verus!

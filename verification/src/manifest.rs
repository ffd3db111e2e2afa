use vstd::prelude::*;

use crate::error::Error;
use crate::package::Package;
use crate::text::opt_text_view;

verus! {

/// What a manifest's text holds: nothing when the text is not a well-formed
/// manifest, and otherwise the optional `package.name` and `package.version`
/// string fields.
pub uninterp spec fn manifest_fields(s: Seq<char>) -> Option<(Option<Seq<char>>, Option<Seq<char>>)>;

/// Relies on `toml::from_str::<toml::Value>`, `Value::get` and `Value::as_str`:
/// reads the `package.name` and `package.version` strings of manifest text.
#[verifier::external_body]
fn read_manifest_fields(contents: &str) -> (r: Option<(Option<String>, Option<String>)>)
    ensures
        r is None ==> manifest_fields(contents@) is None,
        r matches Some(p) ==> manifest_fields(contents@) == Some(
            (opt_text_view(p.0), opt_text_view(p.1)),
        ),
{
    let value: toml::Value = match toml::from_str(contents) {
        Ok(v) => v,
        Err(_) => return None,
    };
    let name = value.get("package").and_then(|p| p.get("name")).and_then(|v| v.as_str()).map(
        |s| s.to_string(),
    );
    let version = value.get("package").and_then(|p| p.get("version")).and_then(|v| v.as_str()).map(
        |s| s.to_string(),
    );
    Some((name, version))
}

/// Parses manifest text into the primary package identity.  The registry
/// field of the result is always this integration's registry, not read from
/// the manifest.  A manifest missing a required field is rejected, naming the
/// missing field.
pub fn package_from_toml(manifest_contents: &str) -> (r: Result<Option<Package>, Error>)
    ensures
        manifest_fields(manifest_contents@) is None ==> (r matches Err(e)
            && e matches Error::ManifestError { message } && message@
            == "failed to parse manifest file text"@),
        manifest_fields(manifest_contents@) matches Some(f) ==> {
            &&& f.0 is None ==> (r matches Err(e) && e matches Error::ManifestError { message }
                && message@ == "failed to find field 'package.name'"@)
            &&& f.0 is Some && f.1 is None ==> (r matches Err(e) && e matches Error::ManifestError {
                message,
            } && message@ == "failed to find field 'package.version'"@)
            &&& f.0 matches Some(n) ==> (f.1 matches Some(v) ==> (r matches Ok(o)
                && o matches Some(p) && p@ == ("crates.io"@, n, v)))
        },
{
    match read_manifest_fields(manifest_contents) {
        None => Err(
            Error::ManifestError { message: "failed to parse manifest file text".to_owned() },
        ),
        Some((name_field, version_field)) => match (name_field, version_field) {
            (None, _) => Err(
                Error::ManifestError {
                    message: "failed to find field 'package.name'".to_owned(),
                },
            ),
            (Some(_), None) => Err(
                Error::ManifestError {
                    message: "failed to find field 'package.version'".to_owned(),
                },
            ),
            (Some(name), Some(version)) => Ok(
                Some(
                    Package { registry: crate::host_name().to_owned(), name, version },
                ),
            ),
        },
    }
}

} // verus!

//! Per-user filesystem locations: the application data directory and
//! the fixed places under it where the certificate pair and the
//! provisioned tools live.

use vstd::prelude::*;

verus! {

/// Relies on dirs::data_local_dir for the per-user application data
/// root; the result depends on the user's environment, so nothing is
/// claimed of it.
#[verifier::external_body]
fn data_local_dir_string() -> (r: Option<String>)
{
    dirs::data_local_dir().map(|p| p.to_string_lossy().to_string())
}

/// A path under `base`, separated with a forward slash.
pub open spec fn joined(base: Seq<char>, child: Seq<char>) -> Seq<char> {
    base + "/"@ + child
}

/// Joins one path component onto a base path.
pub fn join_path(base: &str, child: &str) -> (r: String)
    ensures
        r@ == joined(base@, child@),
{
    String::from_str(base).concat("/").concat(child)
}

/// The certificate directory under a given data root.
pub open spec fn cert_dir_of(base: Seq<char>) -> Seq<char> {
    joined(joined(base, "anymobile-print-helper"@), "certs"@)
}

/// The certificate directory for a data root; a missing root falls
/// back to the working directory.
pub fn cert_dir_from(base: Option<&str>) -> (r: String)
    ensures
        r@ == cert_dir_of(
            match base {
                Some(b) => b@,
                None => "."@,
            },
        ),
{
    let root = match base {
        Some(b) => b,
        None => ".",
    };
    let app = join_path(root, "anymobile-print-helper");
    join_path(app.as_str(), "certs")
}

/// The per-user directory that holds the certificate pair.
pub fn get_cert_dir() -> (r: String)
    ensures
        exists|base: Seq<char>| r@ == cert_dir_of(base),
{
    let data = data_local_dir_string();
    let r = match data {
        Some(d) => cert_dir_from(Some(d.as_str())),
        None => cert_dir_from(None),
    };
    r
}

/// The path of the persisted certificate file.
pub fn get_cert_path() -> (r: String)
    ensures
        exists|base: Seq<char>| r@ == joined(cert_dir_of(base), "localhost.crt"@),
{
    let dir = get_cert_dir();
    let ghost base = choose|b: Seq<char>| dir@ == cert_dir_of(b);
    let r = join_path(dir.as_str(), "localhost.crt");
    proof {
        assert(r@ == joined(cert_dir_of(base), "localhost.crt"@));
    }
    r
}

/// The path of the persisted private key file.
pub fn get_key_path() -> (r: String)
    ensures
        exists|base: Seq<char>| r@ == joined(cert_dir_of(base), "localhost.key"@),
{
    let dir = get_cert_dir();
    let ghost base = choose|b: Seq<char>| dir@ == cert_dir_of(b);
    let r = join_path(dir.as_str(), "localhost.key");
    proof {
        assert(r@ == joined(cert_dir_of(base), "localhost.key"@));
    }
    r
}

/// The tools directory under a given data root.
pub open spec fn tools_dir_of(base: Seq<char>) -> Seq<char> {
    joined(joined(base, "anymobile-print-helper"@), "tools"@)
}

/// The tools directory for a data root.
pub fn tools_dir_from(base: Option<&str>) -> (r: String)
    ensures
        r@ == tools_dir_of(
            match base {
                Some(b) => b@,
                None => "."@,
            },
        ),
{
    let root = match base {
        Some(b) => b,
        None => ".",
    };
    let app = join_path(root, "anymobile-print-helper");
    join_path(app.as_str(), "tools")
}

/// The per-user tools directory.
pub fn get_tools_dir() -> (r: String)
    ensures
        exists|base: Seq<char>| r@ == tools_dir_of(base),
{
    let data = data_local_dir_string();
    let r = match data {
        Some(d) => tools_dir_from(Some(d.as_str())),
        None => tools_dir_from(None),
    };
    r
}

} // verus!

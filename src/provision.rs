//! The registry pull credential installed for each session before its workload.

use vstd::prelude::*;
use vstd::string::*;
use vstd::utf8::encode_utf8;
use crate::text::joined;

verus! {

/// Standard padded base64 of some bytes.
pub uninterp spec fn base64_of(b: Seq<u8>) -> Seq<char>;

/// A string written as a JSON string literal, quotes and escapes included.
pub uninterp spec fn json_quoted(s: Seq<char>) -> Seq<char>;

/// Relies on base64's `STANDARD.encode`: padded standard base64 of the bytes,
/// four characters for each started group of three bytes.
#[verifier::external_body]
fn encode_base64(b: &Vec<u8>) -> (r: String)
    ensures
        r@ == base64_of(b@),
        r@.len() == 4 * ((b@.len() + 2) / 3),
{
    base64::Engine::encode(&base64::engine::general_purpose::STANDARD, b)
}

/// Relies on serde_json's compact `Display` of `Value::String`: the text as a
/// JSON string literal.
#[verifier::external_body]
fn json_quote(s: &str) -> (r: String)
    ensures
        r@ == json_quoted(s@),
{
    serde_json::Value::String(s.to_string()).to_string()
}

/// The image registry host used when a template path names none.
pub open spec fn default_registry() -> Seq<char> {
    "gcr.io"@
}

/// `k` is the position of the first `/` in `s`.
pub open spec fn first_slash_at(s: Seq<char>, k: int) -> bool {
    0 <= k < s.len() && s[k] == '/' && forall|j: int| 0 <= j < k ==> s[j] != '/'
}

/// The registry host of an image reference: the text before its first `/`,
/// or the default registry when it has none. A heuristic, not a full parser
/// of image references.
pub open spec fn registry_host_of(template_path: Seq<char>) -> Seq<char> {
    if exists|k: int| first_slash_at(template_path, k) {
        template_path.subrange(0, choose|k: int| first_slash_at(template_path, k))
    } else {
        default_registry()
    }
}

/// The basic-auth text that carries an access token.
pub open spec fn basic_auth_of(token: Seq<char>) -> Seq<char> {
    "oauth2accesstoken:"@ + token
}

/// A registry configuration with one entry, from the quoted registry host and
/// the quoted auth value.
pub open spec fn docker_config_of(registry_json: Seq<char>, auth_json: Seq<char>) -> Seq<char> {
    "{\"auths\":{"@ + registry_json + ":{\"auth\":"@ + auth_json + "}}}"@
}

/// The configuration text for a template path and an access token.
pub open spec fn pull_config_of(template_path: Seq<char>, token: Seq<char>) -> Seq<char> {
    docker_config_of(
        json_quoted(registry_host_of(template_path)),
        json_quoted(base64_of(encode_utf8(basic_auth_of(token)))),
    )
}

/// A pull-credential object to install.
pub struct SecretPlan {
    pub name: String,
    /// The object's type tag.
    pub secret_type: String,
    /// The key under which `data` is stored.
    pub data_key: String,
    /// The registry configuration, as UTF-8 bytes.
    pub data: Vec<u8>,
}

/// Extracts the registry host from an image reference.
pub fn registry_host(template_path: &str) -> (r: String)
    ensures
        r@ == registry_host_of(template_path@),
{
    let n = template_path.unicode_len();
    let mut i: usize = 0;
    while i < n
        invariant
            n == template_path@.len(),
            i <= n,
            forall|j: int| 0 <= j < i ==> template_path@[j] != '/',
        decreases n - i,
    {
        if template_path.get_char(i) == '/' {
            assert(first_slash_at(template_path@, i as int));
            proof {
                let k = choose|k: int| first_slash_at(template_path@, k);
                assert(k == i) by {
                    if k < i {
                        assert(template_path@[k] != '/');
                    } else if k > i {
                        assert(template_path@[i as int] != '/');
                    }
                }
            }
            return String::from_str(template_path.substring_char(0, i));
        }
        i = i + 1;
    }
    proof {
        reveal_strlit("gcr.io");
    }
    String::from_str("gcr.io")
}

/// The basic-auth text `oauth2accesstoken:<token>`.
pub fn basic_auth(token: &str) -> (r: String)
    ensures
        r@ == basic_auth_of(token@),
{
    joined("oauth2accesstoken:", token)
}

/// Lays out the registry configuration from the already quoted host and auth value.
pub fn docker_config(registry_json: &str, auth_json: &str) -> (r: String)
    ensures
        r@ == docker_config_of(registry_json@, auth_json@),
{
    let mut r = String::from_str("{\"auths\":{");
    r.append(registry_json);
    r.append(":{\"auth\":");
    r.append(auth_json);
    r.append("}}}");
    r
}

/// Builds the pull credential called `secret_name` that lets the cluster pull
/// `template_path` with the access token `token`.
pub fn pull_secret(secret_name: &str, template_path: &str, token: &str) -> (r: SecretPlan)
    ensures
        r.name@ == secret_name@,
        r.secret_type@ == "kubernetes.io/dockerconfigjson"@,
        r.data_key@ == ".dockerconfigjson"@,
        r.data@ == encode_utf8(pull_config_of(template_path@, token@)),
{
    let host = registry_host(template_path);
    let auth = basic_auth(token);
    let auth_b64 = encode_base64(&auth.as_str().as_bytes_vec());
    let config = docker_config(json_quote(host.as_str()).as_str(), json_quote(auth_b64.as_str()).as_str());
    SecretPlan {
        name: String::from_str(secret_name),
        secret_type: String::from_str("kubernetes.io/dockerconfigjson"),
        data_key: String::from_str(".dockerconfigjson"),
        data: config.as_str().as_bytes_vec(),
    }
}

} // verus!

//! Well-known locations of the configuration: the rules file lives in the
//! `niri-float` directory under the user's configuration directory.
//!
//! Where the user's configuration directory is depends on the environment,
//! so the parameterless functions pin down only the path's tail; the path
//! building under a given base directory is exact.

use vstd::prelude::*;
use vstd::string::StringExecFns;

verus! {

/// Whether `suffix` is the tail of `s`.
pub open spec fn has_suffix(s: Seq<char>, suffix: Seq<char>) -> bool {
    s.len() >= suffix.len() && s.skip(s.len() - suffix.len()) == suffix
}

/// Relies on `dirs::config_dir`: the user's configuration directory, which
/// depends on the environment; `None` when it cannot be determined or is not
/// valid UTF-8.
#[verifier::external_body]
fn user_config_dir() -> (r: Option<String>) {
    dirs::config_dir().and_then(|path| path.into_os_string().into_string().ok())
}

/// The `niri-float` config directory under a given base directory.
pub fn config_dir_in(base: &str) -> (r: String)
    ensures
        r@ == base@ + "/niri-float"@,
{
    base.to_owned().concat("/niri-float")
}

/// The rules file inside the `niri-float` config directory under a given
/// base directory.
pub fn rules_path_in(base: &str) -> (r: String)
    ensures
        r@ == base@ + "/niri-float/rules.toml"@,
{
    let path = config_dir_in(base).concat("/rules.toml");
    proof {
        reveal_strlit("/niri-float");
        reveal_strlit("/rules.toml");
        reveal_strlit("/niri-float/rules.toml");
        assert(path@ =~= base@ + "/niri-float/rules.toml"@);
    }
    path
}

/// Where the `niri-float` config directory lives.
pub fn config_dir() -> (r: Option<String>)
    ensures
        r matches Some(path) ==> has_suffix(path@, "/niri-float"@),
{
    match user_config_dir() {
        Some(base) => {
            let path = config_dir_in(base.as_str());
            proof {
                assert(path@.skip(path@.len() - "/niri-float"@.len()) =~= "/niri-float"@);
            }
            Some(path)
        },
        None => None,
    }
}

/// Where the config file lives, inside of the config dir.
pub fn rules_path() -> (r: Option<String>)
    ensures
        r matches Some(path) ==> has_suffix(path@, "/niri-float/rules.toml"@),
{
    match user_config_dir() {
        Some(base) => {
            let path = rules_path_in(base.as_str());
            proof {
                assert(path@.skip(path@.len() - "/niri-float/rules.toml"@.len())
                    =~= "/niri-float/rules.toml"@);
            }
            Some(path)
        },
        None => None,
    }
}

} // verus!

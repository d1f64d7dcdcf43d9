//! Where the launcher's configuration files live, given the home directory.
//!
//! Finding the home directory itself is the runtime's business; from there
//! the paths are pure string arithmetic.

use vstd::prelude::*;
use vstd::string::StringExecFns;

verus! {

/// The application's name, which names its configuration directory.
pub open spec fn app_name_spec() -> Seq<char> {
    "command_launcher"@
}

pub fn app_name() -> (r: &'static str)
    ensures
        r@ == app_name_spec(),
{
    "command_launcher"
}

/// The configuration directory under the given home directory.
pub open spec fn config_dir_spec(home: Seq<char>) -> Seq<char> {
    home + "/.config/"@ + app_name_spec()
}

pub fn config_dir(home: &str) -> (r: String)
    ensures
        r@ == config_dir_spec(home@),
{
    let mut path = home.to_owned();
    path.append("/.config/");
    path.append(app_name());
    path
}

/// The settings file inside the configuration directory.
pub fn settings_path(home: &str) -> (r: String)
    ensures
        r@ == config_dir_spec(home@) + "/setting.yaml"@,
{
    let mut path = config_dir(home);
    path.append("/setting.yaml");
    path
}

/// The environment file inside the configuration directory.
pub fn env_path(home: &str) -> (r: String)
    ensures
        r@ == config_dir_spec(home@) + "/env.yaml"@,
{
    let mut path = config_dir(home);
    path.append("/env.yaml");
    path
}

} // verus!

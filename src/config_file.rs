//! Where the configuration file lives, and the older two-template configuration.

use vstd::prelude::*;

verus! {

/// The older configuration: one commit template and one branch template.
#[derive(Debug)]
pub struct GitConfig {
    pub commit_format: String,
    pub branch_format: String,
}

impl GitConfig {
    /// Both templates empty.
    pub fn default_config() -> (r: Self)
        ensures
            r.commit_format@.len() == 0,
            r.branch_format@.len() == 0,
    {
        GitConfig { commit_format: String::new(), branch_format: String::new() }
    }
}

/// The name of the configuration file.
pub open spec fn config_file_name() -> Seq<char> {
    ".git-helpe-rs-config"@
}

/// `name` put under directory `base`, with one `/` between them.
pub open spec fn path_under(base: Seq<char>, name: Seq<char>) -> Seq<char> {
    if base.len() == 0 {
        name
    } else if base.last() == '/' {
        base + name
    } else {
        base + "/"@ + name
    }
}

/// The configuration file: the explicit path, else the file under
/// `XDG_CONFIG_HOME`, else the file under `HOME`.
pub open spec fn config_path_for(
    explicit: Option<String>,
    xdg_config_home: Option<String>,
    home: Option<String>,
) -> Option<Seq<char>> {
    match explicit {
        Some(p) => Some(p@),
        None => match xdg_config_home {
            Some(d) => Some(path_under(d@, config_file_name())),
            None => match home {
                Some(d) => Some(path_under(d@, config_file_name())),
                None => None,
            },
        },
    }
}

/// `name` put under directory `base`, with one `/` between them.
fn join_path(base: String, name: &str) -> (r: String)
    ensures
        r@ == path_under(base@, name@),
{
    let n = base.unicode_len();
    if n == 0 {
        name.to_owned()
    } else if base.as_str().get_char(n - 1) == '/' {
        let mut r = base;
        r.append(name);
        r
    } else {
        let mut r = base;
        r.append("/");
        r.append(name);
        r
    }
}

/// The configuration file: the explicit path, else the file under
/// `XDG_CONFIG_HOME`, else the file under `HOME`; none when all three are absent.
pub fn get_path_to_config(
    path: Option<String>,
    xdg_config_home: Option<String>,
    home: Option<String>,
) -> (r: Option<String>)
    ensures
        match r {
            Some(p) => config_path_for(path, xdg_config_home, home) == Some(p@),
            None => config_path_for(path, xdg_config_home, home) is None,
        },
{
    if let Some(path) = path {
        return Some(path);
    }
    match xdg_config_home {
        Some(dir) => Some(join_path(dir, ".git-helpe-rs-config")),
        None => match home {
            Some(dir) => Some(join_path(dir, ".git-helpe-rs-config")),
            None => None,
        },
    }
}

} // verus!

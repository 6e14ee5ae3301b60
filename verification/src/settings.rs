//! Where the application keeps its settings: `~/.cervisia/Settings.toml`.
use vstd::prelude::*;

verus! {

/// `base` with `part` pushed onto it as `std::path::PathBuf::push` does for a
/// relative `part`: a separator goes between them unless `base` is empty or already
/// ends with one.
pub open spec fn join_path(base: Seq<char>, part: Seq<char>) -> Seq<char> {
    if base.len() == 0 {
        part
    } else if base.last() == '/' {
        base + part
    } else {
        base + seq!['/'] + part
    }
}

/// The directory of the settings below the home directory `home`.
pub open spec fn config_dir_of(home: Seq<char>) -> Seq<char> {
    join_path(home, ".cervisia"@)
}

/// The settings file below the home directory `home`.
pub open spec fn config_file_of(home: Seq<char>) -> Seq<char> {
    join_path(config_dir_of(home), "Settings.toml"@)
}

/// `base` with `part` pushed onto it (see `join_path`).
pub fn join(base: &str, part: &str) -> (r: String)
    ensures
        r@ == join_path(base@, part@),
{
    let n = base.unicode_len();
    if n == 0 {
        return String::from_str(part);
    }
    let mut s = String::from_str(base);
    if base.get_char(n - 1) != '/' {
        s.append("/");
        proof {
            reveal_strlit("/");
        }
    }
    s.append(part);
    s
}

/// The directory `~/.cervisia` for the home directory `home`.
pub fn config_dir_path(home: &str) -> (r: String)
    ensures
        r@ == config_dir_of(home@),
{
    join(home, ".cervisia")
}

/// The settings file `~/.cervisia/Settings.toml` for the home directory `home`.
pub fn config_file_path(home: &str) -> (r: String)
    ensures
        r@ == config_file_of(home@),
{
    let dir = config_dir_path(home);
    join(dir.as_str(), "Settings.toml")
}

} // verus!

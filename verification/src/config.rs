//! The stored configuration and where it lives.

use vstd::prelude::*;

verus! {

/// The configuration that the tool stores between runs.
#[derive(Debug)]
pub struct Config {
    pub mesh_ip: String,
    pub cp_runner_addr: String,
}

/// Name of the directory, under the home directory, that holds the configuration.
pub open spec fn config_dir_name() -> Seq<char> {
    ".mgs-cli"@
}

/// Name of the configuration file.
pub open spec fn config_file_name() -> Seq<char> {
    "mgs-cli.toml"@
}

/// Whether `c` separates path components where `sep` is the main separator:
/// `sep` itself, and also `/` where the main separator is `\`.
pub open spec fn is_separator(c: char, sep: char) -> bool {
    c == sep || (sep == '\\' && c == '/')
}

/// The relative component `comp` appended to the path `base`, with the
/// separator `sep` put between them unless `base` is empty or already ends
/// with a separator.
pub open spec fn join_path(base: Seq<char>, comp: Seq<char>, sep: char) -> Seq<char> {
    if base.len() == 0 || is_separator(base.last(), sep) {
        base + comp
    } else {
        base.push(sep) + comp
    }
}

/// Where the configuration is stored: `<home>/.mgs-cli/mgs-cli.toml`, with `.`
/// in place of an unknown home directory.
pub open spec fn config_path_spec(home: Option<Seq<char>>, sep: char) -> Seq<char> {
    let base = match home {
        Some(h) => h,
        None => "."@,
    };
    join_path(join_path(base, config_dir_name(), sep), config_file_name(), sep)
}

/// `comp` joined to `base` as a path.
fn join_path_exec(base: String, comp: &str, sep: &str) -> (res: String)
    requires
        sep@.len() == 1,
    ensures
        res@ == join_path(base@, comp@, sep@[0]),
{
    let n = base.as_str().unicode_len();
    let mut res = base;
    let s = sep.get_char(0);
    let ends_with_separator = n > 0 && {
        let last = res.as_str().get_char(n - 1);
        last == s || (s == '\\' && last == '/')
    };
    if n == 0 || ends_with_separator {
        res.append(comp);
    } else {
        res.append(sep);
        assert(sep@ =~= seq![sep@[0]]);
        res.append(comp);
    }
    res
}

/// The path of the configuration file for the home directory `home`, where
/// `sep` is the single-character path separator of the host.
pub fn config_path(home: Option<&str>, sep: &str) -> (res: String)
    requires
        sep@.len() == 1,
    ensures
        res@ == config_path_spec(
            match home {
                Some(h) => Some(h@),
                None => None,
            },
            sep@[0],
        ),
{
    let base = match home {
        Some(h) => h.to_owned(),
        None => ".".to_owned(),
    };
    let dir = join_path_exec(base, ".mgs-cli", sep);
    join_path_exec(dir, "mgs-cli.toml", sep)
}

/// The configuration file lies in `.mgs-cli` under the home directory, `.`
/// standing for an unknown one: the path starts with the home directory, ends
/// with `.mgs-cli`, the separator and `mgs-cli.toml`, and between them comes
/// one separator exactly when the home directory is not empty and does not
/// already end with a separator.
pub proof fn law_config_path(home: Seq<char>, sep: char)
    requires
        sep == '/' || sep == '\\',
    ensures
        config_path_spec(None, sep) == config_path_spec(Some("."@), sep),
        config_path_spec(Some(home), sep) == if home.len() == 0 || is_separator(home.last(), sep) {
            home + ".mgs-cli"@ + seq![sep] + "mgs-cli.toml"@
        } else {
            home + seq![sep] + ".mgs-cli"@ + seq![sep] + "mgs-cli.toml"@
        },
{
    reveal_strlit(".mgs-cli");
    let d = join_path(home, ".mgs-cli"@, sep);
    assert(d.len() > 0);
    assert(d.last() == 'i');
    assert(!is_separator(d.last(), sep));
    assert(config_path_spec(Some(home), sep) == d.push(sep) + "mgs-cli.toml"@);
    if home.len() == 0 || is_separator(home.last(), sep) {
        assert(d == home + ".mgs-cli"@);
        assert(d.push(sep) + "mgs-cli.toml"@ =~= home + ".mgs-cli"@ + seq![sep] + "mgs-cli.toml"@);
    } else {
        assert(d == home.push(sep) + ".mgs-cli"@);
        assert(d.push(sep) + "mgs-cli.toml"@ =~= home + seq![sep] + ".mgs-cli"@ + seq![sep] + "mgs-cli.toml"@);
    }
}

} // verus!

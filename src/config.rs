use vstd::prelude::*;

verus! {

/// Where the launcher keeps its state and puts games.
#[derive(Clone, Debug)]
pub struct Config {
    /// Root under which each game gets a directory of its own.
    pub install_dir: String,
    /// Process-wide data directory; the registry lives beneath it.
    pub data_dir: String,
    /// Logging filter requested by the configuration.
    pub log_level: String,
}

/// `name` placed inside directory `base`, with one separator between them.
pub open spec fn join_path(base: Seq<char>, name: Seq<char>) -> Seq<char> {
    if base.len() > 0 && base.last() == '/' {
        base + name
    } else {
        base + seq!['/'] + name
    }
}

/// Path of `name` inside directory `base`.
pub fn join(base: &str, name: &str) -> (r: String)
    ensures
        r@ == join_path(base@, name@),
{
    let n = base.unicode_len();
    let mut out = String::from_str(base);
    if n == 0 || base.get_char(n - 1) != '/' {
        out.append("/");
        proof {
            reveal_strlit("/");
        }
        assert("/"@ =~= seq!['/']);
    }
    out.append(name);
    out
}

} // verus!

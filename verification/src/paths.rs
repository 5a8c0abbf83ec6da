//! Unix path joining on strings and the location of Soterspace state.

use vstd::prelude::*;
use vstd::string::*;
use crate::text::{cat, opt_str, owned, push_char, res_string};

verus! {

/// `base` joined with `rel` as `Path::join` documents it on Unix: an
/// absolute `rel` replaces `base`; otherwise a `/` separates the two unless
/// `base` is empty or already ends with one.
pub open spec fn joined(base: Seq<char>, rel: Seq<char>) -> Seq<char> {
    if rel.len() > 0 && rel[0] == '/' {
        rel
    } else if base.len() == 0 || base.last() == '/' {
        base + rel
    } else {
        base + seq!['/'] + rel
    }
}

pub fn join(base: &str, rel: &str) -> (r: String)
    ensures
        r@ == joined(base@, rel@),
{
    let bn = base.unicode_len();
    let rn = rel.unicode_len();
    if rn > 0 && rel.get_char(0) == '/' {
        return owned(rel);
    }
    if bn == 0 || base.get_char(bn - 1) == '/' {
        return cat(base, rel);
    }
    let mut r = owned(base);
    push_char(&mut r, '/');
    r.append(rel);
    r
}

/// The directory that holds all Soterspaces: `$XDG_STATE_HOME/soter/spaces`,
/// else `$HOME/.local/state/soter/spaces`; an error when neither is set.
pub open spec fn state_root_spec(xdg_state_home: Option<Seq<char>>, home: Option<Seq<char>>) -> Result<
    Seq<char>,
    Seq<char>,
> {
    match xdg_state_home {
        Some(x) => Ok(joined(x, "soter/spaces"@)),
        None => match home {
            Some(h) => Ok(joined(joined(h, ".local/state"@), "soter/spaces"@)),
            None => Err("HOME is not set"@),
        },
    }
}

pub fn state_root(xdg_state_home: Option<&str>, home: Option<&str>) -> (r: Result<String, String>)
    ensures
        res_string(r) == state_root_spec(opt_str(xdg_state_home), opt_str(home)),
{
    let base = match xdg_state_home {
        Some(x) => owned(x),
        None => match home {
            Some(h) => join(h, ".local/state"),
            None => return Err(owned("HOME is not set")),
        },
    };
    Ok(join(base.as_str(), "soter/spaces"))
}

} // verus!

use vstd::prelude::*;
use vstd::string::StrSliceExecFns;

verus! {

/// `part` placed under `base`: an absolute `part` (one that starts with the
/// separator) replaces `base`; otherwise `base`, the separator unless `base`
/// is empty or already ends with it, then `part`.
pub open spec fn path_joined(base: Seq<char>, part: Seq<char>, sep: char) -> Seq<char> {
    if part.len() > 0 && part[0] == sep {
        part
    } else if base.len() == 0 || base.last() == sep {
        base + part
    } else {
        base.push(sep) + part
    }
}

/// The directory the platform reported, or `.` when it reported none.
pub open spec fn dir_or_current(d: Option<Seq<char>>) -> Seq<char> {
    match d {
        Some(d) => d,
        None => "."@,
    }
}

pub open spec fn is_separator(sep: char) -> bool {
    sep == '/' || sep == '\\'
}

/// Joins `part` under `base` with the separator `sep`.
pub fn join_path(base: &str, part: &str, sep: char) -> (r: String)
    requires
        is_separator(sep),
    ensures
        r@ == path_joined(base@, part@, sep),
{
    if part.unicode_len() > 0 && part.get_char(0) == sep {
        return String::from_str(part);
    }
    let mut r = String::from_str(base);
    let n = base.unicode_len();
    if n > 0 && base.get_char(n - 1) != sep {
        let sep_text: &str = if sep == '/' {
            "/"
        } else {
            "\\"
        };
        proof {
            reveal_strlit("/");
            reveal_strlit("\\");
        }
        assert(sep_text@ =~= seq![sep]);
        r.append(sep_text);
        assert(r@ =~= base@.push(sep));
    }
    r.append(part);
    r
}

/// Relies on std::path::MAIN_SEPARATOR: the platform's path separator,
/// `\` on Windows and `/` elsewhere.
#[verifier::external_body]
pub fn main_separator() -> (r: char)
    ensures
        is_separator(r),
{
    std::path::MAIN_SEPARATOR
}

/// Relies on dirs::home_dir: the user's home directory, when the platform
/// reports one.
#[verifier::external_body]
pub fn home_dir() -> (r: Option<String>) {
    dirs::home_dir().map(|p| p.to_string_lossy().into_owned())
}

/// Relies on dirs::data_dir: the user's data directory, when the platform
/// reports one.
#[verifier::external_body]
pub fn data_dir() -> (r: Option<String>) {
    dirs::data_dir().map(|p| p.to_string_lossy().into_owned())
}

} // verus!

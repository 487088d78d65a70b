//! Choosing the directory a run works on.
//!
//! An invocation names its target either explicitly (a relative or
//! absolute path) or as a spot under the system temp directory — with a
//! chosen name, or a fresh `mct-`-tagged random one.  Exactly one of the
//! two forms is active per run; naming neither is a usage error.  The
//! binary hands in the temp directory it read from the system and does
//! the filesystem work afterwards.

use vstd::prelude::*;
use crate::error::ToolError;
use crate::text::{joined, join_path};

verus! {

/// An ASCII letter or digit.
pub open spec fn is_alnum(c: char) -> bool {
    ('a' <= c && c <= 'z') || ('A' <= c && c <= 'Z') || ('0' <= c && c <= '9')
}

/// The tag every generated temp-directory name starts with.
pub const TEMP_TAG: &'static str = "mct-";

/// The length of the random suffix after the tag.
pub const SUFFIX_LEN: usize = 8;

/// The shape of a generated temp-directory name: the fixed tag followed
/// by exactly eight ASCII alphanumeric characters.
pub open spec fn temp_name_shape(n: Seq<char>) -> bool {
    &&& n.len() == TEMP_TAG@.len() + SUFFIX_LEN
    &&& n.subrange(0, TEMP_TAG@.len() as int) == TEMP_TAG@
    &&& forall|i: int| TEMP_TAG@.len() <= i < n.len() ==> is_alnum(n[i])
}

/// Relies on rand's `Alphanumeric` distribution through
/// `SampleString::sample_string`: it returns `len` characters, each
/// drawn from the ASCII letters and digits.  Which ones come back is
/// random; nothing more is assumed.
#[verifier::external_body]
fn random_alphanumeric(len: usize) -> (r: String)
    ensures
        r@.len() == len as int,
        forall|i: int| 0 <= i < r@.len() ==> is_alnum(r@[i]),
{
    rand::distr::SampleString::sample_string(&rand::distr::Alphanumeric, &mut rand::rng(), len)
}

/// Draws a fresh name for a temp directory: the fixed tag plus a random
/// eight-character alphanumeric suffix.
pub fn random_temp_name() -> (r: String)
    ensures
        temp_name_shape(r@),
{
    let suffix = random_alphanumeric(SUFFIX_LEN);
    let r = String::from_str(TEMP_TAG).concat(suffix.as_str());
    proof {
        assert(r@.subrange(0, TEMP_TAG@.len() as int) =~= TEMP_TAG@);
    }
    r
}

/// Turns the parsed flags into the path to create: the explicit path as
/// given, a named or freshly named spot under `temp_dir`, or the usage
/// error when neither form was requested.
pub fn resolve_target(temp_folder: bool, folder_name: Option<String>, temp_dir: &str) -> (r:
    Result<String, ToolError>)
    ensures
        ({
            match folder_name {
                Option::Some(name) => {
                    if temp_folder {
                        r matches Ok(p) && p@ == joined(temp_dir@, name@)
                    } else {
                        r matches Ok(p) && p@ == name@
                    }
                },
                Option::None => {
                    if temp_folder {
                        r matches Ok(p) && exists|n: Seq<char>|
                            temp_name_shape(n) && p@ == joined(temp_dir@, n)
                    } else {
                        r matches Err(e) && e == ToolError::Usage
                    }
                },
            }
        }),
{
    if temp_folder {
        match folder_name {
            Option::Some(name) => Ok(join_path(temp_dir, name.as_str())),
            Option::None => {
                let n = random_temp_name();
                let p = join_path(temp_dir, n.as_str());
                proof {
                    assert(temp_name_shape(n@) && p@ == joined(temp_dir@, n@));
                }
                Ok(p)
            },
        }
    } else {
        match folder_name {
            Option::Some(name) => Ok(name),
            Option::None => Err(ToolError::Usage),
        }
    }
}

} // verus!

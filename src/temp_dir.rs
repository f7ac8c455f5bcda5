//! Scratch directories for staging artifacts: a fresh name under a base
//! directory. Creating and removing the directory is left to the caller.
use vstd::prelude::*;

use crate::text::{ends_with, ends_with_spec, push_char};

verus! {

/// Relies on fastrand::alphanumeric: a random char in a-z, A-Z or 0-9.
pub assume_specification[ fastrand::alphanumeric ]() -> (r: char)
    ensures
        ('a' <= r && r <= 'z') || ('A' <= r && r <= 'Z') || ('0' <= r && r <= '9'),
;

/// Whether `c` is an ASCII letter or digit.
pub open spec fn is_alphanumeric(c: char) -> bool {
    ('a' <= c && c <= 'z') || ('A' <= c && c <= 'Z') || ('0' <= c && c <= '9')
}

/// The number of random chars in a scratch directory's name.
pub const SUFFIX_LEN: usize = 6;

/// The path of the scratch directory named `eunomia.<suffix>` under `base`.
pub open spec fn temp_dir_path(base: Seq<char>, suffix: Seq<char>) -> Seq<char> {
    let sep = if ends_with_spec(base, "/"@) {
        Seq::empty()
    } else {
        "/"@
    };
    base + sep + "eunomia."@ + suffix
}

/// A scratch directory, named by its path.
pub struct TempDir {
    path: String,
}

impl View for TempDir {
    type V = Seq<char>;

    closed spec fn view(&self) -> Seq<char> {
        self.path@
    }
}

impl TempDir {
    /// A fresh scratch directory under `base`, named `eunomia.` and six random
    /// letters or digits.
    pub fn new_in(base: &str) -> (r: TempDir)
        ensures
            exists|suffix: Seq<char>|
                suffix.len() == SUFFIX_LEN && (forall|i: int|
                    0 <= i < suffix.len() ==> is_alphanumeric(#[trigger] suffix[i])) && r@
                    == temp_dir_path(base@, suffix),
    {
        proof {
            reveal_strlit("/");
            reveal_strlit("eunomia.");
        }
        let mut path = base.to_owned();
        if !ends_with(base, "/") {
            path.append("/");
        }
        path.append("eunomia.");
        let ghost prefix = path@;
        let ghost mut suffix = Seq::<char>::empty();
        let mut i: usize = 0;
        while i < SUFFIX_LEN
            invariant
                i <= SUFFIX_LEN,
                suffix.len() == i,
                forall|k: int| 0 <= k < i ==> is_alphanumeric(#[trigger] suffix[k]),
                path@ == prefix + suffix,
            decreases SUFFIX_LEN - i,
        {
            let c = fastrand::alphanumeric();
            push_char(&mut path, c);
            proof {
                suffix = suffix.push(c);
            }
            assert(path@ =~= prefix + suffix);
            i += 1;
        }
        assert(prefix + suffix =~= temp_dir_path(base@, suffix));
        TempDir { path }
    }

    /// The path of the directory.
    pub fn path(&self) -> (r: &str)
        ensures
            r@ == self@,
    {
        self.path.as_str()
    }
}

} // verus!

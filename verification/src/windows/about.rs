//! The About window's build line, and the one cached window both platforms
//! keep.
use vstd::prelude::*;
use vstd::string::StringExecFns;

verus! {

/// `0.1.0 (44a38fa)`: the version with the commit the build stamped, when
/// there is one; the version alone otherwise.
pub open spec fn spec_build_string(version: Seq<char>, commit: Option<Seq<char>>) -> Seq<char> {
    match commit {
        Some(c) => if c.len() > 0 { version + " ("@ + c + ")"@ } else { version },
        None => version,
    }
}

/// The version with the commit the build stamped (`None` or empty when it was
/// built without one). The version alone names a dozen builds; the commit is
/// the part a bug report needs.
pub fn build_string(version: &str, commit: Option<&str>) -> (r: String)
    ensures
        r@ == spec_build_string(version@, match commit { Some(c) => Some(c@), None => None }),
{
    match commit {
        Some(c) => {
            if c.is_empty() {
                version.to_owned()
            } else {
                let mut r = version.to_owned();
                r.append(" (");
                r.append(c);
                r.append(")");
                r
            }
        },
        None => version.to_owned(),
    }
}

/// A window built once and reused until something invalidates it.
pub struct WindowSlot {
    built: bool,
}

impl WindowSlot {
    /// Whether a built window is being kept.
    pub closed spec fn spec_built(&self) -> bool {
        self.built
    }

    /// No window yet.
    pub fn new() -> (r: Self)
        ensures
            !r.spec_built(),
    {
        WindowSlot { built: false }
    }

    /// Opening: says whether the window must be built first (none is kept), and
    /// keeps it from then on.
    pub fn show(&mut self) -> (must_build: bool)
        ensures
            must_build == !old(self).spec_built(),
            final(self).spec_built(),
    {
        let must_build = !self.built;
        self.built = true;
        must_build
    }

    /// Discards the cached window so the next open rebuilds it (its labels
    /// are baked in when built, so a language change needs a rebuild). Says
    /// whether there was one to take off screen.
    pub fn invalidate(&mut self) -> (had_one: bool)
        ensures
            had_one == old(self).spec_built(),
            !final(self).spec_built(),
    {
        let had_one = self.built;
        self.built = false;
        had_one
    }
}

} // verus!

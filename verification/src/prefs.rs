//! Link path-policy flags.
use vstd::prelude::*;

verus! {

/// The mutually exclusive `--absolute` / `--relative` flags of a `link` command.
pub struct LinkArgs {
    pub absolute: bool,
    pub relative: bool,
}

impl LinkArgs {
    /// Converts the two path-policy flags into the three-state override of the link container:
    /// `Some(true)` for `--relative`, `Some(false)` for `--absolute`, `None` when neither is set.
    pub fn prefer_relative(&self) -> (res: Option<bool>)
        ensures
            res == (if self.relative {
                Some(true)
            } else if self.absolute {
                Some(false)
            } else {
                None::<bool>
            }),
    {
        if self.relative {
            Some(true)
        } else if self.absolute {
            Some(false)
        } else {
            None
        }
    }
}

} // verus!

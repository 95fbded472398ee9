//! Where themes are kept.
use vstd::prelude::*;

verus! {

pub struct ThemeHolder {
    pub theme_dir: String,
    pub tmp_dir: String,
}

impl ThemeHolder {
    pub fn new(theme_dir: String, tmp_dir: String) -> (r: Self)
        ensures
            r.theme_dir == theme_dir,
            r.tmp_dir == tmp_dir,
    {
        ThemeHolder { theme_dir, tmp_dir }
    }
}

} // verus!

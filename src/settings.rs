use vstd::prelude::*;
use crate::text::same_text;

verus! {

/// The user's preferences.
#[derive(Clone, Copy, Debug, PartialEq, Eq, Structural)]
pub struct Settings {
    pub fuzzy_search: bool,
}

impl Default for Settings {
    fn default() -> (r: Self)
        ensures
            !r.fuzzy_search,
    {
        Settings { fuzzy_search: false }
    }
}

impl Settings {
    /// Sets the flag named `prop` to `value`; another name changes nothing.
    pub fn set_bool(&mut self, prop: &str, value: bool)
        ensures
            final(self).fuzzy_search == if prop@ == "fuzzy_search"@ {
                value
            } else {
                old(self).fuzzy_search
            },
    {
        if same_text(prop, "fuzzy_search") {
            self.fuzzy_search = value;
        }
    }
}

/// The settings file in the data directory `dir`.
pub fn settings_path(dir: &str) -> (r: String)
    ensures
        r@ == if dir@.len() > 0 && dir@.last() == '/' {
            dir@ + "setting.json"@
        } else {
            dir@ + "/setting.json"@
        },
{
    let chars = crate::text::chars_of(dir);
    let mut r = String::from_str(dir);
    if chars.len() > 0 && chars[chars.len() - 1] == '/' {
        r.append("setting.json");
    } else {
        r.append("/setting.json");
    }
    r
}

} // verus!

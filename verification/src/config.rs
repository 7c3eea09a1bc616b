//! Settings that the command line may give and the environment may give.

use vstd::prelude::*;

verus! {

/// One setting, as the command line gave it and as the environment gave it.
#[derive(Debug)]
pub struct Setting {
    /// The value of the command-line flag, if the flag was given.
    pub flag: Option<String>,
    /// The value of the environment variable, if the variable is set.
    pub env: Option<String>,
}

impl Setting {
    /// The value of the setting: the command line's where it gave one, else
    /// the environment's, else none.
    pub open spec fn chosen(self) -> Option<Seq<char>> {
        match self.flag {
            Some(value) => Some(value@),
            None => match self.env {
                Some(value) => Some(value@),
                None => None,
            },
        }
    }

    /// The value of the setting, if it has one.
    pub fn resolve(self) -> (r: Option<String>)
        ensures
            match r {
                Some(value) => self.chosen() == Some(value@),
                None => self.chosen() is None,
            },
    {
        match self.flag {
            Some(value) => Some(value),
            None => self.env,
        }
    }
}

/// The command line is heard before the environment.
pub proof fn lemma_flag_takes_precedence(setting: Setting)
    ensures
        setting.flag matches Some(value) ==> setting.chosen() == Some(value@),
        setting.flag is None && setting.env is None <==> setting.chosen() is None,
{
}

} // verus!

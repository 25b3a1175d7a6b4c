use vstd::prelude::*;

verus! {

/// Command-line arguments: where the configuration file lies.
#[derive(Clone, Debug)]
pub struct CliConfig {
    pub config_file: String,
}

/// Where the game server's event service listens, and the token that logs in to it.
#[derive(Clone, Debug)]
pub struct WiseConfig {
    pub address: String,
    pub token: String,
}

/// Who may give commands.
#[derive(Clone, Debug)]
pub struct AdminConfig {
    pub allowed_ids: Vec<String>,
}

/// The whole configuration file.
#[derive(Clone, Debug)]
pub struct FileConfig {
    pub wise: WiseConfig,
    pub admin: AdminConfig,
}

impl AdminConfig {
    pub open spec fn allows(&self, id: Seq<char>) -> bool {
        exists|i: int| 0 <= i < self.allowed_ids@.len() && #[trigger] self.allowed_ids@[i]@ == id
    }

    /// Whether the player `id` is on the allow-list.
    pub fn is_allowed(&self, id: &String) -> (r: bool)
        ensures
            r == self.allows(id@),
    {
        let mut i: usize = 0;
        while i < self.allowed_ids.len()
            invariant
                i <= self.allowed_ids@.len(),
                forall|j: int| 0 <= j < i ==> self.allowed_ids@[j]@ != id@,
            decreases self.allowed_ids.len() - i,
        {
            if self.allowed_ids[i] == *id {
                return true;
            }
            i += 1;
        }
        false
    }
}

} // verus!

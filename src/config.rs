//! Process settings: the service's base address and the store's address.
use vstd::prelude::*;

verus! {

/// The settings, as read from the settings file or left at their defaults.
#[derive(Clone, Debug)]
pub struct Config {
    base_url: String,
    database_url: String,
}

impl Default for Config {
    fn default() -> (r: Config)
        ensures
            r.base_url_view() == Seq::<char>::empty(),
            r.database_url_view() == Seq::<char>::empty(),
    {
        Config { base_url: String::new(), database_url: String::new() }
    }
}

impl Config {
    pub closed spec fn base_url_view(&self) -> Seq<char> {
        self.base_url@
    }

    pub closed spec fn database_url_view(&self) -> Seq<char> {
        self.database_url@
    }

    pub fn new(base_url: String, database_url: String) -> (r: Config)
        ensures
            r.base_url_view() == base_url@,
            r.database_url_view() == database_url@,
    {
        Config { base_url, database_url }
    }

    pub fn base_url(&self) -> (r: &String)
        ensures
            r@ == self.base_url_view(),
    {
        &self.base_url
    }

    pub fn database_url(&self) -> (r: &String)
        ensures
            r@ == self.database_url_view(),
    {
        &self.database_url
    }

    /// The effective settings: a value given from the environment takes the
    /// place of the one from the file; an absent one leaves it.
    pub fn with_overrides(self, base_url: Option<String>, database_url: Option<String>) -> (r:
        Config)
        ensures
            r.base_url_view() == match base_url {
                Some(s) => s@,
                None => self.base_url_view(),
            },
            r.database_url_view() == match database_url {
                Some(s) => s@,
                None => self.database_url_view(),
            },
    {
        let base_url = match base_url {
            Some(s) => s,
            None => self.base_url,
        };
        let database_url = match database_url {
            Some(s) => s,
            None => self.database_url,
        };
        Config { base_url, database_url }
    }
}

} // verus!

use vstd::prelude::*;
use vstd::string::*;

verus! {

/// Where the store keeps its data.
#[derive(Debug, Clone)]
pub struct ReqstrConfig {
    pub storage_location: String,
}

/// The database path under a program's location, used when no
/// configuration file is found.
pub open spec fn default_database() -> Seq<char> {
    seq![
        '/', 'd', 'a', 't', 'a', '/', 'd', 'a', 't', 'a', 'b', 'a', 's', 'e', '.', 's', 'q', 'l',
        'i', 't', 'e', '3',
    ]
}

impl ReqstrConfig {
    pub fn new(storage_location: String) -> (r: ReqstrConfig)
        ensures
            r.storage_location == storage_location,
    {
        ReqstrConfig { storage_location }
    }

    /// The configuration used without a configuration file: the database
    /// lies under `data/` next to the program.
    pub fn for_program(program: &str) -> (r: ReqstrConfig)
        ensures
            r.storage_location@ == program@ + default_database(),
    {
        proof {
            reveal_strlit("/data/database.sqlite3");
        }
        let mut path = String::from_str(program);
        path.append("/data/database.sqlite3");
        ReqstrConfig { storage_location: path }
    }
}

} // verus!

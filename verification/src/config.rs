//! Connection settings for the wiki and its identity database.

use vstd::prelude::*;

verus! {

/// Settings for the identity database connection.
pub struct DBConfig {
    pub database: String,
    pub host: String,
    pub username: String,
    pub password: String,
}

/// Settings for the run: the wiki to authenticate against and the
/// identity database behind it.
pub struct Config {
    pub wiki_url: String,
    pub username: String,
    pub password: String,
    pub db: DBConfig,
}

impl Default for Config {
    /// The baseline settings: a placeholder wiki address and empty
    /// credentials, meant to be overridden by a settings file.
    fn default() -> (c: Config)
        ensures
            c.wiki_url@ == "https://example.com"@,
            c.username@ == Seq::<char>::empty(),
            c.password@ == Seq::<char>::empty(),
            c.db.database@ == Seq::<char>::empty(),
            c.db.host@ == Seq::<char>::empty(),
            c.db.username@ == Seq::<char>::empty(),
            c.db.password@ == Seq::<char>::empty(),
    {
        Config {
            wiki_url: String::from_str("https://example.com"),
            username: String::new(),
            password: String::new(),
            db: DBConfig {
                database: String::new(),
                host: String::new(),
                username: String::new(),
                password: String::new(),
            },
        }
    }
}

} // verus!

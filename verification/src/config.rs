//! Application settings as stored in the configuration file.
use vstd::prelude::*;

verus! {

/// Settings of the application.
#[derive(Debug, Clone, PartialEq)]
pub struct Config {
    pub base_url: String,
    pub username: String,
    pub password: String,
    pub theme: String,
    pub cava: bool,
    pub cava_size: u8,
    pub notifications: bool,
    pub random_songs_count: usize,
    pub scrobble: bool,
    pub save_queue: bool,
}

impl Config {
    /// A server connection has been entered: URL, user name and password.
    pub fn is_configured(&self) -> (r: bool)
        ensures
            r == (self.base_url@.len() > 0 && self.username@.len() > 0
                && self.password@.len() > 0),
    {
        !self.base_url.as_str().is_empty() && !self.username.as_str().is_empty()
            && !self.password.as_str().is_empty()
    }
}

impl Default for Config {
    /// The documented defaults: no server, visualizer off at 40%, no desktop
    /// notifications, 250 random songs, scrobbling and queue saving on.
    fn default() -> (r: Config)
        ensures
            r.base_url@.len() == 0,
            r.username@.len() == 0,
            r.password@.len() == 0,
            r.theme@.len() == 0,
            !r.cava,
            r.cava_size == 40,
            !r.notifications,
            r.random_songs_count == 250,
            r.scrobble,
            r.save_queue,
    {
        Config {
            base_url: String::new(),
            username: String::new(),
            password: String::new(),
            theme: String::new(),
            cava: false,
            cava_size: 40,
            notifications: false,
            random_songs_count: 250,
            scrobble: true,
            save_queue: true,
        }
    }
}

} // verus!

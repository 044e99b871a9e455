//! The proxy's run-time settings.
use vstd::prelude::*;
use crate::eaccess::Session;

verus! {

/// Settings of a proxy run; the defaults are those of the command line.
#[derive(Debug, Clone)]
pub struct Config {
    pub listen: String,
    pub account: Option<String>,
    pub password: Option<String>,
    pub game: String,
    pub character: Option<String>,
    pub scripts_dir: String,
    pub db_path: String,
    pub map_path: Option<String>,
    pub monitor: bool,
    pub without_frontend: bool,
    pub detachable_client_port: Option<u16>,
    pub detachable_client_host: String,
    pub reconnect: bool,
    pub reconnect_delay: u64,
    pub session: Option<Session>,
    pub frontend: String,
    pub custom_launch: Option<String>,
    pub custom_launch_dir: Option<String>,
}

impl Default for Config {
    fn default() -> (r: Self)
        ensures
            r.listen@ == "127.0.0.1:4900"@,
            r.account is None,
            r.password is None,
            r.game@ == "GS3"@,
            r.character is None,
            r.scripts_dir@ == "./scripts"@,
            r.db_path@ == "revenant.db"@,
            r.map_path is None,
            !r.monitor,
            !r.without_frontend,
            r.detachable_client_port is None,
            r.detachable_client_host@ == "127.0.0.1"@,
            !r.reconnect,
            r.reconnect_delay == 30,
            r.session is None,
            r.frontend@.len() == 0,
            r.custom_launch is None,
            r.custom_launch_dir is None,
    {
        Config {
            listen: "127.0.0.1:4900".to_owned(),
            account: None,
            password: None,
            game: "GS3".to_owned(),
            character: None,
            scripts_dir: "./scripts".to_owned(),
            db_path: "revenant.db".to_owned(),
            map_path: None,
            monitor: false,
            without_frontend: false,
            detachable_client_port: None,
            detachable_client_host: "127.0.0.1".to_owned(),
            reconnect: false,
            reconnect_delay: 30,
            session: None,
            frontend: String::new(),
            custom_launch: None,
            custom_launch_dir: None,
        }
    }
}

} // verus!

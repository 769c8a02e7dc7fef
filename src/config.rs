use vstd::prelude::*;

verus! {

/// Settings given on the command line or in a configuration file; each one
/// that is present overrides the current configuration.
#[derive(Clone, Debug)]
pub struct Args {
    pub address: Option<String>,
    pub port: Option<u16>,
    pub max_timeout: Option<u8>,
    pub config_file: Option<String>,
    pub mongo_user: Option<String>,
    pub mongo_password: Option<String>,
    pub mongo_host: Option<String>,
    pub mongo_database: Option<String>,
    pub mongo_collection: Option<String>,
}

/// Process-wide settings, read-only once the server runs.
#[derive(Clone, Debug)]
pub struct Config {
    pub address: String,
    pub port: u16,
    /// Ceiling, in seconds, of any delay a client can ask for.
    pub max_timeout: u8,
    pub config_file: String,
    pub mongo_user: Option<String>,
    pub mongo_password: Option<String>,
    pub mongo_host: Option<String>,
    pub mongo_database: Option<String>,
    pub mongo_collection: Option<String>,
}

/// The value of an optional setting, seen as characters.
pub open spec fn opt_view(o: Option<String>) -> Option<Seq<char>> {
    match o {
        Some(s) => Some(s@),
        None => None,
    }
}

impl Config {
    /// Audit records are written only when every audit-store setting is present.
    pub open spec fn audit_enabled(&self) -> bool {
        &&& self.mongo_user is Some
        &&& self.mongo_password is Some
        &&& self.mongo_host is Some
        &&& self.mongo_database is Some
        &&& self.mongo_collection is Some
    }

    /// The defaults: `localhost:7878`, a ceiling of 60 seconds, the
    /// configuration file `/etc/busyapi.conf`, and no audit store.
    pub fn new() -> (c: Config)
        ensures
            c.address@ == "localhost"@,
            c.port == 7878,
            c.max_timeout == 60,
            c.config_file@ == "/etc/busyapi.conf"@,
            c.mongo_user is None,
            c.mongo_password is None,
            c.mongo_host is None,
            c.mongo_database is None,
            c.mongo_collection is None,
            !c.audit_enabled(),
    {
        Config {
            address: String::from_str("localhost"),
            port: 7878,
            max_timeout: 60,
            config_file: String::from_str("/etc/busyapi.conf"),
            mongo_user: None,
            mongo_password: None,
            mongo_host: None,
            mongo_database: None,
            mongo_collection: None,
        }
    }

    /// Merges `args` into the configuration: the address, port and ceiling
    /// are replaced only where given; the audit-store settings are always
    /// taken from `args`, absent ones included. `config_file` is left alone.
    pub fn from_args(&mut self, args: Args)
        ensures
            final(self).address@ == (match args.address {
                Some(a) => a@,
                None => old(self).address@,
            }),
            final(self).port == (match args.port {
                Some(p) => p,
                None => old(self).port,
            }),
            final(self).max_timeout == (match args.max_timeout {
                Some(t) => t,
                None => old(self).max_timeout,
            }),
            final(self).config_file@ == old(self).config_file@,
            opt_view(final(self).mongo_user) == opt_view(args.mongo_user),
            opt_view(final(self).mongo_password) == opt_view(args.mongo_password),
            opt_view(final(self).mongo_host) == opt_view(args.mongo_host),
            opt_view(final(self).mongo_database) == opt_view(args.mongo_database),
            opt_view(final(self).mongo_collection) == opt_view(args.mongo_collection),
            final(self).audit_enabled() == (args.mongo_user is Some && args.mongo_password is Some
                && args.mongo_host is Some && args.mongo_database is Some
                && args.mongo_collection is Some),
    {
        if let Some(address) = args.address {
            self.address = address;
        }
        if let Some(port) = args.port {
            self.port = port;
        }
        if let Some(max_timeout) = args.max_timeout {
            self.max_timeout = max_timeout;
        }
        self.mongo_user = args.mongo_user;
        self.mongo_password = args.mongo_password;
        self.mongo_host = args.mongo_host;
        self.mongo_database = args.mongo_database;
        self.mongo_collection = args.mongo_collection;
    }

    /// Whether audit records are to be written.
    pub fn can_log(&self) -> (r: bool)
        ensures
            r == self.audit_enabled(),
    {
        self.mongo_user.is_some() && self.mongo_password.is_some() && self.mongo_host.is_some()
            && self.mongo_database.is_some() && self.mongo_collection.is_some()
    }
}

} // verus!

//! The configuration of the two programs: what each holds, the host's
//! defaults, where a host's configuration file lies, and how the client reads
//! its configuration from its arguments.
//!
//! An address is held as the text that stands in the file or on the command
//! line. Whether that text is a socket address is for the one who binds or
//! connects to say.

use vstd::prelude::*;
use vstd::string::StringExecFns;

verus! {

// ---------------------------------------------------------------------------
// The host
// ---------------------------------------------------------------------------

/// The configuration of a host.
#[derive(Debug, Clone, PartialEq, Eq)]
pub struct HostConfig {
    bind_address: String,
    client_name: String,
    key: String,
}

/// What a host's configuration holds.
pub struct HostConfigView {
    pub bind_address: Seq<char>,
    pub client_name: Seq<char>,
    pub key: Seq<char>,
}

impl View for HostConfig {
    type V = HostConfigView;

    closed spec fn view(&self) -> HostConfigView {
        HostConfigView {
            bind_address: self.bind_address@,
            client_name: self.client_name@,
            key: self.key@,
        }
    }
}

impl HostConfig {
    /// A configuration with the given address to bind to, name of the one
    /// client that is served, and cipher key.
    pub fn new(bind_address: String, client_name: String, key: String) -> (r: Self)
        ensures
            r@ == (HostConfigView {
                bind_address: bind_address@,
                client_name: client_name@,
                key: key@,
            }),
    {
        Self { bind_address, client_name, key }
    }

    /// Returns the address the host will bind to.
    pub fn bind_address(&self) -> (r: &str)
        ensures
            r@ == self@.bind_address,
    {
        self.bind_address.as_str()
    }

    /// Returns the client's name.
    pub fn client_name(&self) -> (r: &str)
        ensures
            r@ == self@.client_name,
    {
        self.client_name.as_str()
    }

    /// Returns the cipher key used for secure streams.
    pub fn key(&self) -> (r: &str)
        ensures
            r@ == self@.key,
    {
        self.key.as_str()
    }
}

impl Default for HostConfig {
    /// The configuration that a new file is filled with: the loopback
    /// address, a placeholder for the name and one for the key.
    fn default() -> (r: Self)
        ensures
            r@ == (HostConfigView {
                bind_address: "127.0.0.1:12700"@,
                client_name: "my-client"@,
                key: "<- Enter cipher key here ->"@,
            }),
    {
        Self {
            bind_address: String::from_str("127.0.0.1:12700"),
            client_name: String::from_str("my-client"),
            key: String::from_str("<- Enter cipher key here ->"),
        }
    }
}

/// Where the configuration with the given name lies, relative to the
/// directory of the configurations' owner: `config/<NAME>.toml`.
pub fn config_file(name: &str) -> (r: String)
    ensures
        r@ == "config/"@ + name@ + ".toml"@,
{
    let mut path = String::from_str("config/");
    path.append(name);
    path.append(".toml");
    path
}

// ---------------------------------------------------------------------------
// The client
// ---------------------------------------------------------------------------

/// The configuration of a client.
#[derive(Debug, Clone, PartialEq, Eq)]
pub struct ClientConfiguration {
    client_name: String,
    program_name: String,
    host_address: String,
    key: String,
}

/// What a client's configuration holds.
pub struct ClientConfigurationView {
    pub client_name: Seq<char>,
    pub program_name: Seq<char>,
    pub host_address: Seq<char>,
    pub key: Seq<char>,
}

impl View for ClientConfiguration {
    type V = ClientConfigurationView;

    closed spec fn view(&self) -> ClientConfigurationView {
        ClientConfigurationView {
            client_name: self.client_name@,
            program_name: self.program_name@,
            host_address: self.host_address@,
            key: self.key@,
        }
    }
}

impl ClientConfiguration {
    /// Returns this configuration as a set of command line arguments: the
    /// client name, the program name, the host's address and the key, in
    /// the order in which [`parse_arg_config`] reads them.
    pub fn to_args(&self) -> (r: [String; 4])
        ensures
            r@.len() == 4,
            r@[0]@ == self@.client_name,
            r@[1]@ == self@.program_name,
            r@[2]@ == self@.host_address,
            r@[3]@ == self@.key,
    {
        [
            self.client_name.clone(),
            self.program_name.clone(),
            self.host_address.clone(),
            self.key.clone(),
        ]
    }

    /// Returns the client name.
    pub fn client_name(&self) -> (r: &str)
        ensures
            r@ == self@.client_name,
    {
        self.client_name.as_str()
    }

    /// Returns the program name.
    ///
    /// Used in registries.
    pub fn program_name(&self) -> (r: &str)
        ensures
            r@ == self@.program_name,
    {
        self.program_name.as_str()
    }

    /// Returns the host's address.
    pub fn host_address(&self) -> (r: &str)
        ensures
            r@ == self@.host_address,
    {
        self.host_address.as_str()
    }

    /// Returns the cipher key used for secure streams.
    pub fn key(&self) -> (r: &str)
        ensures
            r@ == self@.key,
    {
        self.key.as_str()
    }

    /// Instantiates a new ClientConfiguration.
    pub fn new(client_name: String, program_name: String, host_address: String, key: String) -> (r:
        Self)
        ensures
            r@ == (ClientConfigurationView {
                client_name: client_name@,
                program_name: program_name@,
                host_address: host_address@,
                key: key@,
            }),
    {
        Self { client_name, program_name, host_address, key }
    }
}

/// What the client's arguments give, or what is wrong with them. The
/// arguments are read in order: client name, program name, host address,
/// key; what follows the key is not looked at. The first thing found wrong is
/// reported, and a host address that is no address is found before a missing
/// key.
pub open spec fn arg_config(args: Seq<Seq<char>>, host_address_is_valid: bool) -> Result<
    ClientConfigurationView,
    Seq<char>,
> {
    if args.len() < 1 {
        Err("Missing client name"@)
    } else if args.len() < 2 {
        Err("Missing program name"@)
    } else if args.len() < 3 {
        Err("Missing host address"@)
    } else if !host_address_is_valid {
        Err("Invalid host address"@)
    } else if args.len() < 4 {
        Err("Missing key"@)
    } else {
        Ok(
            ClientConfigurationView {
                client_name: args[0],
                program_name: args[1],
                host_address: args[2],
                key: args[3],
            },
        )
    }
}

/// Reads the client's configuration from its arguments, the program's own
/// name left out. `host_address_is_valid` says whether the third argument,
/// if there is one, is a socket address.
pub fn parse_arg_config(args: &Vec<String>, host_address_is_valid: bool) -> (r: Result<
    ClientConfiguration,
    &'static str,
>)
    ensures
        match arg_config(crate::wire::texts_view(args@), host_address_is_valid) {
            Ok(config) => r matches Ok(found) && found@ == config,
            Err(message) => r matches Err(found) && found@ == message,
        },
{
    if args.len() < 1 {
        return Err("Missing client name");
    }
    if args.len() < 2 {
        return Err("Missing program name");
    }
    if args.len() < 3 {
        return Err("Missing host address");
    }
    if !host_address_is_valid {
        return Err("Invalid host address");
    }
    if args.len() < 4 {
        return Err("Missing key");
    }
    Ok(
        ClientConfiguration::new(
            args[0].clone(),
            args[1].clone(),
            args[2].clone(),
            args[3].clone(),
        ),
    )
}

} // verus!

use vstd::prelude::*;

use crate::text::{decimal, decimal_reads_back, decimal_string, decimal_value, is_plain_decimal, texts};

verus! {

/// Settings of the helper: where its HTTP server listens, the token a client
/// must present, how long the queue worker rests when idle, and how OrpheusDL
/// is invoked.
#[derive(Clone, Debug)]
pub struct Config {
    /// IPv4 address of the listening socket, as its four octets.
    pub host: [u8; 4],
    pub port: u16,
    pub token: String,
    /// Seconds the queue worker sleeps when there is nothing to do.
    pub timeout: u8,
    pub debug: bool,
    /// Folder holding the OrpheusDL installation (`orpheus.py`).
    pub orpheusdl_path: String,
    /// Extra arguments appended to every OrpheusDL invocation.
    pub orpheusdl_args: Vec<String>,
}

/// The contents of a [`Config`], as mathematical values.
pub struct ConfigView {
    pub host: Seq<u8>,
    pub port: u16,
    pub token: Seq<char>,
    pub timeout: u8,
    pub debug: bool,
    pub orpheusdl_path: Seq<char>,
    pub orpheusdl_args: Seq<Seq<char>>,
}

impl View for Config {
    type V = ConfigView;

    open spec fn view(&self) -> ConfigView {
        ConfigView {
            host: self.host@,
            port: self.port,
            token: self.token@,
            timeout: self.timeout,
            debug: self.debug,
            orpheusdl_path: self.orpheusdl_path@,
            orpheusdl_args: texts(self.orpheusdl_args@),
        }
    }
}

/// Options given on the command line; each one that is present overrides the
/// value from the configuration file.
#[derive(Debug)]
pub struct CliConfig {
    pub host: Option<[u8; 4]>,
    pub port: Option<u16>,
    pub token: Option<String>,
    pub timeout: Option<u8>,
    pub orpheusdl_path: Option<String>,
    pub debug: bool,
    /// Write the merged configuration back to the configuration file.
    pub save_to_file: bool,
    /// Arguments after `--`, handed on to OrpheusDL.
    pub orpheusdl_args: Vec<String>,
}

/// The contents of a [`CliConfig`], as mathematical values.
pub struct CliConfigView {
    pub host: Option<Seq<u8>>,
    pub port: Option<u16>,
    pub token: Option<Seq<char>>,
    pub timeout: Option<u8>,
    pub orpheusdl_path: Option<Seq<char>>,
    pub debug: bool,
    pub save_to_file: bool,
    pub orpheusdl_args: Seq<Seq<char>>,
}

impl View for CliConfig {
    type V = CliConfigView;

    open spec fn view(&self) -> CliConfigView {
        CliConfigView {
            host: match self.host {
                Some(h) => Some(h@),
                None => None,
            },
            port: self.port,
            token: match self.token {
                Some(t) => Some(t@),
                None => None,
            },
            timeout: self.timeout,
            orpheusdl_path: match self.orpheusdl_path {
                Some(p) => Some(p@),
                None => None,
            },
            debug: self.debug,
            save_to_file: self.save_to_file,
            orpheusdl_args: texts(self.orpheusdl_args@),
        }
    }
}

/// The configuration written when no configuration file exists yet.
pub open spec fn default_config() -> ConfigView {
    ConfigView {
        host: seq![127u8, 0u8, 0u8, 1u8],
        port: 9221,
        token: "change_me"@,
        timeout: 1,
        debug: false,
        orpheusdl_path: "change_me"@,
        orpheusdl_args: Seq::empty(),
    }
}

/// `value` when it is present, `fallback` otherwise.
pub open spec fn or_else<T>(value: Option<T>, fallback: T) -> T {
    match value {
        Some(v) => v,
        None => fallback,
    }
}

/// The configuration in force when `args` are given on the command line and
/// `base` was read from the configuration file: every option present on the
/// command line wins; `debug` and the OrpheusDL arguments come from the
/// command line alone.
pub open spec fn merge(args: CliConfigView, base: ConfigView) -> ConfigView {
    ConfigView {
        host: or_else(args.host, base.host),
        port: or_else(args.port, base.port),
        token: or_else(args.token, base.token),
        timeout: or_else(args.timeout, base.timeout),
        debug: args.debug,
        orpheusdl_path: or_else(args.orpheusdl_path, base.orpheusdl_path),
        orpheusdl_args: args.orpheusdl_args,
    }
}

/// `host:port`, the host in dotted decimal notation.
pub open spec fn address_text(host: Seq<u8>, port: u16) -> Seq<char> {
    decimal(host[0] as nat) + seq!['.'] + decimal(host[1] as nat) + seq!['.'] + decimal(
        host[2] as nat,
    ) + seq!['.'] + decimal(host[3] as nat) + seq![':'] + decimal(port as nat)
}

impl Config {
    /// The configuration written to a fresh configuration file.
    pub fn defaults() -> (c: Config)
        ensures
            c@ == default_config(),
    {
        let c = Config {
            host: [127, 0, 0, 1],
            port: 9221,
            token: String::from_str("change_me"),
            timeout: 1,
            debug: false,
            orpheusdl_path: String::from_str("change_me"),
            orpheusdl_args: Vec::new(),
        };
        assert(c@.host =~= seq![127u8, 0u8, 0u8, 1u8]);
        assert(c@.orpheusdl_args =~= Seq::<Seq<char>>::empty());
        c
    }

    /// Combines the command line with the configuration read from file.
    pub fn merged(args: CliConfig, base: Config) -> (c: Config)
        ensures
            c@ == merge(args@, base@),
    {
        Config {
            host: match args.host {
                Some(h) => h,
                None => base.host,
            },
            port: match args.port {
                Some(p) => p,
                None => base.port,
            },
            token: match args.token {
                Some(t) => t,
                None => base.token,
            },
            timeout: match args.timeout {
                Some(t) => t,
                None => base.timeout,
            },
            debug: args.debug,
            orpheusdl_path: match args.orpheusdl_path {
                Some(p) => p,
                None => base.orpheusdl_path,
            },
            orpheusdl_args: args.orpheusdl_args,
        }
    }

    /// The socket address the server listens on, written `a.b.c.d:port`.
    pub fn listen_address(&self) -> (s: String)
        ensures
            s@ == address_text(self.host@, self.port),
    {
        let mut s = decimal_string(self.host[0] as u64);
        s.append(".");
        let part = decimal_string(self.host[1] as u64);
        s.append(part.as_str());
        s.append(".");
        let part = decimal_string(self.host[2] as u64);
        s.append(part.as_str());
        s.append(".");
        let part = decimal_string(self.host[3] as u64);
        s.append(part.as_str());
        s.append(":");
        let part = decimal_string(self.port as u64);
        s.append(part.as_str());
        proof {
            reveal_strlit(".");
            reveal_strlit(":");
        }
        s
    }
}

/// Saving the merged configuration and starting again with the same command
/// line yields the same configuration: merging is idempotent.
pub proof fn merge_is_stable(args: CliConfigView, base: ConfigView)
    ensures
        merge(args, merge(args, base)) == merge(args, base),
{
}

/// With no option on the command line, the configuration file decides
/// everything but `debug` and the OrpheusDL arguments.
pub proof fn file_decides_absent_options(args: CliConfigView, base: ConfigView)
    requires
        args.host is None,
        args.port is None,
        args.token is None,
        args.timeout is None,
        args.orpheusdl_path is None,
    ensures
        merge(args, base) == (ConfigView {
            debug: args.debug,
            orpheusdl_args: args.orpheusdl_args,
            ..base
        }),
{
}

/// Each option given on the command line wins, independently of the others;
/// an option left out keeps the file's value; `debug` and the OrpheusDL
/// arguments are the command line's.
pub proof fn each_given_option_wins(args: CliConfigView, base: ConfigView)
    ensures
        ({
            let c = merge(args, base);
            &&& c.host == (match args.host {
                Some(h) => h,
                None => base.host,
            })
            &&& c.port == (match args.port {
                Some(p) => p,
                None => base.port,
            })
            &&& c.token == (match args.token {
                Some(t) => t,
                None => base.token,
            })
            &&& c.timeout == (match args.timeout {
                Some(t) => t,
                None => base.timeout,
            })
            &&& c.orpheusdl_path == (match args.orpheusdl_path {
                Some(p) => p,
                None => base.orpheusdl_path,
            })
            &&& c.debug == args.debug
            &&& c.orpheusdl_args == args.orpheusdl_args
        }),
{
}

/// Whether `t` is `a0.a1.a2.a3:ap`.
pub open spec fn splits_as_address(
    t: Seq<char>,
    a0: Seq<char>,
    a1: Seq<char>,
    a2: Seq<char>,
    a3: Seq<char>,
    ap: Seq<char>,
) -> bool {
    t == a0 + seq!['.'] + a1 + seq!['.'] + a2 + seq!['.'] + a3 + seq![':'] + ap
}

/// The listen address reads back as the host and port it was written from:
/// four numbers in plain decimal separated by `.`, then `:` and the port in
/// plain decimal, each reading as the octet or port it stands for.
pub proof fn listen_address_reads_back(host: Seq<u8>, port: u16)
    requires
        host.len() == 4,
    ensures
        exists|a0: Seq<char>, a1: Seq<char>, a2: Seq<char>, a3: Seq<char>, ap: Seq<char>|
            {
                &&& #[trigger] splits_as_address(address_text(host, port), a0, a1, a2, a3, ap)
                &&& is_plain_decimal(a0) && decimal_value(a0) == host[0]
                &&& is_plain_decimal(a1) && decimal_value(a1) == host[1]
                &&& is_plain_decimal(a2) && decimal_value(a2) == host[2]
                &&& is_plain_decimal(a3) && decimal_value(a3) == host[3]
                &&& is_plain_decimal(ap) && decimal_value(ap) == port
            },
{
    decimal_reads_back(host[0] as nat);
    decimal_reads_back(host[1] as nat);
    decimal_reads_back(host[2] as nat);
    decimal_reads_back(host[3] as nat);
    decimal_reads_back(port as nat);
    assert(splits_as_address(
        address_text(host, port),
        decimal(host[0] as nat),
        decimal(host[1] as nat),
        decimal(host[2] as nat),
        decimal(host[3] as nat),
        decimal(port as nat),
    ));
}

} // verus!

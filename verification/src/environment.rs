//! Settings of a run.

use vstd::prelude::*;

verus! {

/// The settings that a run reads once, before any entry is processed.
#[derive(Clone, Debug)]
pub struct Environment {
    pub debug: bool,
    pub postgres_database: String,
    pub postgres_host: String,
    pub postgres_user: String,
    pub postgres_password: String,
    pub postgres_port: u16,
    pub api_key: String,
}

/// The port that a text stands for, where it is a decimal number that a
/// port can hold.
pub uninterp spec fn port_of(text: Seq<char>) -> Option<u16>;

/// Trusted: `str::parse` for `u16`. The result depends on the text alone;
/// a text that stands for no such number gives `None`.
#[verifier::external_body]
fn parse_port(text: &str) -> (port: Option<u16>)
    ensures
        port == port_of(text@),
{
    text.parse::<u16>().ok()
}

impl Environment {
    /// The settings that the given texts stand for; `None` where the port
    /// is no port number.
    pub fn new(
        debug: &str,
        postgres_database: String,
        postgres_host: String,
        postgres_user: String,
        postgres_password: String,
        postgres_port: &str,
        api_key: String,
    ) -> (result: Option<Environment>)
        ensures
            result is Some <==> port_of(postgres_port@) is Some,
            result is Some ==> result.unwrap() == (Environment {
                debug: debug@ != "false"@,
                postgres_database,
                postgres_host,
                postgres_user,
                postgres_password,
                postgres_port: port_of(postgres_port@).unwrap(),
                api_key,
            }),
    {
        Self::with_port(
            debug,
            postgres_database,
            postgres_host,
            postgres_user,
            postgres_password,
            parse_port(postgres_port),
            api_key,
        )
    }

    /// The settings with a port that was read already; `None` where there
    /// is no port.
    pub fn with_port(
        debug: &str,
        postgres_database: String,
        postgres_host: String,
        postgres_user: String,
        postgres_password: String,
        postgres_port: Option<u16>,
        api_key: String,
    ) -> (result: Option<Environment>)
        ensures
            result is Some <==> postgres_port is Some,
            result is Some ==> result.unwrap() == (Environment {
                debug: debug@ != "false"@,
                postgres_database,
                postgres_host,
                postgres_user,
                postgres_password,
                postgres_port: postgres_port.unwrap(),
                api_key,
            }),
    {
        match postgres_port {
            Some(port) => Some(
                Environment {
                    debug: Self::debug_flag(debug),
                    postgres_database,
                    postgres_host,
                    postgres_user,
                    postgres_password,
                    postgres_port: port,
                    api_key,
                },
            ),
            None => None,
        }
    }

    /// The debug setting that a text stands for: on, unless the text is
    /// exactly `false`.
    pub fn debug_flag(text: &str) -> (debug: bool)
        ensures
            debug == (text@ != "false"@),
    {
        let given: String = text.to_owned();
        let off: String = "false".to_owned();
        !(given == off)
    }
}

} // verus!

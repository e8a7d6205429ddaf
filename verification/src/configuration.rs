//! The configuration that the simulator starts with, made from the values of
//! its arguments.

use crate::decimal::{parse_u16, parse_unsigned};
use vstd::prelude::*;

verus! {

/// What the simulator starts with: the name under which it connects, the
/// broker's host and port, the token that it shows, and one label for each
/// temperature sensor.
#[derive(Debug, Clone)]
pub struct Config {
    pub name: String,
    pub hostname: String,
    pub port: u16,
    pub secret_token: String,
    pub temperatures: Vec<String>,
}

/// The values of the arguments as they were given, each absent where it was
/// not.
#[derive(Debug)]
pub struct Arguments {
    pub name: Option<String>,
    pub hostname: Option<String>,
    pub port: Option<String>,
    pub secret_token: Option<String>,
    pub temperatures: Option<Vec<String>>,
}

impl Arguments {
    /// Whether a configuration can be made of these values: each is given, and
    /// the port is an unsigned decimal number of 16 bits.
    pub open spec fn complete(&self) -> bool {
        &&& self.name is Some
        &&& self.hostname is Some
        &&& self.port is Some
        &&& parse_unsigned(self.port->0@, u16::MAX as nat) is Some
        &&& self.secret_token is Some
        &&& self.temperatures is Some
    }

    /// Tells whether a configuration can be made of these values.
    pub fn is_complete(&self) -> (r: bool)
        ensures
            r == self.complete(),
    {
        let port_is_number = match &self.port {
            Some(port) => parse_u16(port.as_str()).is_some(),
            None => false,
        };
        self.name.is_some() && self.hostname.is_some() && port_is_number
            && self.secret_token.is_some() && self.temperatures.is_some()
    }
}

/// The configuration that the given values make: each value as it was given,
/// the port as the number that its text denotes.
pub fn parse_config(args: Arguments) -> (r: Result<Config, String>)
    requires
        args.complete(),
    ensures
        r matches Ok(config) && {
            &&& config.name == args.name->0
            &&& config.hostname == args.hostname->0
            &&& parse_unsigned(args.port->0@, u16::MAX as nat) == Some(config.port as nat)
            &&& config.secret_token == args.secret_token->0
            &&& config.temperatures == args.temperatures->0
        },
{
    let port = parse_u16(args.port.unwrap().as_str()).unwrap();
    Ok(
        Config {
            name: args.name.unwrap(),
            hostname: args.hostname.unwrap(),
            port,
            secret_token: args.secret_token.unwrap(),
            temperatures: args.temperatures.unwrap(),
        },
    )
}

} // verus!

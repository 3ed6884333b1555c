//! Asking for the public address of the machine.
use vstd::prelude::*;
use crate::command;
use crate::command::CommandOutput;
use crate::data::Data;
use crate::text;

verus! {

/// A version of the internet protocol.
#[derive(Clone, Copy, Debug, PartialEq, Eq, Structural)]
pub enum IpVersion {
    V4,
    V6,
}

/// The flag by which `curl` is held to a version of the protocol.
pub open spec fn ip_flag(version: IpVersion) -> Seq<char> {
    match version {
        IpVersion::V4 => "-4"@,
        IpVersion::V6 => "-6"@,
    }
}

/// The arguments of `curl` that ask for the public address.
pub open spec fn curl_arguments(version: IpVersion) -> Seq<Seq<char>> {
    seq![ip_flag(version), "-sf"@, "--max-time"@, "5"@, "https://icanhazip.com"@]
}

/// The address in an answer: all of it but the white space around it, if that leaves anything.
pub open spec fn address_in(answer: Seq<char>) -> Option<Seq<char>> {
    if text::trimmed(answer).len() > 0 {
        Some(text::trimmed(answer))
    } else {
        None
    }
}

/// The address that the output of a command holds.
pub open spec fn fetched(output: Option<CommandOutput>) -> Option<Seq<char>> {
    match command::written(output) {
        Some(bytes) => address_in(text::utf8_lossy(bytes)),
        None => None,
    }
}

/// The text of an optional string.
pub open spec fn text_of(string: Option<String>) -> Option<Seq<char>> {
    match string {
        Some(s) => Some(s@),
        None => None,
    }
}

/// Reads the address out of an answer.
pub fn read_address(answer: &str) -> (address: Option<String>)
    ensures
        text_of(address) == address_in(answer@),
{
    let address = text::trim(answer);
    if address.is_empty() {
        None
    } else {
        Some(address.to_owned())
    }
}

impl<T: Copy> Data<T> {
    /// The arguments to run `curl` with.
    pub fn public_ip_arguments(version: IpVersion) -> (arguments: Vec<&'static str>)
        ensures
            arguments@.map_values(|a: &'static str| a@) == curl_arguments(version),
    {
        let flag = match version {
            IpVersion::V4 => "-4",
            IpVersion::V6 => "-6",
        };
        let arguments = vec![flag, "-sf", "--max-time", "5", "https://icanhazip.com"];
        assert(arguments@.map_values(|a: &'static str| a@) =~= curl_arguments(version));
        arguments
    }

    /// The public address, by the output of `curl`.
    pub fn fetch_public_ip(output: &Option<CommandOutput>) -> (address: Option<String>)
        ensures
            text_of(address) == fetched(*output),
    {
        match output {
            Some(done) => {
                if !done.success {
                    return None;
                }
                let answer = text::from_utf8_lossy(done.stdout.as_slice());
                read_address(answer.as_str())
            },
            None => None,
        }
    }
}

} // verus!

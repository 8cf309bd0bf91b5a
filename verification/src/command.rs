//! The command names a message header can carry.

use vstd::prelude::*;

use vstd::slice::slice_to_vec;
use vstd::string::StringSliceAdditionalSpecFns;

use crate::errors::BitcoinMessageError;

verus! {

/// Enum corresponding to the `command_name` from a message header.
#[derive(Debug, Clone, Copy, PartialEq, Eq, Structural)]
pub enum Command {
    /// `version` command_name
    Version,
    /// `verack` command_name
    VerAck,
}

impl Command {
    /// The characters of this command's wire name.
    pub open spec fn name(self) -> Seq<char> {
        match self {
            Command::Version => "version"@,
            Command::VerAck => "verack"@,
        }
    }

    /// The bytes of this command's wire name.
    pub open spec fn name_bytes(self) -> Seq<u8> {
        match self {
            Command::Version => "version".spec_bytes(),
            Command::VerAck => "verack".spec_bytes(),
        }
    }

    /// The command's wire name.
    pub fn to_string(&self) -> (r: String)
        ensures
            r@ == self.name(),
    {
        match self {
            Command::Version => "version".to_owned(),
            Command::VerAck => "verack".to_owned(),
        }
    }

    /// Converts [`Command`] into a byte vector.
    pub fn to_bytes(&self) -> (r: Vec<u8>)
        ensures
            r@ == self.name_bytes(),
    {
        match self {
            Command::Version => slice_to_vec("version".as_bytes()),
            Command::VerAck => slice_to_vec("verack".as_bytes()),
        }
    }

    /// The command a wire name denotes; an unknown name is reported back
    /// with the offending text.
    pub fn try_from(value: &str) -> (r: Result<Command, BitcoinMessageError>)
        ensures
            value@ == "version"@ ==> r == Ok::<Command, BitcoinMessageError>(Command::Version),
            value@ == "verack"@ ==> r == Ok::<Command, BitcoinMessageError>(Command::VerAck),
            value@ != "version"@ && value@ != "verack"@ ==> (r matches Err(
                BitcoinMessageError::CommandNameUnknown(s),
            ) && s@ == value@),
    {
        proof {
            reveal_strlit("version");
            reveal_strlit("verack");
            assert("version"@.len() == 7);
            assert("verack"@.len() == 6);
            assert("version"@ != "verack"@);
        }
        let v = value.to_owned();
        if v == "version".to_owned() {
            Ok(Command::Version)
        } else if v == "verack".to_owned() {
            Ok(Command::VerAck)
        } else {
            Err(BitcoinMessageError::CommandNameUnknown(v))
        }
    }
}

} // verus!

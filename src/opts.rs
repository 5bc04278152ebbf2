//! The option flags that the command line accepts.
use vstd::prelude::*;

verus! {

/// Used to define a new option flag.
pub struct Option<'a> {
    /// A short option (used with `-`).
    pub short: &'a str,
    /// A long option (used with `--`).
    pub long: &'a str,
    /// A brief description.
    pub description: &'a str,
}

/// The 'decrypt' option flag.
pub fn decrypt_flag() -> (r: Option<'static>)
    ensures
        r.short@ == "d"@,
        r.long@ == "decrypt"@,
        r.description@ == "Decrypt the file with the key"@,
{
    Option { short: "d", long: "decrypt", description: "Decrypt the file with the key" }
}

/// The 'encrypt' option flag.
pub fn encrypt_flag() -> (r: Option<'static>)
    ensures
        r.short@ == "e"@,
        r.long@ == "encrypt"@,
        r.description@ == "Encrypt the file with a random key"@,
{
    Option { short: "e", long: "encrypt", description: "Encrypt the file with a random key" }
}

/// The 'help' option flag.
pub fn help_flag() -> (r: Option<'static>)
    ensures
        r.short@ == "h"@,
        r.long@ == "help"@,
        r.description@ == "Output this message"@,
{
    Option { short: "h", long: "help", description: "Output this message" }
}

/// The 'version' option flag.
pub fn version_flag() -> (r: Option<'static>)
    ensures
        r.short@ == "V"@,
        r.long@ == "version"@,
        r.description@ == "Output version information"@,
{
    Option { short: "V", long: "version", description: "Output version information" }
}

} // verus!

//! What the program does with its options: validate them, and decide on the
//! one action to take.
use vstd::prelude::*;
use crate::naming::{cipher_path, key_path, plain_path, lock_ext, key_ext, strip_lock};
use crate::status::{EUSAGE, EIO, MARGS, MCONFLICT};

verus! {

/// The options that the program was started with.
pub struct Options {
    /// Encrypt the file with a random key.
    pub encrypt: bool,
    /// Decrypt the file with a key.
    pub decrypt: bool,
    /// Show the help message.
    pub help: bool,
    /// Show the version.
    pub version: bool,
    /// The files to be read: the source, or the ciphertext and then the key.
    pub files: Vec<String>,
}

/// Why a run did not succeed.
#[derive(Debug, Clone)]
pub enum Error {
    /// Both encryption and decryption were asked for.
    Conflict,
    /// Fewer files were given than the operation reads.
    Length,
    /// Reading or writing a file failed; the text describes the cause.
    Io(String),
}

impl Error {
    /// The exit code that reports this error: usage errors and I/O errors
    /// are told apart.
    pub fn exit_code(&self) -> (r: i32)
        ensures
            r == match self {
                Error::Io(_) => EIO,
                _ => EUSAGE,
            },
    {
        match self {
            Error::Io(_) => EIO,
            _ => EUSAGE,
        }
    }

    /// A one-line description of this error.
    pub fn message(&self) -> (r: String)
        ensures
            r@ == error_text(*self),
    {
        match self {
            Error::Conflict => MCONFLICT.to_owned(),
            Error::Length => MARGS.to_owned(),
            Error::Io(cause) => cause.clone(),
        }
    }
}

/// The text that describes an error.
pub open spec fn error_text(e: Error) -> Seq<char> {
    match e {
        Error::Conflict => MCONFLICT@,
        Error::Length => MARGS@,
        Error::Io(cause) => cause@,
    }
}

/// What the program is to do, as decided from its options.
pub enum Action {
    /// Write the help message.
    Help,
    /// Write the version.
    Version,
    /// Encrypt `source`, writing the ciphertext to `cipher` and the key to `key`.
    Encrypt { source: String, cipher: String, key: String },
    /// Decrypt `cipher` with `key`, writing the plaintext to `output`.
    Decrypt { cipher: String, key: String, output: String },
    /// Nothing was asked for.
    Nothing,
}

/// How many files the chosen operation reads.
pub open spec fn files_needed(o: Options) -> nat {
    if o.encrypt {
        1
    } else {
        2
    }
}

/// The outcome of validating `o`.
pub open spec fn validation(o: Options) -> Result<(), Error> {
    if o.encrypt && o.decrypt {
        Err(Error::Conflict)
    } else if o.files@.len() < files_needed(o) {
        Err(Error::Length)
    } else {
        Ok(())
    }
}

/// This program: its options, from which each run decides what to do.
pub struct Otp {
    options: Options,
}

impl Otp {
    /// The program with the given options.
    pub fn new(options: Options) -> (r: Otp)
        ensures
            r.options() == options,
    {
        Otp { options }
    }

    /// The options of this program.
    pub closed spec fn options(self) -> Options {
        self.options
    }

    /// Validates the options: encryption and decryption exclude each other,
    /// encryption reads one file and everything else two.
    pub fn validate(&self) -> (r: Result<(), Error>)
        ensures
            r == validation(self.options()),
    {
        let len: usize = if self.options.encrypt { 1 } else { 2 };
        if self.options.encrypt && self.options.decrypt {
            Err(Error::Conflict)
        } else if self.options.files.len() < len {
            Err(Error::Length)
        } else {
            Ok(())
        }
    }

    /// Decides what this run does. Help and then version come first, before
    /// any validation; otherwise the options are validated and encryption or
    /// decryption is chosen, with the names of the artifacts it writes.
    pub fn run(&self) -> (r: Result<Action, Error>)
        ensures
            self.options().help ==> r is Ok && r->Ok_0 is Help,
            !self.options().help && self.options().version ==> r is Ok && r->Ok_0 is Version,
            !self.options().help && !self.options().version && validation(self.options()) is Err
                ==> r == Err::<Action, Error>(validation(self.options())->Err_0),
            !self.options().help && !self.options().version && validation(self.options()) is Ok
                && self.options().encrypt ==> (r matches Ok(Action::Encrypt { source, cipher, key })
                && source@ == self.options().files@[0]@
                && cipher@ == self.options().files@[0]@ + lock_ext()
                && key@ == self.options().files@[0]@ + key_ext()),
            !self.options().help && !self.options().version && validation(self.options()) is Ok
                && self.options().decrypt ==> (r matches Ok(Action::Decrypt { cipher, key, output })
                && cipher@ == self.options().files@[0]@
                && key@ == self.options().files@[1]@
                && output@ == strip_lock(self.options().files@[0]@)),
            !self.options().help && !self.options().version && validation(self.options()) is Ok
                && !self.options().encrypt && !self.options().decrypt ==> (r matches Ok(Action::Nothing)),
    {
        if self.options.help {
            return Ok(Action::Help);
        }
        if self.options.version {
            return Ok(Action::Version);
        }
        match self.validate() {
            Err(e) => Err(e),
            Ok(()) => {
                if self.options.encrypt {
                    let src = self.options.files[0].as_str();
                    Ok(
                        Action::Encrypt {
                            source: src.to_owned(),
                            cipher: cipher_path(src),
                            key: key_path(src),
                        },
                    )
                } else if self.options.decrypt {
                    let src = self.options.files[0].as_str();
                    let key = self.options.files[1].as_str();
                    Ok(
                        Action::Decrypt {
                            cipher: src.to_owned(),
                            key: key.to_owned(),
                            output: plain_path(src),
                        },
                    )
                } else {
                    Ok(Action::Nothing)
                }
            },
        }
    }
}

} // verus!

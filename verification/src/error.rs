use vstd::prelude::*;

verus! {

/// Why the greeting registry rejects a call.
///
/// A second `initialize` is reported as `NoInicializado` too: the registry
/// has one code for "the initialization state does not allow this call".
#[derive(Clone, Copy, Debug, PartialEq, Eq, Structural)]
pub enum Error {
    /// The greeting text is empty.
    NombreVacio,
    /// The greeting text is longer than the character limit allows.
    NombreMuyLargo,
    /// The caller is not the administrator.
    NoAutorizado,
    /// No administrator is recorded yet, or `initialize` found one already.
    NoInicializado,
}

impl Error {
    /// The numeric code under which the rejection travels.
    pub open spec fn spec_code(self) -> u32 {
        match self {
            Error::NombreVacio => 1,
            Error::NombreMuyLargo => 2,
            Error::NoAutorizado => 3,
            Error::NoInicializado => 4,
        }
    }

    /// The numeric code under which the rejection travels.
    #[verifier::when_used_as_spec(spec_code)]
    pub fn code(self) -> (c: u32)
        ensures
            c == self.spec_code(),
    {
        match self {
            Error::NombreVacio => 1,
            Error::NombreMuyLargo => 2,
            Error::NoAutorizado => 3,
            Error::NoInicializado => 4,
        }
    }

    /// The rejection that travels under `code`, if there is one.
    pub fn from_code(code: u32) -> (e: Option<Error>)
        ensures
            match e {
                Some(err) => err.spec_code() == code,
                None => code < 1 || code > 4,
            },
    {
        if code == 1 {
            Some(Error::NombreVacio)
        } else if code == 2 {
            Some(Error::NombreMuyLargo)
        } else if code == 3 {
            Some(Error::NoAutorizado)
        } else if code == 4 {
            Some(Error::NoInicializado)
        } else {
            None
        }
    }
}

} // verus!

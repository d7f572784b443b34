use vstd::prelude::*;

verus! {

/// The failures that the library's own logic can report.  Errors of the
/// engine itself (rejected imports, keyserver failures) are surfaced by the
/// caller that talks to the engine.
#[derive(Clone, Copy, Debug, PartialEq, Eq, Structural)]
pub enum GpgError {
    /// The engine could not report a default home directory and none was
    /// supplied by the caller.
    HomeDirNotFound,
    /// The engine reported no information for the OpenPGP protocol.
    EngineInfoNotFound,
    /// The output file template could not be rendered: an unknown or
    /// unclosed placeholder.
    TemplateError,
    /// An export produced no bytes.
    NothingExported,
    /// No key matches the given identifier.
    KeyNotFound,
}

/// The human-readable message of an error kind.
pub open spec fn spec_error_message(e: GpgError) -> Seq<char> {
    match e {
        GpgError::HomeDirNotFound => "failed to get homedir"@,
        GpgError::EngineInfoNotFound => "failed to get engine information"@,
        GpgError::TemplateError => "failed to render the output file template"@,
        GpgError::NothingExported => "nothing exported"@,
        GpgError::KeyNotFound => "key not found"@,
    }
}

impl GpgError {
    /// Renders the error for presentation by the caller.
    pub fn message(&self) -> (r: String)
        ensures
            r@ == spec_error_message(*self),
    {
        match self {
            GpgError::HomeDirNotFound => String::from_str("failed to get homedir"),
            GpgError::EngineInfoNotFound => String::from_str("failed to get engine information"),
            GpgError::TemplateError => String::from_str("failed to render the output file template"),
            GpgError::NothingExported => String::from_str("nothing exported"),
            GpgError::KeyNotFound => String::from_str("key not found"),
        }
    }
}

} // verus!

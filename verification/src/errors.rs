use vstd::prelude::*;
use vstd::string::StringExecFns;

verus! {

/// The failure conditions the tool reports, each carrying a
/// human-readable message.
#[derive(Debug, Clone)]
pub enum Error {
    IOError(String),
    SerializationError(String),
    DeserializationError(String),
    CratesIOError(String),
    CurlError(String),
    TomlError(String),
}

impl Error {
    /// The name of the variant, as it is shown to the user.
    pub open spec fn variant_name(self) -> Seq<char> {
        match self {
            Error::IOError(_) => "IOError"@,
            Error::SerializationError(_) => "SerializationError"@,
            Error::DeserializationError(_) => "DeserializationError"@,
            Error::CratesIOError(_) => "CratesIOError"@,
            Error::CurlError(_) => "CurlError"@,
            Error::TomlError(_) => "TomlError"@,
        }
    }

    /// The message the variant carries.
    pub open spec fn message_view(self) -> Seq<char> {
        match self {
            Error::IOError(m) => m@,
            Error::SerializationError(m) => m@,
            Error::DeserializationError(m) => m@,
            Error::CratesIOError(m) => m@,
            Error::CurlError(m) => m@,
            Error::TomlError(m) => m@,
        }
    }

    pub fn variant(&self) -> (r: String)
        ensures
            r@ == self.variant_name(),
    {
        match self {
            Error::IOError(_) => "IOError".to_owned(),
            Error::SerializationError(_) => "SerializationError".to_owned(),
            Error::DeserializationError(_) => "DeserializationError".to_owned(),
            Error::CratesIOError(_) => "CratesIOError".to_owned(),
            Error::CurlError(_) => "CurlError".to_owned(),
            Error::TomlError(_) => "TomlError".to_owned(),
        }
    }

    /// The message the variant carries.
    pub fn message(&self) -> (r: &String)
        ensures
            r@ == self.message_view(),
    {
        match self {
            Error::IOError(m) => m,
            Error::SerializationError(m) => m,
            Error::DeserializationError(m) => m,
            Error::CratesIOError(m) => m,
            Error::CurlError(m) => m,
            Error::TomlError(m) => m,
        }
    }

    /// The full line the tool prints for an error: the variant's name, a
    /// separating colon, and the carried message.
    pub fn render(&self) -> (r: String)
        ensures
            r@ == self.variant_name() + ": "@ + self.message_view(),
    {
        let mut line = self.variant();
        line.append(": ");
        line.append(self.message().as_str());
        line
    }
}

} // verus!

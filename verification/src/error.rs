//! The failures that can stop an application before its first widget exists.

use vstd::prelude::*;

verus! {

/// `std::io::Error`, carried through as it came: nothing inside it is visible
/// to the verifier.
#[verifier::external_type_specification]
#[verifier::external_body]
pub struct ExIoError(std::io::Error);

/// Why start-up was abandoned. Both kinds are fatal; neither is retried.
#[derive(Debug)]
pub enum Error {
    /// The toolkit could not be initialised.
    GtkInit,
    /// The reactor could not be built; the underlying I/O failure is kept.
    Io(std::io::Error),
}

/// The text shown for an error, given the wording of the underlying I/O
/// failure where there is one.
pub open spec fn rendered(detail: Option<Seq<char>>) -> Seq<char> {
    match detail {
        None => "Cannot init GTK+"@,
        Some(d) => "IO error: "@ + d,
    }
}

/// The short description of an error, given the description of the
/// underlying I/O failure where there is one.
pub open spec fn described(detail: Option<Seq<char>>) -> Seq<char> {
    match detail {
        None => "Cannot init GTK+"@,
        Some(d) => d,
    }
}

/// Calls the `Display` implementation of `std::io::Error`. The wording comes
/// from the operating system or from whoever made the error, so nothing is
/// claimed of it.
#[verifier::external_body]
fn io_display(error: &std::io::Error) -> (text: String) {
    format!("{}", error)
}

/// Calls `std::error::Error::description` on a `std::io::Error`. Nothing is
/// claimed of the text.
#[verifier::external_body]
#[allow(deprecated)]
fn io_description(error: &std::io::Error) -> (text: &str) {
    std::error::Error::description(error)
}

impl Error {
    /// Builds the display text from the wording of the I/O failure, or the
    /// fixed text for a toolkit failure where there is none.
    pub fn render(detail: Option<&str>) -> (text: String)
        ensures
            text@ == rendered(
                match detail {
                    None => None,
                    Some(d) => Some(d@),
                },
            ),
    {
        match detail {
            None => String::from_str("Cannot init GTK+"),
            Some(d) => String::from_str("IO error: ").concat(d),
        }
    }

    /// Builds the short description from that of the I/O failure, or the
    /// fixed text for a toolkit failure where there is none.
    pub fn describe<'a>(detail: Option<&'a str>) -> (text: &'a str)
        ensures
            text@ == described(
                match detail {
                    None => None,
                    Some(d) => Some(d@),
                },
            ),
    {
        match detail {
            None => "Cannot init GTK+",
            Some(d) => d,
        }
    }

    /// The text to show for this error: a fixed sentence for a toolkit
    /// failure, and `IO error: ` followed by the I/O failure's own wording
    /// otherwise.
    pub fn message(&self) -> (text: String)
        ensures
            self is GtkInit ==> text@ == rendered(None),
            self is Io ==> exists|d: Seq<char>| text@ == #[trigger] rendered(Some(d)),
    {
        match self {
            Error::GtkInit => Error::render(None),
            Error::Io(error) => {
                let detail = io_display(error);
                Error::render(Some(detail.as_str()))
            },
        }
    }

    /// A short description: the fixed sentence for a toolkit failure, the
    /// I/O failure's own description otherwise.
    pub fn description(&self) -> (text: &str)
        ensures
            self is GtkInit ==> text@ == described(None),
    {
        match self {
            Error::GtkInit => Error::describe(None),
            Error::Io(error) => Error::describe(Some(io_description(error))),
        }
    }

    /// The failure underneath this one: the I/O error where there is one.
    pub fn cause(&self) -> (inner: Option<&std::io::Error>)
        ensures
            inner == match *self {
                Error::GtkInit => None::<&std::io::Error>,
                Error::Io(error) => Some(&error),
            },
    {
        match self {
            Error::GtkInit => None,
            Error::Io(error) => Some(error),
        }
    }
}

impl From<std::io::Error> for Error {
    fn from(error: std::io::Error) -> (wrapped: Error) {
        Error::Io(error)
    }
}

impl vstd::std_specs::convert::FromSpecImpl<std::io::Error> for Error {
    open spec fn obeys_from_spec() -> bool {
        true
    }

    open spec fn from_spec(error: std::io::Error) -> Error {
        Error::Io(error)
    }
}

impl From<()> for Error {
    fn from(unit: ()) -> (failure: Error) {
        Error::GtkInit
    }
}

impl vstd::std_specs::convert::FromSpecImpl<()> for Error {
    open spec fn obeys_from_spec() -> bool {
        true
    }

    open spec fn from_spec(unit: ()) -> Error {
        Error::GtkInit
    }
}

} // verus!

//! Small helpers for scratch code: one error type that absorbs any failure value, and
//! hexadecimal and URL encoders for bytes and strings.

use vstd::prelude::*;
use vstd::std_specs::convert::FromSpecImpl;

pub mod strutil;

pub use strutil::{BinaryUtil, StrUtil};

verus! {

/// Generic type for errors.
///
/// An `Error` holds a description and nothing else. It can be converted from a value of any
/// type that implements `std::fmt::Debug`, so that `?` works on every such error type. Once
/// made, it does not change.
pub struct Error(String);

impl View for Error {
    type V = Seq<char>;

    /// The description that the error carries.
    closed spec fn view(&self) -> Seq<char> {
        self.0@
    }
}

/// Renders `value` with `format!("{:?}", ..)`, that is through `T`'s implementation of
/// `std::fmt::Debug`. The text is whatever that implementation writes, so nothing is
/// claimed of it.
#[verifier::external_body]
fn debug_rendering<T: core::fmt::Debug>(value: &T) -> (text: String) {
    format!("{:?}", value)
}

impl Error {
    /// Makes the error that carries `description`, unmodified.
    pub fn new(description: String) -> (error: Error)
        ensures
            error@ == description@,
    {
        Error(description)
    }

    /// The description that the error carries.
    pub fn description(&self) -> (text: &str)
        ensures
            text@ == self@,
    {
        self.0.as_str()
    }
}

impl<T: core::fmt::Debug> From<T> for Error {
    /// Wraps a failure value: the description is what `T`'s `Debug` implementation renders
    /// for it, handed to [`Error::new`] as it came. Which text that is lies with `T`, so
    /// the conversion itself promises nothing of it.
    fn from(error: T) -> (wrapped: Error) {
        Error::new(debug_rendering(&error))
    }
}

/// No value is fixed for the conversion in contracts: it depends on `T`'s `Debug`.
impl<T: core::fmt::Debug> FromSpecImpl<T> for Error {
    open spec fn obeys_from_spec() -> bool {
        false
    }

    open spec fn from_spec(v: T) -> Error {
        arbitrary()
    }
}

} // verus!

use vstd::prelude::*;
use vstd::string::StringExecFns;

verus! {

/// An error from interpreting a server response.
#[derive(Clone, Debug, PartialEq, Eq)]
pub enum ApiError {
    /// An attribute the caller needed was absent from the response; the
    /// attribute's name is carried along.
    MissingAttribute(String),
}

impl ApiError {
    /// A human-readable description of the error.
    pub fn message(&self) -> (r: String)
        ensures
            self matches ApiError::MissingAttribute(name) ==> r@ == "Missing optional attribute "@
                + name@ + "."@,
    {
        match self {
            ApiError::MissingAttribute(name) => {
                let m = String::from_str("Missing optional attribute ").concat(name.as_str());
                let m = m.concat(".");
                proof {
                    assert(m@ =~= "Missing optional attribute "@ + self->MissingAttribute_0@
                        + "."@);
                }
                m
            },
        }
    }
}

/// Turns an absent optional value into an `ApiError` that names the missing
/// attribute.
pub trait OnMissing<T>: Sized {
    fn on_missing(self, attribute_name: &str) -> Result<T, ApiError>;
}

impl<T> OnMissing<T> for Option<T> {
    fn on_missing(self, attribute_name: &str) -> (r: Result<T, ApiError>)
        ensures
            match self {
                Some(v) => r == Ok::<T, ApiError>(v),
                None => r matches Err(ApiError::MissingAttribute(n)) && n@ == attribute_name@,
            },
    {
        match self {
            Some(v) => Ok(v),
            None => Err(ApiError::MissingAttribute(attribute_name.to_owned())),
        }
    }
}

} // verus!

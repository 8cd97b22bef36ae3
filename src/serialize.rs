use vstd::prelude::*;

verus! {

/// An error indicating that a failure happened during serialization.
///
/// The cause is kept as its rendered message, so that user-defined
/// serializers can report errors of any type.
#[derive(Debug, Clone)]
pub struct SerializationError {
    cause: String,
}

impl SerializationError {
    /// Constructs a new `SerializationError` from the message of its cause.
    pub fn new(cause: String) -> (r: SerializationError)
        ensures
            r.cause() == cause@,
    {
        SerializationError { cause }
    }

    /// The message of the underlying cause.
    pub closed spec fn cause(&self) -> Seq<char> {
        self.cause@
    }

    /// The message of the underlying cause.
    pub fn cause_message(&self) -> (r: &String)
        ensures
            r@ == self.cause(),
    {
        &self.cause
    }

    /// The human-readable description: `SerializationError: ` followed by the cause.
    pub fn to_message(&self) -> (r: String)
        ensures
            r@ == "SerializationError: "@ + self.cause(),
    {
        let prefix = String::from_str("SerializationError: ");
        prefix.concat(self.cause.as_str())
    }
}

} // verus!

//! The failures that loading and saving a task collection can report.

use vstd::prelude::*;

verus! {

/// Why a task collection could not be loaded or saved.
#[derive(Debug)]
pub enum StoreError {
    /// The backing file could not be opened, created, read or written.
    FileCreateAndReadError(std::io::Error),
    /// The stored content is not a JSON object of labels and booleans.
    SerdeJsonDeserializeError(serde_json::Error),
    /// The collection could not be written out as JSON.
    SerdeJsonSerializeError(serde_json::Error),
}

impl From<std::io::Error> for StoreError {
    fn from(value: std::io::Error) -> (e: StoreError) {
        StoreError::FileCreateAndReadError(value)
    }
}

impl vstd::std_specs::convert::FromSpecImpl<std::io::Error> for StoreError {
    open spec fn obeys_from_spec() -> bool {
        true
    }

    open spec fn from_spec(value: std::io::Error) -> StoreError {
        StoreError::FileCreateAndReadError(value)
    }
}

impl From<serde_json::Error> for StoreError {
    fn from(value: serde_json::Error) -> (e: StoreError) {
        StoreError::SerdeJsonSerializeError(value)
    }
}

impl vstd::std_specs::convert::FromSpecImpl<serde_json::Error> for StoreError {
    open spec fn obeys_from_spec() -> bool {
        true
    }

    open spec fn from_spec(value: serde_json::Error) -> StoreError {
        StoreError::SerdeJsonSerializeError(value)
    }
}

impl StoreError {
    /// Turns what the JSON writer gave into the bytes to store, or into the
    /// failure to report.
    pub fn from_rendered(rendered: Result<Vec<u8>, serde_json::Error>) -> (written: Result<
        Vec<u8>,
        StoreError,
    >)
        ensures
            match rendered {
                Ok(bytes) => written == Ok::<Vec<u8>, StoreError>(bytes),
                Err(cause) => written matches Err(StoreError::SerdeJsonSerializeError(e)) && e
                    == cause,
            },
    {
        match rendered {
            Ok(bytes) => Ok(bytes),
            Err(cause) => Err(StoreError::from(cause)),
        }
    }
}

} // verus!

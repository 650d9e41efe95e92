//! A document as it is sent to the reader.
use vstd::prelude::*;

use crate::database::error::{DatabaseError, ErrorKind};
use crate::database::primary_key::PrimaryKey;
use crate::database::sqlite::{blob_read, Database};
use crate::database::traits::DatabaseEntry;
use crate::document::Document;
use crate::error::RequestError;

verus! {

/// The bytes of a stored document.
#[derive(Debug, Clone, PartialEq, Eq)]
pub struct PdfOutput(pub Vec<u8>);

impl PdfOutput {
    /// What is sent for the outcome of reading a document: the bytes that
    /// were read, or the failure of the store as a failure of the request.
    pub open spec fn sent_for(loaded: Result<Vec<u8>, DatabaseError>) -> Result<
        PdfOutput,
        RequestError,
    > {
        match loaded {
            Ok(bytes) => Ok(PdfOutput(bytes)),
            Err(error) => Err(RequestError::classified(error)),
        }
    }

    /// What is sent for the outcome of reading a document.
    pub fn from_loaded(loaded: Result<Vec<u8>, DatabaseError>) -> (output: Result<
        Self,
        RequestError,
    >)
        ensures
            output == Self::sent_for(loaded),
    {
        match loaded {
            Ok(bytes) => Ok(PdfOutput(bytes)),
            Err(error) => Err(RequestError::from(error)),
        }
    }

    /// Read a document from the store: the bytes of the blob in the column
    /// `document` of the row of the key are sent, and a failure of the store
    /// is told as a failure of the request.
    pub fn new(database: &Database, document_id: PrimaryKey<Document>) -> (output: Result<
        Self,
        RequestError,
    >)
        ensures
            exists|loaded: Result<Vec<u8>, DatabaseError>|
                {
                    &&& #[trigger] blob_read(
                        database,
                        Document::table_name_spec(),
                        "document"@,
                        document_id.0,
                        loaded,
                    )
                    &&& loaded is Err ==> loaded->Err_0.kind == ErrorKind::Store
                    &&& output == Self::sent_for(loaded)
                },
    {
        let loaded = Document::load_into_memory(database, document_id);
        let ghost read = loaded;
        let output = Self::from_loaded(loaded);
        assert(blob_read(
            database,
            Document::table_name_spec(),
            "document"@,
            document_id.0,
            read,
        ) && output == Self::sent_for(read));
        output
    }
}

} // verus!

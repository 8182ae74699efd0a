//! The ingest stage's error.
use vstd::prelude::*;

verus! {

#[derive(Debug)]
pub enum IngestError {
    /// The channel to the processor is closed.
    ChannelClosed,
}

impl IngestError {
    /// The text that describes the error.
    pub fn message(&self) -> (res: String)
        ensures
            res@ == "ingest channel closed"@,
    {
        "ingest channel closed".to_owned()
    }
}

} // verus!

//! The unified failure value of the pipeline.
//!
//! Every failure of a run is one of five kinds, each carrying the day
//! offset it arose for and the minimal context needed for diagnostics.
//! Nothing is recovered locally: the first error aborts the batch and is
//! handed to the caller.

use vstd::prelude::*;
use vstd::string::StringExecFns;

use crate::urls::{dec_rep, i64_dec, int_dec, u64_dec};

verus! {

/// A failure of the pipeline, tagged with its kind.
#[derive(Debug, PartialEq)]
pub enum Error {
    /// The connection itself failed (DNS, connect, TLS, timeout) while
    /// talking to either endpoint.
    Transport {
        /// The day offset being processed when the failure arose.
        offset: i64,
        /// A human-readable description of the underlying cause.
        detail: String,
    },
    /// Either endpoint answered with a non-success HTTP status.
    Protocol {
        /// The day offset being processed when the failure arose.
        offset: i64,
        /// The HTTP status code that was received.
        status: u16,
    },
    /// The archive body does not match the expected schema, or the
    /// downloaded bytes are not a recognized raster image.
    Decode {
        /// The day offset being processed when the failure arose.
        offset: i64,
        /// A human-readable description of the underlying cause.
        detail: String,
    },
    /// The archive returned zero records for the requested offset.
    NotFound {
        /// The day offset that had no record.
        offset: i64,
    },
    /// The output file could not be created or written.
    Filesystem {
        /// The day offset whose output file failed.
        offset: i64,
        /// A human-readable description of the underlying cause.
        detail: String,
    },
}

impl Error {
    /// The day offset the failure refers to.
    pub open spec fn offset_spec(self) -> i64 {
        match self {
            Error::Transport { offset, .. } => offset,
            Error::Protocol { offset, .. } => offset,
            Error::Decode { offset, .. } => offset,
            Error::NotFound { offset } => offset,
            Error::Filesystem { offset, .. } => offset,
        }
    }

    /// Returns the day offset the failure refers to.
    pub fn offset(&self) -> (o: i64)
        ensures
            o == self.offset_spec(),
    {
        match self {
            Error::Transport { offset, .. } => *offset,
            Error::Protocol { offset, .. } => *offset,
            Error::Decode { offset, .. } => *offset,
            Error::NotFound { offset } => *offset,
            Error::Filesystem { offset, .. } => *offset,
        }
    }

    /// The failure's human-readable description: its offset, its kind in
    /// words, and the underlying cause where one was recorded.
    pub open spec fn describe_spec(self) -> Seq<char> {
        match self {
            Error::Transport { offset, detail } => "offset "@ + int_dec(offset as int)
                + ": transport failure: "@ + detail@,
            Error::Protocol { offset, status } => "offset "@ + int_dec(offset as int)
                + ": server answered with status "@ + dec_rep(status as int),
            Error::Decode { offset, detail } => "offset "@ + int_dec(offset as int)
                + ": undecodable reply: "@ + detail@,
            Error::NotFound { offset } => "offset "@ + int_dec(offset as int)
                + ": no record in the archive"@,
            Error::Filesystem { offset, detail } => "offset "@ + int_dec(offset as int)
                + ": could not write the output file: "@ + detail@,
        }
    }

    /// Renders the failure for the caller's error stream.
    pub fn describe(&self) -> (s: String)
        ensures
            s@ == self.describe_spec(),
    {
        match self {
            Error::Transport { offset, detail } => {
                let mut s: String = "offset ".to_owned();
                s.append(i64_dec(*offset).as_str());
                s.append(": transport failure: ");
                s.append(detail.as_str());
                proof {
                    assert(s@ =~= self.describe_spec());
                }
                s
            },
            Error::Protocol { offset, status } => {
                let mut s: String = "offset ".to_owned();
                s.append(i64_dec(*offset).as_str());
                s.append(": server answered with status ");
                s.append(u64_dec(*status as u64).as_str());
                proof {
                    assert(s@ =~= self.describe_spec());
                }
                s
            },
            Error::Decode { offset, detail } => {
                let mut s: String = "offset ".to_owned();
                s.append(i64_dec(*offset).as_str());
                s.append(": undecodable reply: ");
                s.append(detail.as_str());
                proof {
                    assert(s@ =~= self.describe_spec());
                }
                s
            },
            Error::NotFound { offset } => {
                let mut s: String = "offset ".to_owned();
                s.append(i64_dec(*offset).as_str());
                s.append(": no record in the archive");
                proof {
                    assert(s@ =~= self.describe_spec());
                }
                s
            },
            Error::Filesystem { offset, detail } => {
                let mut s: String = "offset ".to_owned();
                s.append(i64_dec(*offset).as_str());
                s.append(": could not write the output file: ");
                s.append(detail.as_str());
                proof {
                    assert(s@ =~= self.describe_spec());
                }
                s
            },
        }
    }
}

} // verus!

//! Pieces of an uploaded file.

use crate::json::ToJson;
use vstd::prelude::*;
use vstd::string::*;

verus! {

/// A piece of an upload, with where in it the piece starts.
#[derive(Debug, Clone)]
pub struct FileChunk {
    pub offset: usize,
    pub data: Vec<u8>,
}

impl ToJson for FileChunk {
    open spec fn json(&self) -> Seq<char> {
        "{\"offset\":"@ + self.offset.json() + ",\"data\":"@ + self.data.json() + "}"@
    }

    fn write_json(&self, out: &mut String) {
        out.append("{\"offset\":");
        self.offset.write_json(out);
        out.append(",\"data\":");
        self.data.write_json(out);
        out.append("}");
        assert(out@ =~= old(out)@ + self.json());
    }
}

} // verus!

//! Running a script and reporting what it writes and how it ends.

pub mod task;
pub mod timestamped;

pub use crate::tasks::timestamped::{Timestamp, Timestamped};

use crate::json::ToJson;
use vstd::prelude::*;
use vstd::string::*;

verus! {

/// A line that a script wrote.
#[derive(Debug, Clone, PartialEq, Eq)]
pub enum TaskOutput {
    Stdout(String),
    Stderr(String),
}

impl ToJson for TaskOutput {
    open spec fn json(&self) -> Seq<char> {
        match self {
            TaskOutput::Stdout(line) => "{\"stdout\":"@ + line.json() + "}"@,
            TaskOutput::Stderr(line) => "{\"stderr\":"@ + line.json() + "}"@,
        }
    }

    fn write_json(&self, out: &mut String) {
        match self {
            TaskOutput::Stdout(line) => {
                out.append("{\"stdout\":");
                line.write_json(out);
                out.append("}");
            },
            TaskOutput::Stderr(line) => {
                out.append("{\"stderr\":");
                line.write_json(out);
                out.append("}");
            },
        }
        assert(out@ =~= old(out)@ + self.json());
    }
}

} // verus!

//! `codex stdio-to-uds` requests.

use vstd::prelude::*;

verus! {

/// Request for `codex stdio-to-uds <SOCKET_PATH>`.
#[derive(Debug)]
pub struct StdioToUdsRequest {
    pub socket_path: String,
    pub working_dir: Option<String>,
}

impl StdioToUdsRequest {
    pub fn new(socket_path: &str) -> (r: Self)
        ensures
            r.socket_path@ == socket_path@,
            r.working_dir is None,
    {
        StdioToUdsRequest { socket_path: socket_path.to_owned(), working_dir: None }
    }

    pub fn working_dir(self, dir: &str) -> (r: Self)
        ensures
            r.socket_path == self.socket_path,
            r.working_dir matches Some(d) && d@ == dir@,
    {
        StdioToUdsRequest { working_dir: Some(dir.to_owned()), ..self }
    }
}

} // verus!

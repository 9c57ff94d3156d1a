//! The configuration of the service: built once when the service starts,
//! and only read after that.

use vstd::prelude::*;
use vstd::string::StringExecFns;

verus! {

/// The size ceiling of an upload, in bytes: 5 MiB.
pub const MAX_FILE_SIZE: usize = 5 * 1024 * 1024;

/// The storage root that is used where none is configured.
pub open spec fn default_upload_dir() -> Seq<char> {
    "./uploads"@
}

/// The listen address that is used where none is configured.
pub open spec fn default_bind_address() -> Seq<char> {
    "127.0.0.1:5300"@
}

/// What the service is configured with.
#[derive(Debug, PartialEq, Eq)]
pub struct Settings {
    /// The storage root: the directory that holds the stored assets.
    pub upload_dir: String,
    /// The address to listen on.
    pub bind_address: String,
    /// The size ceiling of an upload, in bytes.
    pub max_file_size: usize,
}

impl Settings {
    /// The settings for what the environment configures: each value that
    /// is given is taken as it is, each one that is missing gets its
    /// default. The size ceiling is fixed.
    pub fn resolve(upload_dir: Option<String>, bind_address: Option<String>) -> (r: Settings)
        ensures
            r.upload_dir@ == match upload_dir {
                Some(dir) => dir@,
                None => default_upload_dir(),
            },
            r.bind_address@ == match bind_address {
                Some(address) => address@,
                None => default_bind_address(),
            },
            r.max_file_size == MAX_FILE_SIZE,
    {
        let upload_dir = match upload_dir {
            Some(dir) => dir,
            None => String::from_str("./uploads"),
        };
        let bind_address = match bind_address {
            Some(address) => address,
            None => String::from_str("127.0.0.1:5300"),
        };
        Settings { upload_dir, bind_address, max_file_size: MAX_FILE_SIZE }
    }
}

} // verus!

//! Resource path layout. Loading the bytes from disk is the shell's
//! business; the path arithmetic — where a resource of a given kind
//! lives under the resource root — is decided here.

use vstd::prelude::*;
use vstd::string::{StrSliceExecFns, StringExecFns};

verus! {

/// Namespace for resource loading.
pub struct Resource {}

impl Resource {
    /// The path of `file_name` under the resource directory of `root`,
    /// optionally inside the `sub_path` subdirectory.
    pub fn build_path(root: &str, sub_path: Option<&str>, file_name: &str) -> (r: String)
        ensures
            sub_path matches Some(s) ==> r@ == root@ + "/res"@ + "/"@ + s@ + "/"@ + file_name@,
            sub_path is None ==> r@ == root@ + "/res"@ + "/"@ + file_name@,
    {
        let mut path: String = root.to_owned();
        path.append("/res");
        match sub_path {
            Some(s) => {
                path.append("/");
                path.append(s);
            },
            None => {},
        }
        path.append("/");
        path.append(file_name);
        path
    }
}

} // verus!

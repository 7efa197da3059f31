//! Database helpers that do not touch the database.
use vstd::prelude::*;

use crate::text::str_eq;

verus! {

/// The file name of the sqlite-vec extension on the target OS (`std::env::consts::OS`).
pub open spec fn vec_extension_file(target_os: Seq<char>) -> Seq<char> {
    if target_os == "windows"@ {
        "sqlite_vec.dll"@
    } else if target_os == "macos"@ {
        "libsqlite_vec.dylib"@
    } else {
        "libsqlite_vec.so"@
    }
}

pub fn default_sqlite_vec_extension_filename(target_os: &str) -> (r: &'static str)
    ensures
        r@ == vec_extension_file(target_os@),
{
    if str_eq(target_os, "windows") {
        "sqlite_vec.dll"
    } else if str_eq(target_os, "macos") {
        "libsqlite_vec.dylib"
    } else {
        "libsqlite_vec.so"
    }
}

} // verus!

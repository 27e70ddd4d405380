//! Where the table file and the API cache go by default, and whether an
//! existing table may be replaced.
use vstd::prelude::*;
use crate::cli::APP_NAME;
use crate::text::string_from;
use crate::error::{FilterError, FilterErrorView};

verus! {

/// The file name of the table.
pub const TABLE_FILE: &'static str = "pokeinfo.csv";

/// The program's data directory in the home directory `home`.
pub fn data_dir(home: &str) -> (r: String)
    ensures
        r@ == home@ + "/."@ + APP_NAME@,
{
    let mut r = string_from(home);
    r.append("/.");
    r.append(APP_NAME);
    r
}

/// The table's default path: in the data directory `dir` where that
/// directory exists or could be made, else in the working directory.
pub fn default_table_path(dir: Option<&str>) -> (r: String)
    ensures
        match dir {
            Some(d) => r@ == d@ + "/"@ + TABLE_FILE@,
            None => r@ == TABLE_FILE@,
        },
{
    match dir {
        Some(d) => {
            let mut r = string_from(d);
            r.append("/");
            r.append(TABLE_FILE);
            r
        },
        None => string_from(TABLE_FILE),
    }
}

/// The directory for caches in the home directory `home`.
pub fn cache_root(home: &str) -> (r: String)
    ensures
        r@ == home@ + "/.cache"@,
{
    let mut r = string_from(home);
    r.append("/.cache");
    r
}

/// The program's API cache directory in the cache directory `root`.
pub fn client_cache_dir(root: &str) -> (r: String)
    ensures
        r@ == root@ + "/"@ + APP_NAME@,
{
    let mut r = string_from(root);
    r.append("/");
    r.append(APP_NAME);
    r
}

/// Whether the table may be written to `path`: not when a file is there
/// already and overwriting was not asked for.
pub fn check_output(path: &str, exists: bool, force: bool) -> (r: Result<(), FilterError>)
    ensures
        r is Err <==> (exists && !force),
        r matches Err(e) ==> e@ == FilterErrorView::FileExists(path@),
{
    if !force && exists {
        Err(FilterError::FileExists(string_from(path)))
    } else {
        Ok(())
    }
}

} // verus!

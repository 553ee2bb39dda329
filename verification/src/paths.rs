use vstd::prelude::*;

verus! {

/// Where the embedded database for `db_name` lives, under the
/// application's data directory.
pub fn get_database_path(db_name: &str) -> (r: String)
    ensures
        r@ == "~/novaflow/db/"@ + db_name@,
{
    String::from_str("~/novaflow/db/").concat(db_name)
}

} // verus!

use vstd::prelude::*;

verus! {

/// Whether a window with this label receives the file-open event; the
/// desktop shell filters event targets with this decision.
pub fn open_file_target(label: &str) -> (r: bool)
    ensures
        r == (label@ == "main"@ || label@ == "file-viewer"@),
{
    let l = String::from_str(label);
    l == String::from_str("main") || l == String::from_str("file-viewer")
}

/// The argument list the storage-engine sidecar is started with: a local
/// single-writer server bound to the loopback address, guests, scripting
/// and functions denied, logging at debug level, over a file-backed store
/// at `db_path`.
pub fn surreal_start_args(db_path: &str, password: &str) -> (r: Vec<String>)
    ensures
        r.deep_view() =~= seq![
            "start"@,
            "--bind"@,
            "127.0.0.1:8877"@,
            "--user"@,
            "root"@,
            "--pass"@,
            password@,
            "--deny-guests"@,
            "--deny-scripting"@,
            "--deny-funcs"@,
            "--no-banner"@,
            "--log"@,
            "debug"@,
            "file:"@ + db_path@,
        ],
{
    let mut r: Vec<String> = Vec::new();
    r.push(String::from_str("start"));
    r.push(String::from_str("--bind"));
    r.push(String::from_str("127.0.0.1:8877"));
    r.push(String::from_str("--user"));
    r.push(String::from_str("root"));
    r.push(String::from_str("--pass"));
    r.push(String::from_str(password));
    r.push(String::from_str("--deny-guests"));
    r.push(String::from_str("--deny-scripting"));
    r.push(String::from_str("--deny-funcs"));
    r.push(String::from_str("--no-banner"));
    r.push(String::from_str("--log"));
    r.push(String::from_str("debug"));
    r.push(String::from_str("file:").concat(db_path));
    r
}

} // verus!

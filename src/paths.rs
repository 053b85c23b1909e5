use vstd::prelude::*;

verus! {

/// `data/<name>/<stamp>`.
pub open spec fn run_dir_path(name: Seq<char>, stamp: Seq<char>) -> Seq<char> {
    "data/"@ + name + "/"@ + stamp
}

/// The directory `data/<name>/<stamp>` for a run of the experiment `name`
/// stamped `stamp`.
pub fn run_dir(name: &str, stamp: &str) -> (r: String)
    ensures
        r@ == run_dir_path(name@, stamp@),
{
    let mut r = String::from_str("data/");
    r.append(name);
    r.append("/");
    r.append(stamp);
    r
}

/// Relies on chrono's `Local::now` and its `format`: the local date and time
/// at the call, written `%Y.%m.%d-%Hh%M`. Nothing is promised of the text,
/// which depends on the clock and the time zone.
#[verifier::external_body]
fn local_timestamp() -> (r: String) {
    chrono::Local::now().format("%Y.%m.%d-%Hh%M").to_string()
}

/// A directory for a run of the experiment `name` that starts now:
/// `data/<name>/<local date and time>`.
pub fn make_path(name: &str) -> (r: String)
    ensures
        exists|stamp: Seq<char>| r@ == run_dir_path(name@, stamp),
{
    let stamp = local_timestamp();
    run_dir(name, stamp.as_str())
}

} // verus!

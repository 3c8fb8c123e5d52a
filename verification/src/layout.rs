//! The on-disk layout of the store and the planning of one upload.
//!
//! Stored files live at `root/<CATEGORY>/<timestamp>.<extension>`. The
//! functions here only compute paths; creating the directory and writing
//! the file are the filesystem edge's job, outside this library.

use vstd::prelude::*;
use vstd::string::StringExecFns;
use crate::category::Category;
use crate::category::classify;
use crate::category::spec_classify;
use crate::category::spec_dir_name;
use crate::naming::Timestamp;
use crate::naming::generate_file_name;
use crate::naming::now_timestamp;
use crate::naming::spec_file_name;

verus! {

broadcast use vstd::string::group_string_axioms;

/// The path of a category's subdirectory under the storage root:
/// `root/<CATEGORY>`.
pub open spec fn spec_category_dir(root: Seq<char>, c: Category) -> Seq<char> {
    root + seq!['/'] + spec_dir_name(c)
}

/// The path of a stored file inside its category's subdirectory.
pub open spec fn spec_file_path(root: Seq<char>, c: Category, name: Seq<char>) -> Seq<char> {
    spec_category_dir(root, c) + seq!['/'] + name
}

/// Computes `root/<CATEGORY>`, the directory that must exist before a
/// write of that category lands. Computing it twice for the same inputs
/// gives the same path; the creation itself must tolerate the directory
/// already existing.
pub fn category_dir_path(root: &str, c: Category) -> (r: String)
    ensures
        r@ == spec_category_dir(root@, c),
{
    let mut out = String::from_str(root);
    out.append("/");
    out.append(c.dir_name());
    proof {
        reveal_strlit("/");
        assert(out@ =~= spec_category_dir(root@, c));
    }
    out
}

/// Everything the filesystem edge needs to persist one upload: which
/// category it fell into, the directory to ensure, and the full path to
/// write the payload to.
pub struct UploadPlan {
    pub category: Category,
    pub category_dir: String,
    pub file_path: String,
}

impl UploadPlan {
    /// The plan that classification and the layout rules dictate for an
    /// upload of `declared` type arriving at `ts` under `root`.
    pub open spec fn wf(&self, root: Seq<char>, declared: Seq<char>, ts: Timestamp) -> bool {
        &&& self.category == spec_classify(declared)
        &&& self.category_dir@ == spec_category_dir(root, self.category)
        &&& self.file_path@ == spec_file_path(
            root,
            self.category,
            spec_file_name(ts, self.category),
        )
    }
}

/// Plans one upload: classifies the declared type and lays out the
/// category directory and the timestamped file path under `root`.
pub fn plan_upload(root: &str, declared: &str, ts: &Timestamp) -> (r: UploadPlan)
    requires
        ts.formattable(),
    ensures
        r.wf(root@, declared@, *ts),
{
    let category = classify(declared);
    let category_dir = category_dir_path(root, category);
    let name = generate_file_name(ts, category);
    let mut file_path = category_dir.clone();
    file_path.append("/");
    file_path.append(name.as_str());
    proof {
        reveal_strlit("/");
        assert(file_path@ =~= spec_file_path(root@, category, name@));
    }
    UploadPlan { category, category_dir, file_path }
}

/// Plans one upload for the given instant: `Some` of exactly the
/// formattable timestamps, with the exact plan, and `None` of every
/// other.
pub fn plan_for_timestamp(root: &str, declared: &str, ts: &Timestamp) -> (r: Option<UploadPlan>)
    ensures
        ts.formattable() ==> (r matches Some(plan) && plan.wf(root@, declared@, *ts)),
        !ts.formattable() ==> r is None,
{
    if ts.is_formattable() {
        Some(plan_upload(root, declared, ts))
    } else {
        None
    }
}

/// Plans an upload arriving now, against the wall clock. Returns `None`
/// only when the clock's year does not fit the four-digit `YYYY` field of
/// the filename format.
pub fn plan_upload_now(root: &str, declared: &str) -> (r: Option<UploadPlan>)
    ensures
        r matches Some(plan) ==> exists|ts: Timestamp|
            ts.formattable() && plan.wf(root@, declared@, ts),
{
    let ts = now_timestamp();
    let r = plan_for_timestamp(root, declared, &ts);
    proof {
        assert(r matches Some(plan) ==> ts.formattable() && plan.wf(root@, declared@, ts));
    }
    r
}

} // verus!

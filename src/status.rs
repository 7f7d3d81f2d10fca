use vstd::prelude::*;

verus! {

/// The coarse lifecycle category that a pod's status reports.
#[derive(Clone, Copy, Debug, PartialEq, Eq, Structural)]
pub enum LifecycleCategory {
    Pending,
    Running,
    Succeeded,
    Failed,
}

/// A point-in-time status record: a lifecycle category and a descriptive label.
#[derive(Clone, Debug)]
pub struct PodStatus {
    pub category: LifecycleCategory,
    pub message: String,
}

/// The mathematical content of a status record.
pub struct StatusView {
    pub category: LifecycleCategory,
    pub message: Seq<char>,
}

impl View for PodStatus {
    type V = StatusView;

    open spec fn view(&self) -> StatusView {
        StatusView { category: self.category, message: self.message@ }
    }
}

/// Builds a status record from a category and a label.
pub fn make_status(category: LifecycleCategory, message: &str) -> (r: PodStatus)
    ensures
        r.category == category,
        r.message@ == message@,
{
    PodStatus { category, message: String::from_str(message) }
}

} // verus!

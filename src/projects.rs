//! Categories that the projects page filters by.
use vstd::prelude::*;

verus! {

/// A project category.
#[derive(PartialEq, Eq, Structural, Debug, Clone, Copy, Hash)]
pub enum ProjectCategory {
    Cloud,
    Security,
    Automation,
}

impl ProjectCategory {
    /// Every category, in the order the filter lists them.
    pub fn all() -> (r: Vec<ProjectCategory>)
        ensures
            r@ == seq![ProjectCategory::Cloud, ProjectCategory::Security, ProjectCategory::Automation],
    {
        let r = vec![ProjectCategory::Cloud, ProjectCategory::Security, ProjectCategory::Automation];
        assert(r@ =~= seq![ProjectCategory::Cloud, ProjectCategory::Security, ProjectCategory::Automation]);
        r
    }

    /// The category's identifier.
    pub fn id(&self) -> (r: &'static str)
        ensures
            *self == ProjectCategory::Cloud ==> r@ == "cloud"@,
            *self == ProjectCategory::Security ==> r@ == "security"@,
            *self == ProjectCategory::Automation ==> r@ == "automation"@,
    {
        match self {
            ProjectCategory::Cloud => "cloud",
            ProjectCategory::Security => "security",
            ProjectCategory::Automation => "automation",
        }
    }
}

} // verus!

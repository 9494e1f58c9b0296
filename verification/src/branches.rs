//! Branch listing of the built-in liboxen stand-in: a repository has the
//! branches `main` and `draft`, and `draft` is current.
use vstd::prelude::*;

verus! {

/// A branch.
#[derive(Debug, Clone)]
pub struct Branch {
    pub name: String,
}

/// Options of an `add`.
#[derive(Debug, Clone)]
pub struct AddOpts {
    pub paths: Vec<String>,
    pub is_remote: bool,
    pub directory: Option<String>,
}

/// The branches: `main` and `draft`.
pub fn list() -> (b: Vec<Branch>)
    ensures
        b@.len() == 2,
        b@[0].name@ == "main"@,
        b@[1].name@ == "draft"@,
{
    let mut b: Vec<Branch> = Vec::new();
    b.push(Branch { name: "main".to_owned() });
    b.push(Branch { name: "draft".to_owned() });
    b
}

/// The current branch: `draft`.
pub fn current_branch() -> (b: Branch)
    ensures
        b.name@ == "draft"@,
{
    Branch { name: "draft".to_owned() }
}

} // verus!

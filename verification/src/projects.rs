//! The project registry the archive controller reads: each project has an
//! identifier and a root path, and identifiers are unique.

use vstd::prelude::*;

verus! {

/// A project's identifier, carried as its textual form.
#[derive(Debug)]
pub struct ProjectId(pub String);

impl View for ProjectId {
    type V = Seq<char>;

    open spec fn view(&self) -> Seq<char> {
        self.0@
    }
}

/// One registered project.
#[derive(Debug)]
pub struct Project {
    pub id: ProjectId,
    pub path: String,
}

/// Why a project lookup failed.
#[derive(Clone, Copy, Debug, PartialEq, Eq, Structural)]
pub enum GetError {
    /// No project carries the requested identifier.
    NotFound,
}

/// True when some registered project carries the identifier.
pub open spec fn has_project(s: Seq<Project>, id: Seq<char>) -> bool {
    exists|i: int| 0 <= i < s.len() && s[i].id@ == id
}

/// The root path of the project carrying the identifier.
pub open spec fn project_path_of(s: Seq<Project>, id: Seq<char>) -> Seq<char> {
    s[choose|i: int| 0 <= i < s.len() && s[i].id@ == id].path@
}

/// The registry of this process's projects.
pub struct Projects {
    pub list: Vec<Project>,
}

impl View for Projects {
    type V = Seq<Project>;

    open spec fn view(&self) -> Seq<Project> {
        self.list@
    }
}

impl Project {
    /// A copy with the same identifier and path.
    pub fn duplicate(&self) -> (r: Project)
        ensures
            r == *self,
    {
        Project { id: ProjectId(self.id.0.clone()), path: self.path.clone() }
    }
}

impl Projects {
    /// No two projects share an identifier.
    pub open spec fn wf(&self) -> bool {
        forall|i: int, j: int|
            0 <= i < self.list@.len() && 0 <= j < self.list@.len() && i != j
                ==> self.list@[i].id@ != self.list@[j].id@
    }

    /// A registry of the given projects.
    pub fn new(list: Vec<Project>) -> (r: Projects)
        ensures
            r@ == list@,
    {
        Projects { list }
    }

    /// Looks the identifier up: the registered project if and only if one
    /// carries it, and `NotFound` otherwise.
    pub fn get(&self, id: &ProjectId) -> (r: Result<Project, GetError>)
        requires
            self.wf(),
        ensures
            r is Ok <==> has_project(self@, id@),
            r matches Ok(p) ==> p.id@ == id@ && p.path@ == project_path_of(self@, id@),
            r matches Err(e) ==> e == GetError::NotFound,
    {
        let n = self.list.len();
        let mut i: usize = 0;
        while i < n
            invariant
                self.wf(),
                0 <= i <= n,
                n == self.list@.len(),
                forall|j: int| 0 <= j < i ==> self.list@[j].id@ != id@,
            decreases n - i,
        {
            if self.list[i].id.0.eq(&id.0) {
                proof {
                    let w = choose|w: int| 0 <= w < self.list@.len() && self.list@[w].id@ == id@;
                    assert(self.list@[i as int].id@ == id@);
                    assert(w == i);
                }
                return Ok(self.list[i].duplicate());
            }
            i += 1;
        }
        Err(GetError::NotFound)
    }
}

} // verus!

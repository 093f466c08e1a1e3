//! Archive planning: which directory gets archived where, for a project's
//! working tree, a project's recorded data, and the process logs.
//!
//! The controller resolves the source directory and names the archive
//! beside it; writing the archive's bytes to disk is the owner's work, done
//! outside the library with the returned path.

use vstd::prelude::*;

use vstd::string::StringExecFns;

use crate::projects::GetError;
use crate::projects::ProjectId;
use crate::projects::Projects;
use crate::projects::has_project;
use crate::projects::project_path_of;

verus! {

/// `a`, a separator, `b`.
pub open spec fn path_join(a: Seq<char>, b: Seq<char>) -> Seq<char> {
    a + "/"@ + b
}

/// The path the archive of a source directory gets.
pub open spec fn archive_path(source: Seq<char>) -> Seq<char> {
    source + ".zip"@
}

/// Joins a directory and an entry name.
pub fn join_path(a: &String, b: &str) -> (r: String)
    ensures
        r@ == path_join(a@, b@),
{
    let r = a.clone().concat("/").concat(b);
    proof {
        assert(r@ =~= path_join(a@, b@));
    }
    r
}

/// Why planning an archive failed.
#[derive(Clone, Copy, Debug, PartialEq, Eq, Structural)]
pub enum ZipError {
    /// The source path is empty, so there is nothing to archive.
    EmptyPath,
}

/// Plans archives: names the archive a source directory gets.
pub struct Zipper {}

impl Zipper {
    /// A fresh planner.
    pub fn new() -> (r: Zipper) {
        Zipper {  }
    }

    /// The archive path for a source directory: the source's name with the
    /// archive suffix. Fails exactly on an empty source path.
    pub fn zip(&self, source: &String) -> (r: Result<String, ZipError>)
        ensures
            r is Ok <==> source@.len() > 0,
            r matches Ok(out) ==> out@ == archive_path(source@),
            r matches Err(e) ==> e == ZipError::EmptyPath,
    {
        if source.as_str().is_empty() {
            Err(ZipError::EmptyPath)
        } else {
            let out = source.clone().concat(".zip");
            Ok(out)
        }
    }
}

/// Why archiving a project's working tree failed.
#[derive(Clone, Copy, Debug, PartialEq, Eq, Structural)]
pub enum ArchiveError {
    /// The project lookup failed.
    GetProject(GetError),
    /// The archive could not be planned.
    Other(ZipError),
}

/// Why archiving a project's recorded data failed.
#[derive(Clone, Copy, Debug, PartialEq, Eq, Structural)]
pub enum DataArchiveError {
    /// The project lookup failed.
    GetProject(GetError),
    /// The archive could not be planned.
    Other(ZipError),
}

/// Why archiving the logs failed.
#[derive(Clone, Copy, Debug, PartialEq, Eq, Structural)]
pub enum LogsArchiveError {
    /// The archive could not be planned.
    Other(ZipError),
}

/// Plans the archives the owner can ask for: a project's working tree, a
/// project's recorded data, and the process logs.
pub struct Controller {
    /// Where each project's recorded data lives, under one directory per
    /// project.
    pub local_data_dir: String,
    /// Where the process logs live.
    pub logs_dir: String,
    /// The archive planner.
    pub zipper: Zipper,
    /// The project registry.
    pub projects_controller: Projects,
}

impl Controller {
    /// The registry holds no duplicate identifiers.
    pub open spec fn wf(&self) -> bool {
        self.projects_controller.wf()
    }

    /// A controller over the given directories, planner and registry.
    pub fn new(
        local_data_dir: String,
        logs_dir: String,
        zipper: Zipper,
        projects_controller: Projects,
    ) -> (r: Controller)
        ensures
            r.local_data_dir@ == local_data_dir@,
            r.logs_dir@ == logs_dir@,
            r.projects_controller == projects_controller,
    {
        Controller { local_data_dir, logs_dir, zipper, projects_controller }
    }

    /// Plans the archive of a project's working tree: the project's root
    /// path with the archive suffix. Fails with `GetProject` exactly when no
    /// project carries the identifier, and with `Other` exactly when the
    /// registered root path is empty.
    pub fn archive(&self, project_id: &ProjectId) -> (r: Result<String, ArchiveError>)
        requires
            self.wf(),
        ensures
            r is Ok <==> (has_project(self.projects_controller@, project_id@)
                && project_path_of(self.projects_controller@, project_id@).len() > 0),
            r matches Ok(out) ==> out@ == archive_path(
                project_path_of(self.projects_controller@, project_id@),
            ),
            r matches Err(e) ==> (e == ArchiveError::GetProject(GetError::NotFound)
                <==> !has_project(self.projects_controller@, project_id@)),
            r matches Err(e) ==> (e == ArchiveError::Other(ZipError::EmptyPath)
                <==> has_project(self.projects_controller@, project_id@)),
    {
        match self.projects_controller.get(project_id) {
            Ok(project) => {
                match self.zipper.zip(&project.path) {
                    Ok(out) => Ok(out),
                    Err(e) => Err(ArchiveError::Other(e)),
                }
            },
            Err(e) => Err(ArchiveError::GetProject(e)),
        }
    }

    /// Plans the archive of a project's recorded data: the project's
    /// directory under the data directory, with the archive suffix. Fails
    /// exactly when no project carries the identifier.
    pub fn data_archive(&self, project_id: &ProjectId) -> (r: Result<String, DataArchiveError>)
        requires
            self.wf(),
        ensures
            r is Ok <==> has_project(self.projects_controller@, project_id@),
            r matches Ok(out) ==> out@ == archive_path(
                path_join(path_join(self.local_data_dir@, "projects"@), project_id@),
            ),
            r matches Err(e) ==> e == DataArchiveError::GetProject(GetError::NotFound),
    {
        match self.projects_controller.get(project_id) {
            Ok(_) => {
                let parent = join_path(&self.local_data_dir, "projects");
                let source = join_path(&parent, self.project_dir_name(project_id).as_str());
                proof {
                    reveal_strlit("/");
                    assert(source@.len() > 0);
                }
                match self.zipper.zip(&source) {
                    Ok(out) => Ok(out),
                    Err(e) => Err(DataArchiveError::Other(e)),
                }
            },
            Err(e) => Err(DataArchiveError::GetProject(e)),
        }
    }

    /// The name of a project's directory under the data directory: its
    /// identifier's textual form.
    fn project_dir_name(&self, project_id: &ProjectId) -> (r: String)
        ensures
            r@ == project_id@,
    {
        project_id.0.clone()
    }

    /// Plans the archive of the process logs: the log directory with the
    /// archive suffix. Fails exactly when the log directory is empty.
    pub fn logs_archive(&self) -> (r: Result<String, LogsArchiveError>)
        ensures
            r is Ok <==> self.logs_dir@.len() > 0,
            r matches Ok(out) ==> out@ == archive_path(self.logs_dir@),
            r matches Err(e) ==> e == LogsArchiveError::Other(ZipError::EmptyPath),
    {
        match self.zipper.zip(&self.logs_dir) {
            Ok(out) => Ok(out),
            Err(e) => Err(LogsArchiveError::Other(e)),
        }
    }
}

} // verus!

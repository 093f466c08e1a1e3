use watchcore::projects::GetError;
use watchcore::projects::Project;
use watchcore::projects::ProjectId;
use watchcore::projects::Projects;
use watchcore::zip::ArchiveError;
use watchcore::zip::Controller;
use watchcore::zip::DataArchiveError;
use watchcore::zip::LogsArchiveError;
use watchcore::zip::ZipError;
use watchcore::zip::Zipper;

fn controller_with(projects: Vec<Project>) -> Controller {
    Controller::new(
        "data".to_string(),
        "logs".to_string(),
        Zipper::new(),
        Projects::new(projects),
    )
}

fn one_project(id: &str, path: &str) -> Vec<Project> {
    vec![Project { id: ProjectId(id.to_string()), path: path.to_string() }]
}

#[test]
fn archive_plans_project_tree() {
    let c = controller_with(one_project("p-1", "work/proj"));
    let out = c.archive(&ProjectId("p-1".to_string())).unwrap();
    assert_eq!(out.as_str(), "work/proj.zip");
}

#[test]
fn archive_unknown_project_fails() {
    let c = controller_with(one_project("p-1", "work/proj"));
    let err = c.archive(&ProjectId("p-2".to_string())).unwrap_err();
    assert_eq!(err, ArchiveError::GetProject(GetError::NotFound));
}

#[test]
fn archive_empty_project_path_fails() {
    let c = controller_with(one_project("p-1", ""));
    let err = c.archive(&ProjectId("p-1".to_string())).unwrap_err();
    assert_eq!(err, ArchiveError::Other(ZipError::EmptyPath));
}

#[test]
fn data_archive_plans_project_data() {
    let c = controller_with(one_project("p-1", "work/proj"));
    let out = c.data_archive(&ProjectId("p-1".to_string())).unwrap();
    assert_eq!(out.as_str(), "data/projects/p-1.zip");
}

#[test]
fn data_archive_unknown_project_fails() {
    let c = controller_with(one_project("p-1", "work/proj"));
    let err = c.data_archive(&ProjectId("p-2".to_string())).unwrap_err();
    assert_eq!(err, DataArchiveError::GetProject(GetError::NotFound));
}

#[test]
fn logs_archive_plans_logs() {
    let c = controller_with(one_project("p-1", "work/proj"));
    let out = c.logs_archive().unwrap();
    assert_eq!(out.as_str(), "logs.zip");
}

#[test]
fn empty_logs_dir_fails() {
    let c = Controller::new(
        "data".to_string(),
        "".to_string(),
        Zipper::new(),
        Projects::new(Vec::new()),
    );
    let err = c.logs_archive().unwrap_err();
    assert_eq!(err, LogsArchiveError::Other(ZipError::EmptyPath));
}

#[test]
fn registry_lookup_returns_registered_project() {
    let p = Projects::new(one_project("p-1", "work/proj"));
    let found = p.get(&ProjectId("p-1".to_string())).unwrap();
    assert_eq!(found.id.0.as_str(), "p-1");
    assert_eq!(found.path.as_str(), "work/proj");
    let missing = p.get(&ProjectId("p-9".to_string())).unwrap_err();
    assert_eq!(missing, GetError::NotFound);
}

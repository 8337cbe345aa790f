use tempo::internal::{edit_plan, job_task_name, map_insert_task, scheduled_tasks, ImportEdit, JobType, UpdateImportAttributes, UpdateImportCover, UpdateImportRelease};
use tempo::api_error::Error;
use tempo::entity::UpdateArtistType;
use tempo::internal::{abs_path, list_path, unpack_all, update_task, ListRequest, OtherUpdateType, TaskName, UpdateType};

#[test]
fn all_unpacks_into_every_update() {
    let all = unpack_all(UpdateType::Other(OtherUpdateType::All));
    assert_eq!(
        all,
        vec![
            UpdateType::Artist(UpdateArtistType::ArtistUrl),
            UpdateType::Artist(UpdateArtistType::ArtistDescription),
            UpdateType::Artist(UpdateArtistType::LastFMArtistImage),
            UpdateType::Other(OtherUpdateType::IndexSearch),
        ]
    );
    assert!(all.iter().all(|u| update_task(*u).is_some()));
    let one = unpack_all(UpdateType::Artist(UpdateArtistType::ArtistUrl));
    assert_eq!(one, vec![UpdateType::Artist(UpdateArtistType::ArtistUrl)]);
    assert_eq!(update_task(UpdateType::Other(OtherUpdateType::IndexSearch)), Some(TaskName::IndexSearch));
    assert_eq!(update_task(UpdateType::Other(OtherUpdateType::All)), None);
}

#[test]
fn download_paths_stay_under_the_downloads_directory() {
    assert_eq!(abs_path("/data/downloads", None).ok().unwrap(), "/data/downloads");
    assert_eq!(abs_path("/data/downloads", Some("album".to_string())).ok().unwrap(), "/data/downloads/album");
    assert_eq!(abs_path("/data/downloads/", Some("a/b".to_string())).ok().unwrap(), "/data/downloads/a/b");
    match abs_path("/data/downloads", Some("/etc".to_string())) {
        Err(Error::BadRequest(Some(m))) => assert_eq!(m, "Path is not relative"),
        _ => panic!("expected a refusal"),
    }
}

#[test]
fn listings_fall_back_to_the_downloads_directory() {
    assert_eq!(list_path("/d", &ListRequest { path: Some("x".to_string()) }), "/d/x");
    assert_eq!(list_path("/d", &ListRequest { path: Some("/x".to_string()) }), "/d");
    assert_eq!(list_path("/d", &ListRequest { path: None }), "/d");
}

#[test]
fn recurring_jobs_queue_one_task_per_value() {
    let tasks = scheduled_tasks(JobType::LastFMArtistImage, vec!["a", "b"]);
    assert_eq!(tasks.len(), 2);
    assert_eq!(tasks[1].name, TaskName::LastFMArtistImage);
    assert_eq!(tasks[1].payload, Some("b"));
    assert!(tasks[0].depends_on.is_empty());
    assert_eq!(tasks[0].duration_seconds, 60);
    assert_eq!(job_task_name(JobType::IndexSearch), TaskName::IndexSearch);
    assert!(map_insert_task::<u8>(TaskName::Scrobble, vec![]).is_empty());
}

#[test]
fn import_edits_choose_among_what_the_import_has() {
    let release = |id: u128| UpdateImportAttributes::Release(UpdateImportRelease { selected_release: id });
    let cover = |i: i32| UpdateImportAttributes::Cover(UpdateImportCover { selected_cover: i });
    assert_eq!(edit_plan(&release(7), &vec![3, 7], 0).ok(), Some(ImportEdit::SelectRelease(7)));
    assert!(matches!(edit_plan(&release(8), &vec![3, 7], 0), Err(Error::BadRequest(Some(m))) if m == "Cannot select a non-existant release"));
    assert_eq!(edit_plan(&cover(1), &vec![], 2).ok(), Some(ImportEdit::SelectCover(1)));
    assert!(matches!(edit_plan(&cover(2), &vec![], 2), Err(Error::BadRequest(Some(m))) if m == "Cannot select a non-existant cover"));
    assert!(matches!(edit_plan(&cover(-1), &vec![], 2), Err(Error::BadRequest(_))));
}

#[test]
fn workers_report_only_finished_tasks() {
    use_worker_steps();
}

fn use_worker_steps() {
    assert_eq!(tempo::internal::worker_count(0), 1);
    assert_eq!(tempo::internal::worker_count(4), 4);
    assert_eq!(tempo::internal::worker_step(tempo::internal::WorkerEvent::Completed), tempo::internal::WorkerAction::ReportComplete);
    assert_eq!(tempo::internal::worker_step(tempo::internal::WorkerEvent::TimedOut), tempo::internal::WorkerAction::Next);
    assert_eq!(tempo::internal::worker_step(tempo::internal::WorkerEvent::Failed), tempo::internal::WorkerAction::Next);
    assert_eq!(tempo::internal::worker_step(tempo::internal::WorkerEvent::PopFailed), tempo::internal::WorkerAction::Stop);
}

#[test]
fn joining_onto_an_empty_base_adds_no_separator() {
    assert_eq!(abs_path("", Some("album".to_string())).ok().unwrap(), "album");
    assert_eq!(abs_path("/", Some("album".to_string())).ok().unwrap(), "/album");
}

use charts_view::data::{AppData, SavedChart};
use charts_view::delete::DeleteJob;

fn saved(path: &str, mods: i32) -> SavedChart {
    SavedChart {
        local_path: path.to_string(),
        mods,
    }
}

fn data(paths: &[&str]) -> AppData {
    let mut charts = Vec::new();
    for (i, p) in paths.iter().enumerate() {
        charts.push(saved(p, i as i32));
    }
    AppData { charts, need_update: false }
}

fn left(data: &AppData) -> Vec<i32> {
    data.charts.iter().map(|c| c.mods).collect()
}

#[test]
fn finds_the_first_chart() {
    let d = data(&["a", "b", "a"]);
    assert_eq!(d.find_chart_by_path(&"a".to_string()), Some(0));
    assert_eq!(d.find_chart_by_path(&"b".to_string()), Some(1));
    assert_eq!(d.find_chart_by_path(&"c".to_string()), None);
}

#[test]
fn forgets_the_first_chart() {
    let mut d = data(&["a", "b", "a"]);
    d.forget(&"a".to_string());
    assert_eq!(left(&d), vec![1, 2]);
    d.forget(&"x".to_string());
    assert_eq!(left(&d), vec![1, 2]);
    assert!(!d.need_update);
}

#[test]
fn mods_of_a_saved_chart() {
    let d = AppData {
        charts: vec![saved("download/1", 6), saved("download/1", 7)],
        need_update: false,
    };
    assert_eq!(d.mods_at(&Some("download/1".to_string())), 6);
    assert_eq!(d.mods_at(&Some("download/2".to_string())), 0);
    assert_eq!(d.mods_at(&None), 0);
}

#[test]
fn job_walks_over_the_paths() {
    let mut job = DeleteJob::new("/c".to_string(), vec!["a".to_string(), "b".to_string(), "d".to_string()]);
    assert_eq!(job.target(), Some("/c/a".to_string()));
    assert_eq!(job.record(true), None);
    assert_eq!(job.target(), Some("/c/b".to_string()));
    assert_eq!(job.record(false), Some("Failed to delete chart at path: /c/b".to_string()));
    assert_eq!(job.target(), Some("/c/d".to_string()));
    assert_eq!(job.record(true), None);
    assert_eq!(job.target(), None);
    assert_eq!(job.deleted, 2);
}

#[test]
fn job_without_paths_is_over() {
    let job = DeleteJob::new("/c".to_string(), vec![]);
    assert_eq!(job.target(), None);
    assert_eq!(job.deleted, 0);
}

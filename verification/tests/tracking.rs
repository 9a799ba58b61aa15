use imview::service::{Job, Pool};
use imview::tracker::{sort_paths, Tracker, THUMBNAIL_SIZE};

fn s(text: &str) -> String {
    text.to_string()
}

fn strings(items: &[&str]) -> Vec<String> {
    items.iter().map(|s| s.to_string()).collect()
}

#[test]
fn thumbnails_are_made_for_a_box_of_150_pixels() {
    assert_eq!(THUMBNAIL_SIZE, 150);
}

#[test]
fn jobs_run_on_the_pool_of_their_kind() {
    assert_eq!(Job::Image(s("/a/x.png")).pool(), Pool::Images);
    assert_eq!(Job::Thumbnail(s("/a/x.png"), 150).pool(), Pool::Thumbnails);
}

#[test]
fn sorting_puts_paths_in_ascending_order() {
    let sorted = sort_paths(&strings(&["/p/c.png", "/p/a.png", "/p/b.png", "/p/a.png"]));
    assert_eq!(sorted, strings(&["/p/a.png", "/p/a.png", "/p/b.png", "/p/c.png"]));
}

#[test]
fn sorting_compares_paths_by_their_components() {
    let sorted = sort_paths(&strings(&["/p/a.x/1.png", "/p/a/1.png", "/p/a-b/1.png"]));
    assert_eq!(sorted, strings(&["/p/a/1.png", "/p/a-b/1.png", "/p/a.x/1.png"]));
}

#[test]
fn sorting_agrees_with_the_order_of_paths() {
    let files = strings(&["/z/1.png", "/a/b/2.png", "/a/3.png", "/a.png", "/a/b.png", "relative.png", ""]);
    let mut expected: Vec<std::path::PathBuf> = files.iter().map(std::path::PathBuf::from).collect();
    expected.sort();
    let expected: Vec<String> =
        expected.iter().map(|p| p.to_string_lossy().into_owned()).collect();
    assert_eq!(sort_paths(&files), expected);
}

#[test]
fn sorting_nothing_gives_nothing() {
    assert_eq!(sort_paths(&Vec::new()), Vec::<String>::new());
}

#[test]
fn a_new_tracker_tracks_nothing() {
    let tracker = Tracker::new();
    assert!(tracker.files().is_empty());
    assert_eq!(tracker.current(), &None);
}

#[test]
fn an_added_file_is_tracked_and_gets_a_thumbnail() {
    let mut tracker = Tracker::new();
    let job = tracker.add_file(s("/p/b.png"));
    assert_eq!(job, Job::Thumbnail(s("/p/b.png"), 150));
    let job = tracker.add_file(s("/p/a.png"));
    assert_eq!(job, Job::Thumbnail(s("/p/a.png"), 150));
    assert_eq!(tracker.files(), &strings(&["/p/b.png", "/p/a.png"]));
    assert_eq!(tracker.current(), &None);
}

#[test]
fn settling_sorts_the_list_and_shows_the_first_file() {
    let mut tracker = Tracker::new();
    tracker.add_file(s("/p/b.png"));
    tracker.add_file(s("/p/a.png"));
    assert_eq!(tracker.settle(), Some(Job::Image(s("/p/a.png"))));
    assert_eq!(tracker.files(), &strings(&["/p/a.png", "/p/b.png"]));
    assert_eq!(tracker.current(), &Some(s("/p/a.png")));
}

#[test]
fn settling_keeps_the_file_that_is_shown() {
    let mut tracker = Tracker::new();
    tracker.add_file(s("/p/b.png"));
    assert_eq!(tracker.settle(), Some(Job::Image(s("/p/b.png"))));
    tracker.add_file(s("/p/a.png"));
    assert_eq!(tracker.settle(), None);
    assert_eq!(tracker.files(), &strings(&["/p/a.png", "/p/b.png"]));
    assert_eq!(tracker.current(), &Some(s("/p/b.png")));
}

#[test]
fn settling_an_empty_list_shows_nothing() {
    let mut tracker = Tracker::new();
    assert_eq!(tracker.settle(), None);
    assert_eq!(tracker.current(), &None);
    tracker.add_file(s("/p/a.png"));
    tracker.settle();
    tracker.remove_file(&s("/p/a.png"));
    assert_eq!(tracker.settle(), None);
    assert_eq!(tracker.current(), &None);
    assert!(tracker.files().is_empty());
}

#[test]
fn a_removed_file_is_tracked_no_longer() {
    let mut tracker = Tracker::new();
    tracker.add_file(s("/p/a.png"));
    tracker.add_file(s("/p/b.png"));
    tracker.add_file(s("/p/a.png"));
    tracker.remove_file(&s("/p/a.png"));
    assert_eq!(tracker.files(), &strings(&["/p/b.png"]));
}

#[test]
fn removing_a_file_that_is_not_tracked_changes_nothing() {
    let mut tracker = Tracker::new();
    tracker.add_file(s("/p/a.png"));
    tracker.remove_file(&s("/p/notes.txt"));
    assert_eq!(tracker.files(), &strings(&["/p/a.png"]));
}

#[test]
fn a_renamed_file_keeps_its_place_under_the_new_name() {
    let mut tracker = Tracker::new();
    tracker.add_file(s("/p/a.png"));
    tracker.add_file(s("/p/b.png"));
    tracker.add_file(s("/p/c.png"));
    assert!(tracker.rename_file(&s("/p/b.png"), s("/p/z.png")));
    assert_eq!(tracker.files(), &strings(&["/p/a.png", "/p/z.png", "/p/c.png"]));
}

#[test]
fn a_rename_replaces_the_first_occurrence_only() {
    let mut tracker = Tracker::new();
    tracker.add_file(s("/p/a.png"));
    tracker.add_file(s("/p/a.png"));
    assert!(tracker.rename_file(&s("/p/a.png"), s("/p/b.png")));
    assert_eq!(tracker.files(), &strings(&["/p/b.png", "/p/a.png"]));
}

#[test]
fn renaming_a_file_that_is_not_tracked_changes_nothing() {
    let mut tracker = Tracker::new();
    tracker.add_file(s("/p/a.png"));
    assert!(!tracker.rename_file(&s("/p/notes.txt"), s("/p/notes.bak")));
    assert_eq!(tracker.files(), &strings(&["/p/a.png"]));
}

#[test]
fn a_modified_file_gets_a_new_thumbnail() {
    let mut tracker = Tracker::new();
    tracker.add_file(s("/p/a.png"));
    assert_eq!(
        tracker.invalidate_file_data(&s("/p/a.png")),
        Job::Thumbnail(s("/p/a.png"), 150)
    );
    assert_eq!(tracker.files(), &strings(&["/p/a.png"]));
}

#[test]
fn selecting_a_file_shows_it() {
    let mut tracker = Tracker::new();
    tracker.add_file(s("/p/a.png"));
    tracker.add_file(s("/p/b.png"));
    tracker.settle();
    tracker.select(s("/p/b.png"));
    assert_eq!(tracker.current(), &Some(s("/p/b.png")));
    assert_eq!(tracker.files(), &strings(&["/p/a.png", "/p/b.png"]));
}

#[test]
fn paths_of_which_neither_is_less_keep_their_order() {
    let files = strings(&["/p/b.png", "/p/a//x.png", "/p/a/x.png", "/p/a/./x.png"]);
    assert_eq!(
        sort_paths(&files),
        strings(&["/p/a//x.png", "/p/a/x.png", "/p/a/./x.png", "/p/b.png"])
    );
    let files = strings(&["/p/a/./x.png", "/p/b.png", "/p/a/x.png", "/p/a//x.png"]);
    assert_eq!(
        sort_paths(&files),
        strings(&["/p/a/./x.png", "/p/a/x.png", "/p/a//x.png", "/p/b.png"])
    );
}

use imview::error::{DecodeError, DecodeStage};
use imview::events::{FileEvent, FileSystemEvent, InternalFSEvent, OperationEvent};
use imview::funnel::forward;
use imview::pixels::PixelBuffer;
use imview::resolver::Resolution;
use imview::service::{
    plan_start, pool_size, read_file, read_thumbnail, start, start_notify, Job, Watch,
    DEBOUNCE_SECONDS, MAX_POOL_THREADS,
};

fn s(text: &str) -> String {
    text.to_string()
}

fn solid(width: u32, height: u32, pixel: [u8; 4]) -> PixelBuffer {
    let mut data = Vec::new();
    for _ in 0..(width as usize * height as usize) {
        data.extend_from_slice(&pixel);
    }
    PixelBuffer::from_raw(width, height, data).unwrap()
}

#[test]
fn a_pool_has_one_thread_per_core_up_to_four() {
    assert_eq!(pool_size(1), 1);
    assert_eq!(pool_size(2), 2);
    assert_eq!(pool_size(3), 3);
    assert_eq!(pool_size(4), 4);
    assert_eq!(pool_size(5), 4);
    assert_eq!(pool_size(64), 4);
    assert_eq!(pool_size(usize::MAX), 4);
    assert_eq!(MAX_POOL_THREADS, 4);
}

#[test]
fn the_watch_is_flat_and_debounced() {
    assert_eq!(
        start_notify(s("/photos")),
        Watch { directory: s("/photos"), recursive: false, debounce_seconds: 10 }
    );
    assert_eq!(DEBOUNCE_SECONDS, 10);
}

#[test]
fn start_with_a_root_watches_it_and_announces_the_files() {
    let resolution =
        Resolution { root: Some(s("/photos")), files: vec![s("/photos/a.png"), s("/photos/b.png")] };
    let startup = plan_start(resolution, 8);
    assert_eq!(
        startup.watch,
        Some(Watch { directory: s("/photos"), recursive: false, debounce_seconds: 10 })
    );
    assert_eq!(startup.thumbnail_threads, 4);
    assert_eq!(startup.image_threads, 4);
    assert_eq!(
        startup.initial,
        vec![
            FileSystemEvent::FileEvent(FileEvent::Added(s("/photos/a.png"))),
            FileSystemEvent::FileEvent(FileEvent::Added(s("/photos/b.png"))),
        ]
    );
}

#[test]
fn start_without_a_root_watches_nothing() {
    let resolution = Resolution { root: None, files: vec![s("/a/x.png"), s("/b/y.png")] };
    let startup = plan_start(resolution, 2);
    assert_eq!(startup.watch, None);
    assert_eq!(startup.thumbnail_threads, 2);
    assert_eq!(startup.image_threads, 2);
    assert_eq!(
        startup.initial,
        vec![
            FileSystemEvent::FileEvent(FileEvent::Added(s("/a/x.png"))),
            FileSystemEvent::FileEvent(FileEvent::Added(s("/b/y.png"))),
        ]
    );
}

#[test]
fn start_on_this_machine_has_between_one_and_four_threads_per_pool() {
    let startup = start(Resolution { root: None, files: Vec::new() });
    assert!(1 <= startup.thumbnail_threads && startup.thumbnail_threads <= 4);
    assert_eq!(startup.image_threads, startup.thumbnail_threads);
    assert_eq!(startup.watch, None);
    assert!(startup.initial.is_empty());
}

#[test]
fn submissions_become_jobs() {
    assert_eq!(read_file("/a/x.png"), Job::Image(s("/a/x.png")));
    assert_eq!(read_thumbnail("/a/x.png", 150), Job::Thumbnail(s("/a/x.png"), 150));
    assert_eq!(read_file("/a/x.png").path(), "/a/x.png");
    assert_eq!(read_thumbnail("/a/y.png", 1).path(), "/a/y.png");
}

#[test]
fn a_full_image_job_reports_the_image_unchanged() {
    let image = solid(3, 2, [1, 2, 3, 4]);
    assert_eq!(
        read_file("/a/x.png").complete(Ok(image.clone())),
        InternalFSEvent::Op(OperationEvent::ImageLoaded((s("/a/x.png"), Ok(image))))
    );
}

#[test]
fn reading_a_missing_file_gives_one_image_loaded_with_the_error() {
    let error = DecodeError { stage: DecodeStage::Open, message: s("No such file or directory") };
    let posted = read_file("/nowhere/x.png").complete(Err(error.clone()));
    assert_eq!(
        forward(posted),
        Some(FileSystemEvent::OperationEvent(OperationEvent::ImageLoaded((
            s("/nowhere/x.png"),
            Err(error)
        ))))
    );
}

#[test]
fn a_thumbnail_job_reports_the_scaled_image() {
    let posted = read_thumbnail("/a/x.png", 150).complete(Ok(solid(400, 300, [7, 7, 7, 255])));
    match posted {
        InternalFSEvent::Op(OperationEvent::ThumbnailLoaded((path, Ok(thumbnail)))) => {
            assert_eq!(path, "/a/x.png");
            assert_eq!(thumbnail.dimensions(), (150, 112));
            assert_eq!(thumbnail.width().max(thumbnail.height()), 150);
            assert!(thumbnail.as_raw().chunks(4).all(|p| p == [7, 7, 7, 255]));
        }
        other => panic!("unexpected event: {:?}", other),
    }
}

#[test]
fn a_thumbnail_job_reports_the_decoders_error_as_it_is() {
    let error = DecodeError { stage: DecodeStage::Decode, message: s("not a PNG") };
    assert_eq!(
        read_thumbnail("/a/x.png", 150).complete(Err(error.clone())),
        InternalFSEvent::Op(OperationEvent::ThumbnailLoaded((s("/a/x.png"), Err(error))))
    );
}

#[test]
fn a_thumbnail_job_reports_an_image_it_cannot_scale() {
    let huge = PixelBuffer::from_raw(4097, 4097, vec![0; 4 * 4097 * 4097]).unwrap();
    let posted = read_thumbnail("/a/huge.png", 1).complete(Ok(huge));
    match posted {
        InternalFSEvent::Op(OperationEvent::ThumbnailLoaded((path, Err(error)))) => {
            assert_eq!(path, "/a/huge.png");
            assert_eq!(error.stage, DecodeStage::Resize);
        }
        other => panic!("unexpected event: {:?}", other),
    }
}

#[test]
fn two_submissions_for_one_path_give_two_events() {
    let first = read_file("/a/x.png");
    let second = read_file("/a/x.png");
    let error = DecodeError { stage: DecodeStage::Decode, message: s("truncated") };
    let image = solid(1, 1, [1, 1, 1, 1]);
    let events = vec![
        forward(first.complete(Ok(image.clone()))),
        forward(second.complete(Err(error.clone()))),
    ];
    assert_eq!(
        events,
        vec![
            Some(FileSystemEvent::OperationEvent(OperationEvent::ImageLoaded((
                s("/a/x.png"),
                Ok(image)
            )))),
            Some(FileSystemEvent::OperationEvent(OperationEvent::ImageLoaded((
                s("/a/x.png"),
                Err(error)
            )))),
        ]
    );
}

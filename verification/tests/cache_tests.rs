use audio_pipeline::cache::{drain_latest, keep_latest, DrainReport, LatestFrameCache};
use audio_pipeline::channel::frame_channel;
use audio_pipeline::sample::{Sample, SampleWindow};

fn s(value: f32) -> Sample {
    Sample::from_bits(value.to_bits())
}

fn window(value: f32) -> SampleWindow<3> {
    SampleWindow::from_array([s(value), s(value * 2.0), s(value * 3.0)])
}

#[test]
fn new_cache_holds_silence() {
    let (_tx, rx) = frame_channel::<3>(None).unwrap();
    let cache = LatestFrameCache::new(rx);
    assert!(cache.latest_window().is_silent());
}

#[test]
fn refresh_with_nothing_sent_changes_nothing() {
    let (_tx, rx) = frame_channel::<3>(None).unwrap();
    let mut cache = LatestFrameCache::new(rx);
    cache.observe(window(1.0));
    let report = cache.refresh();
    assert_eq!(report, DrainReport { waiting: 0, taken: 0 });
    assert_eq!(cache.latest_window(), window(1.0));
}

#[test]
fn refresh_keeps_the_most_recent_window() {
    let (tx, rx) = frame_channel::<3>(None).unwrap();
    let mut cache = LatestFrameCache::new(rx);
    assert!(tx.send(window(1.0)));
    assert!(tx.send(window(2.0)));
    assert!(tx.send(window(3.0)));
    let report = cache.refresh();
    assert_eq!(report, DrainReport { waiting: 3, taken: 3 });
    assert_eq!(cache.latest_window(), window(3.0));
    let report = cache.refresh();
    assert_eq!(report, DrainReport { waiting: 0, taken: 0 });
    assert_eq!(cache.latest_window(), window(3.0));
}

#[test]
fn later_refresh_never_shows_an_older_window() {
    let (tx, rx) = frame_channel::<3>(None).unwrap();
    let mut cache = LatestFrameCache::new(rx);
    let mut shown = Vec::new();
    let mut next = 1;
    for burst in [1usize, 0, 4, 2, 0, 7] {
        for _ in 0..burst {
            assert!(tx.send(window(next as f32)));
            next += 1;
        }
        cache.refresh();
        shown.push(cache.latest_window());
    }
    let expected: Vec<SampleWindow<3>> =
        [1.0f32, 1.0, 5.0, 7.0, 7.0, 14.0].iter().map(|v| window(*v)).collect();
    assert_eq!(shown, expected);
}

#[test]
fn bounded_refresh_keeps_the_last_accepted_window() {
    let (tx, rx) = frame_channel::<3>(Some(2)).unwrap();
    let mut cache = LatestFrameCache::new(rx);
    assert!(tx.send(window(1.0)));
    assert!(tx.send(window(2.0)));
    assert!(!tx.send(window(3.0)));
    let report = cache.refresh();
    assert_eq!(report.taken, 2);
    assert_eq!(cache.latest_window(), window(2.0));
}

#[test]
fn capacity_one_shows_first_then_third() {
    let (tx, rx) = frame_channel::<3>(Some(1)).unwrap();
    let mut cache = LatestFrameCache::new(rx);
    assert!(tx.send(window(1.0)));
    assert!(!tx.send(window(2.0)));
    cache.refresh();
    assert_eq!(cache.latest_window(), window(1.0));
    assert!(tx.send(window(3.0)));
    cache.refresh();
    assert_eq!(cache.latest_window(), window(3.0));
    cache.refresh();
    assert_eq!(cache.latest_window(), window(3.0));
}

#[test]
fn observe_replaces_the_window() {
    let (_tx, rx) = frame_channel::<3>(None).unwrap();
    let mut cache = LatestFrameCache::new(rx);
    cache.observe(window(4.0));
    assert_eq!(cache.latest_window(), window(4.0));
    cache.observe(window(2.0));
    assert_eq!(cache.latest_window(), window(2.0));
}

#[test]
fn absorb_keeps_the_last_of_a_batch() {
    let (_tx, rx) = frame_channel::<3>(None).unwrap();
    let mut cache = LatestFrameCache::new(rx);
    cache.absorb(&[window(1.0), window(2.0), window(3.0)]);
    assert_eq!(cache.latest_window(), window(3.0));
    cache.absorb(&[]);
    assert_eq!(cache.latest_window(), window(3.0));
    cache.absorb(&[window(9.0)]);
    assert_eq!(cache.latest_window(), window(9.0));
}

#[test]
fn absorbing_in_two_parts_equals_absorbing_at_once() {
    let (_tx, rx) = frame_channel::<3>(None).unwrap();
    let mut split = LatestFrameCache::new(rx);
    let (_tx, rx) = frame_channel::<3>(None).unwrap();
    let mut whole = LatestFrameCache::new(rx);
    split.absorb(&[window(1.0), window(2.0)]);
    split.absorb(&[window(3.0), window(4.0)]);
    whole.absorb(&[window(1.0), window(2.0), window(3.0), window(4.0)]);
    assert_eq!(split.latest_window(), whole.latest_window());
}

#[test]
fn drain_latest_reports_what_it_took() {
    let (tx, rx) = frame_channel::<3>(None).unwrap();
    let mut latest = window(0.5);
    assert_eq!(drain_latest(&rx, &mut latest), DrainReport { waiting: 0, taken: 0 });
    assert_eq!(latest, window(0.5));
    assert!(tx.send(window(1.0)));
    assert!(tx.send(window(2.0)));
    assert_eq!(drain_latest(&rx, &mut latest), DrainReport { waiting: 2, taken: 2 });
    assert_eq!(latest, window(2.0));
    assert_eq!(rx.try_recv(), None);
}

#[test]
fn keep_latest_takes_a_window_and_ignores_none() {
    let mut latest = window(1.0);
    assert!(!keep_latest(&mut latest, None));
    assert_eq!(latest, window(1.0));
    assert!(keep_latest(&mut latest, Some(window(2.0))));
    assert_eq!(latest, window(2.0));
    assert!(keep_latest(&mut latest, Some(window(2.0))));
    assert_eq!(latest, window(2.0));
}

use audio_pipeline::channel::{frame_channel, FrameReceiver};
use audio_pipeline::decoder::{DecodedFrame, DecodedTrack, FrameFault, OpenProbe, TrackInfo};
use audio_pipeline::playback::{PlaybackCallback, RenderReport};
use audio_pipeline::sample::{Sample, SampleWindow};

fn s(value: f32) -> Sample {
    Sample::from_bits(value.to_bits())
}

const Z: f32 = 0.0;

fn buffer(values: &[f32]) -> Vec<Sample> {
    values.iter().map(|v| s(*v)).collect()
}

/// A track of `n` pairs: pair `i` is (i + 1, -(i + 1)).
fn track_of(n: usize, ended: bool) -> DecodedTrack {
    let pairs = (1..=n).map(|i| (s(i as f32), s(-(i as f32)))).collect();
    let frame = DecodedFrame { info: TrackInfo { sample_rate: 44100, channels: 2 }, pairs };
    let mut track =
        DecodedTrack::open(OpenProbe::Stream { byte_len: 1044, first: Ok(frame) }).unwrap();
    if ended {
        track.finish();
    }
    track
}

fn callback<const N: usize>(
    pairs: usize,
    ended: bool,
    channels: u16,
) -> (PlaybackCallback<N>, FrameReceiver<N>) {
    let (tx, rx) = frame_channel::<N>(None).unwrap();
    (PlaybackCallback::new(track_of(pairs, ended), channels, tx).unwrap(), rx)
}

#[test]
fn callback_needs_a_channel() {
    let (tx, _rx) = frame_channel::<4>(None).unwrap();
    assert!(PlaybackCallback::new(track_of(1, true), 0, tx).is_none());
    let (tx, _rx) = frame_channel::<4>(None).unwrap();
    let made = PlaybackCallback::new(track_of(1, true), 1, tx).unwrap();
    assert_eq!(made.channels(), 1);
    assert!(made.latest_window().is_silent());
}

#[test]
fn ten_pairs_through_buffers_of_four_frames() {
    let (mut cb, _rx) = callback::<8>(10, true, 2);
    let mut out = buffer(&[9.0; 8]);

    let report = cb.render(&mut out);
    assert_eq!(out, buffer(&[1.0, -1.0, 2.0, -2.0, 3.0, -3.0, 4.0, -4.0]));
    assert_eq!(report, RenderReport { pairs: 4, starved: false, accepted: true });

    let report = cb.render(&mut out);
    assert_eq!(out, buffer(&[5.0, -5.0, 6.0, -6.0, 7.0, -7.0, 8.0, -8.0]));
    assert_eq!(report, RenderReport { pairs: 4, starved: false, accepted: true });

    let report = cb.render(&mut out);
    assert_eq!(out, buffer(&[9.0, -9.0, 10.0, -10.0, Z, Z, Z, Z]));
    assert_eq!(report, RenderReport { pairs: 2, starved: false, accepted: true });

    for _ in 0..3 {
        let report = cb.render(&mut out);
        assert_eq!(out, buffer(&[Z; 8]));
        assert_eq!(report, RenderReport { pairs: 0, starved: false, accepted: true });
    }
}

#[test]
fn ten_pairs_through_mono_buffers_of_four() {
    let (mut cb, _rx) = callback::<4>(10, true, 1);
    let mut out = buffer(&[9.0; 4]);
    cb.render(&mut out);
    assert_eq!(out, buffer(&[1.0, 2.0, 3.0, 4.0]));
    cb.render(&mut out);
    assert_eq!(out, buffer(&[5.0, 6.0, 7.0, 8.0]));
    cb.render(&mut out);
    assert_eq!(out, buffer(&[9.0, 10.0, Z, Z]));
    cb.render(&mut out);
    assert_eq!(out, buffer(&[Z, Z, Z, Z]));
    cb.render(&mut out);
    assert_eq!(out, buffer(&[Z, Z, Z, Z]));
}

#[test]
fn channels_beyond_the_second_are_left_alone_while_pairs_last() {
    let (mut cb, _rx) = callback::<4>(2, true, 4);
    let mut out = buffer(&[9.0; 12]);
    let report = cb.render(&mut out);
    assert_eq!(
        out,
        buffer(&[1.0, -1.0, 9.0, 9.0, 2.0, -2.0, 9.0, 9.0, Z, Z, Z, Z])
    );
    assert_eq!(report.pairs, 2);
}

#[test]
fn a_partial_last_frame_takes_a_pair_too() {
    let (mut cb, _rx) = callback::<4>(3, true, 2);
    let mut out = buffer(&[9.0; 3]);
    let report = cb.render(&mut out);
    assert_eq!(out, buffer(&[1.0, -1.0, 2.0]));
    assert_eq!(report.pairs, 2);
    let report = cb.render(&mut out);
    assert_eq!(out, buffer(&[3.0, -3.0, Z]));
    assert_eq!(report.pairs, 1);
}

#[test]
fn an_empty_buffer_takes_nothing() {
    let (mut cb, rx) = callback::<4>(3, true, 2);
    let mut out: Vec<Sample> = Vec::new();
    let report = cb.render(&mut out);
    assert_eq!(report, RenderReport { pairs: 0, starved: false, accepted: true });
    assert_eq!(rx.try_recv(), Some(SampleWindow::silent()));
    let mut out = buffer(&[9.0; 2]);
    cb.render(&mut out);
    assert_eq!(out, buffer(&[1.0, -1.0]));
}

#[test]
fn a_dry_track_whose_stream_goes_on_is_starved() {
    let (mut cb, _rx) = callback::<4>(1, false, 2);
    let mut out = buffer(&[9.0; 4]);
    let report = cb.render(&mut out);
    assert_eq!(out, buffer(&[1.0, -1.0, Z, Z]));
    assert_eq!(report, RenderReport { pairs: 1, starved: true, accepted: true });
    assert!(cb.feed(&[(s(7.0), s(8.0))]));
    let report = cb.render(&mut out);
    assert_eq!(out, buffer(&[7.0, 8.0, Z, Z]));
    assert!(report.starved);
    cb.finish();
    let report = cb.render(&mut out);
    assert_eq!(out, buffer(&[Z, Z, Z, Z]));
    assert!(!report.starved);
    assert!(!cb.feed(&[(s(1.0), s(1.0))]));
    cb.render(&mut out);
    assert_eq!(out, buffer(&[Z, Z, Z, Z]));
}

#[test]
fn the_window_mirrors_the_front_of_what_was_written() {
    let (mut cb, rx) = callback::<3>(4, true, 2);
    let mut out = buffer(&[9.0; 4]);
    cb.render(&mut out);
    let first = SampleWindow::from_array([s(1.0), s(-1.0), s(2.0)]);
    assert_eq!(cb.latest_window(), first);
    assert_eq!(rx.try_recv(), Some(first));
    assert_eq!(rx.try_recv(), None);
    cb.render(&mut out);
    let second = SampleWindow::from_array([s(3.0), s(-3.0), s(4.0)]);
    assert_eq!(rx.try_recv(), Some(second));
    cb.render(&mut out);
    assert_eq!(rx.try_recv(), Some(SampleWindow::silent()));
}

#[test]
fn a_buffer_shorter_than_the_window_overwrites_its_front_only() {
    let (mut cb, rx) = callback::<6>(4, true, 2);
    let mut long = buffer(&[9.0; 6]);
    cb.render(&mut long);
    let mut short = buffer(&[9.0; 2]);
    cb.render(&mut short);
    assert_eq!(
        rx.try_recv(),
        Some(SampleWindow::from_array([s(1.0), s(-1.0), s(2.0), s(-2.0), s(3.0), s(-3.0)]))
    );
    assert_eq!(
        rx.try_recv(),
        Some(SampleWindow::from_array([s(4.0), s(-4.0), s(2.0), s(-2.0), s(3.0), s(-3.0)]))
    );
}

#[test]
fn a_full_channel_drops_the_window_and_playback_goes_on() {
    let (tx, rx) = frame_channel::<2>(Some(1)).unwrap();
    let mut cb = PlaybackCallback::new(track_of(3, true), 2, tx).unwrap();
    let mut out = buffer(&[9.0; 2]);
    assert!(cb.render(&mut out).accepted);
    assert!(!cb.render(&mut out).accepted);
    assert_eq!(out, buffer(&[2.0, -2.0]));
    assert_eq!(rx.try_recv(), Some(SampleWindow::from_array([s(1.0), s(-1.0)])));
    assert!(cb.render(&mut out).accepted);
    assert_eq!(out, buffer(&[3.0, -3.0]));
    assert_eq!(rx.try_recv(), Some(SampleWindow::from_array([s(3.0), s(-3.0)])));
}

#[test]
fn pairs_wanted_counts_the_frames_still_uncovered() {
    let (mut cb, _rx) = callback::<4>(3, false, 2);
    assert_eq!(cb.pairs_wanted(0), 0);
    assert_eq!(cb.pairs_wanted(6), 0);
    assert_eq!(cb.pairs_wanted(7), 1);
    assert_eq!(cb.pairs_wanted(8), 1);
    assert_eq!(cb.pairs_wanted(9), 2);
    assert_eq!(cb.pairs_wanted(1024), 509);
    cb.finish();
    assert_eq!(cb.pairs_wanted(1024), 0);
}

#[test]
fn pairs_wanted_with_one_channel_and_a_huge_buffer() {
    let (cb, _rx) = callback::<4>(3, false, 1);
    assert_eq!(cb.pairs_wanted(usize::MAX), usize::MAX - 3);
    let (cb, _rx) = callback::<4>(3, false, 2);
    assert_eq!(cb.pairs_wanted(usize::MAX), usize::MAX / 2 + 1 - 3);
}

#[test]
fn supply_tops_the_track_up_until_nothing_is_wanted() {
    let (mut cb, _rx) = callback::<4>(1, false, 2);
    assert_eq!(cb.pairs_wanted(8), 3);
    cb.supply(Ok(&[(s(2.0), s(-2.0)), (s(3.0), s(-3.0))]));
    assert_eq!(cb.pairs_wanted(8), 1);
    cb.supply(Err(FrameFault::Truncated));
    assert_eq!(cb.pairs_wanted(8), 0);
    let mut out = buffer(&[9.0; 8]);
    let report = cb.render(&mut out);
    assert_eq!(out, buffer(&[1.0, -1.0, 2.0, -2.0, 3.0, -3.0, Z, Z]));
    assert_eq!(report, RenderReport { pairs: 3, starved: false, accepted: true });
}

#[test]
fn an_exhausted_track_plays_silence_from_then_on() {
    let (mut cb, _rx) = callback::<4>(2, true, 2);
    assert!(!cb.is_exhausted());
    let mut out = buffer(&[9.0; 4]);
    cb.render(&mut out);
    assert!(cb.is_exhausted());
    for _ in 0..5 {
        let mut out = buffer(&[9.0; 6]);
        let report = cb.render(&mut out);
        assert_eq!(out, buffer(&[Z; 6]));
        assert_eq!(report.pairs, 0);
        assert!(cb.is_exhausted());
    }
}

use audio_pipeline::claims::{ClaimError, DeviceClaims, Endpoint};
use audio_pipeline::decoder::{DecodedFrame, DecodedTrack, OpenProbe, TrackInfo};
use audio_pipeline::device::{DeviceDescriptor, Direction, SampleFormat, StreamConfig};
use audio_pipeline::player::{AudioPlayer, PlayerPhase};
use audio_pipeline::sample::Sample;
use audio_pipeline::stream::StreamId;

fn input(device: u32) -> Endpoint {
    Endpoint { device, direction: Direction::Input }
}

fn output(device: u32) -> Endpoint {
    Endpoint { device, direction: Direction::Output }
}

#[test]
fn new_record_has_no_live_stream() {
    let claims = DeviceClaims::new();
    assert_eq!(claims.live(), 0);
    assert_eq!(claims.holder(output(0)), None);
}

#[test]
fn handles_are_given_out_in_sequence() {
    let mut claims = DeviceClaims::new();
    assert_eq!(claims.claim(input(0)), Ok(StreamId { raw: 0 }));
    assert_eq!(claims.claim(output(0)), Ok(StreamId { raw: 1 }));
    assert_eq!(claims.claim(output(1)), Ok(StreamId { raw: 2 }));
    assert_eq!(claims.live(), 3);
    assert_eq!(claims.holder(input(0)), Some(StreamId { raw: 0 }));
    assert_eq!(claims.holder(output(0)), Some(StreamId { raw: 1 }));
    assert_eq!(claims.holder(output(1)), Some(StreamId { raw: 2 }));
    assert_eq!(claims.holder(input(1)), None);
}

#[test]
fn a_held_endpoint_cannot_be_claimed_again() {
    let mut claims = DeviceClaims::new();
    let first = claims.claim(output(3)).unwrap();
    assert_eq!(claims.claim(output(3)), Err(ClaimError::Busy { holder: first }));
    assert_eq!(claims.live(), 1);
    assert_eq!(claims.claim(input(3)), Ok(StreamId { raw: 1 }));
}

#[test]
fn a_released_endpoint_can_be_claimed_under_a_fresh_handle() {
    let mut claims = DeviceClaims::new();
    let first = claims.claim(output(3)).unwrap();
    assert!(claims.release(first));
    assert_eq!(claims.holder(output(3)), None);
    assert_eq!(claims.live(), 0);
    let second = claims.claim(output(3)).unwrap();
    assert_ne!(first, second);
    assert_eq!(second, StreamId { raw: 1 });
    assert_eq!(claims.holder(output(3)), Some(second));
    assert_eq!(claims.live(), 1);
}

#[test]
fn releasing_a_stream_that_is_not_live_changes_nothing() {
    let mut claims = DeviceClaims::new();
    assert!(!claims.release(StreamId { raw: 0 }));
    let first = claims.claim(output(3)).unwrap();
    assert!(!claims.release(StreamId { raw: 9 }));
    assert_eq!(claims.live(), 1);
    assert!(claims.release(first));
    assert!(!claims.release(first));
    assert_eq!(claims.live(), 0);
}

#[test]
fn release_keeps_the_other_claims() {
    let mut claims = DeviceClaims::new();
    let a = claims.claim(input(0)).unwrap();
    let b = claims.claim(output(0)).unwrap();
    let c = claims.claim(output(1)).unwrap();
    assert!(claims.release(b));
    assert_eq!(claims.live(), 2);
    assert_eq!(claims.holder(input(0)), Some(a));
    assert_eq!(claims.holder(output(0)), None);
    assert_eq!(claims.holder(output(1)), Some(c));
    assert!(claims.release(a));
    assert_eq!(claims.holder(output(1)), Some(c));
    assert!(claims.release(c));
    assert_eq!(claims.live(), 0);
}

#[test]
fn playing_the_same_file_twice_claims_the_output_once() {
    let speakers = DeviceDescriptor {
        id: 4,
        name: "speakers".to_string(),
        direction: Direction::Output,
        is_default: true,
        default_config: Some(StreamConfig {
            sample_rate: 44100,
            channels: 2,
            format: SampleFormat::F32,
        }),
    };
    let mut claims = DeviceClaims::new();
    let mut player = AudioPlayer::<4>::new(None).unwrap();
    let mut handles = Vec::new();
    for _ in 0..2 {
        let pairs = vec![(Sample::from_bits(1), Sample::from_bits(2))];
        let frame = DecodedFrame { info: TrackInfo { sample_rate: 44100, channels: 2 }, pairs };
        let opened = DecodedTrack::open(OpenProbe::Stream { byte_len: 8, first: Ok(frame) });
        let plan = player.play("same.mp3".to_string(), opened, &speakers);
        if let Some(gone) = plan.release {
            assert!(claims.release(gone));
        }
        assert!(plan.start.is_ok());
        let stream = claims.claim(output(speakers.id)).unwrap();
        player.stream_built(Some(stream)).unwrap();
        handles.push(stream);
        assert_eq!(claims.live(), 1);
        assert_eq!(claims.holder(output(speakers.id)), Some(stream));
    }
    assert_ne!(handles[0], handles[1]);
    assert_eq!(player.phase(), PlayerPhase::Playing { stream: handles[1] });
}

#[test]
fn building_before_releasing_is_refused() {
    let mut claims = DeviceClaims::new();
    let first = claims.claim(output(4)).unwrap();
    assert_eq!(claims.claim(output(4)), Err(ClaimError::Busy { holder: first }));
    assert!(claims.release(first));
    assert!(claims.claim(output(4)).is_ok());
}

#[test]
fn a_record_can_start_at_any_handle() {
    let mut claims = DeviceClaims::starting_at(40);
    assert_eq!(claims.live(), 0);
    assert_eq!(claims.claim(output(0)), Ok(StreamId { raw: 40 }));
    assert_eq!(claims.claim(input(0)), Ok(StreamId { raw: 41 }));
}

#[test]
fn no_handle_is_left_after_the_last_one() {
    let mut claims = DeviceClaims::starting_at(u64::MAX - 1);
    assert_eq!(claims.claim(output(0)), Ok(StreamId { raw: u64::MAX - 1 }));
    assert_eq!(claims.claim(output(1)), Err(ClaimError::Exhausted));
    assert_eq!(claims.live(), 1);
    assert_eq!(
        claims.claim(output(0)),
        Err(ClaimError::Busy { holder: StreamId { raw: u64::MAX - 1 } })
    );
    assert!(claims.release(StreamId { raw: u64::MAX - 1 }));
    assert_eq!(claims.claim(output(0)), Err(ClaimError::Exhausted));
    assert_eq!(claims.live(), 0);
}

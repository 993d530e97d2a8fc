use audio_pipeline::sample::{Sample, SampleWindow};

fn s(value: f32) -> Sample {
    Sample::from_bits(value.to_bits())
}

#[test]
fn silence_is_positive_zero() {
    assert_eq!(Sample::silence().to_bits(), 0);
    assert_eq!(f32::from_bits(Sample::silence().to_bits()), 0.0);
    assert!(Sample::silence().is_silence());
    assert!(!s(0.5).is_silence());
}

#[test]
fn sample_keeps_its_bits() {
    let x = s(-0.25);
    assert_eq!(x.to_bits(), (-0.25f32).to_bits());
    assert_eq!(f32::from_bits(x.to_bits()), -0.25);
    assert_eq!(Sample::from_bits(0x3f80_0000).to_bits(), 0x3f80_0000);
}

#[test]
fn silent_window_holds_n_zeros() {
    let w = SampleWindow::<500>::silent();
    assert_eq!(w.len(), 500);
    assert!(w.is_silent());
    for i in 0..500 {
        assert_eq!(w.get(i), Some(Sample::silence()));
    }
    assert_eq!(w.get(500), None);
}

#[test]
fn window_of_length_zero() {
    let mut w = SampleWindow::<0>::silent();
    assert_eq!(w.len(), 0);
    assert!(w.is_silent());
    assert_eq!(w.get(0), None);
    assert_eq!(w.fill_from(&[s(1.0), s(2.0)]), 0);
}

#[test]
fn from_array_keeps_the_samples() {
    let w = SampleWindow::<3>::from_array([s(0.1), s(0.2), s(0.3)]);
    assert_eq!(w.get(0), Some(s(0.1)));
    assert_eq!(w.get(1), Some(s(0.2)));
    assert_eq!(w.get(2), Some(s(0.3)));
    assert_eq!(w.get(3), None);
    assert!(!w.is_silent());
}

#[test]
fn fill_from_shorter_source_keeps_the_tail() {
    let mut w = SampleWindow::<4>::from_array([s(1.0), s(2.0), s(3.0), s(4.0)]);
    let copied = w.fill_from(&[s(9.0), s(8.0)]);
    assert_eq!(copied, 2);
    assert_eq!(w, SampleWindow::from_array([s(9.0), s(8.0), s(3.0), s(4.0)]));
}

#[test]
fn fill_from_longer_source_takes_its_front() {
    let mut w = SampleWindow::<2>::silent();
    let copied = w.fill_from(&[s(1.0), s(2.0), s(3.0)]);
    assert_eq!(copied, 2);
    assert_eq!(w, SampleWindow::from_array([s(1.0), s(2.0)]));
}

#[test]
fn fill_from_empty_source_changes_nothing() {
    let mut w = SampleWindow::<2>::from_array([s(1.0), s(2.0)]);
    assert_eq!(w.fill_from(&[]), 0);
    assert_eq!(w, SampleWindow::from_array([s(1.0), s(2.0)]));
}

#[test]
fn window_with_one_loud_sample_is_not_silent() {
    let mut samples = [Sample::silence(); 8];
    samples[7] = s(0.001);
    assert!(!SampleWindow::from_array(samples).is_silent());
}

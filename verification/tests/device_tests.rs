use audio_pipeline::device::{
    negotiate_config, DeviceCatalog, DeviceDescriptor, Direction, NoDeviceError, SampleFormat,
    StreamConfig, UnsupportedConfigError,
};

fn config(sample_rate: u32, channels: u16) -> StreamConfig {
    StreamConfig { sample_rate, channels, format: SampleFormat::F32 }
}

fn device(name: &str, direction: Direction, is_default: bool) -> DeviceDescriptor {
    DeviceDescriptor {
        id: name.len() as u32,
        name: name.to_string(),
        direction,
        is_default,
        default_config: Some(config(48000, 2)),
    }
}

fn catalog() -> DeviceCatalog {
    DeviceCatalog::new(vec![
        device("speakers", Direction::Output, false),
        device("webcam mic", Direction::Input, false),
        device("headphones", Direction::Output, true),
        device("line in", Direction::Input, true),
        device("usb mic", Direction::Input, true),
        device("hdmi", Direction::Output, true),
    ])
}

#[test]
fn input_devices_are_listed_in_catalog_order() {
    assert_eq!(catalog().list_input_devices(), vec![1, 3, 4]);
}

#[test]
fn empty_catalog_lists_nothing() {
    let empty = DeviceCatalog::new(Vec::new());
    assert_eq!(empty.list_input_devices(), Vec::<usize>::new());
}

#[test]
fn catalog_of_outputs_lists_no_input() {
    let outputs = DeviceCatalog::new(vec![device("speakers", Direction::Output, true)]);
    assert_eq!(outputs.list_input_devices(), Vec::<usize>::new());
}

#[test]
fn default_input_is_the_first_input_marked_default() {
    let catalog = catalog();
    let found = catalog.default_input_device().unwrap();
    assert_eq!(found.name, "line in");
    assert_eq!(found.id, 7);
    assert_eq!(found.direction, Direction::Input);
}

#[test]
fn default_output_is_the_first_output_marked_default() {
    let catalog = catalog();
    let found = catalog.default_output_device().unwrap();
    assert_eq!(found.name, "headphones");
}

#[test]
fn default_device_takes_the_direction_asked_for() {
    let catalog = catalog();
    assert_eq!(catalog.default_device(Direction::Input).unwrap().name, "line in");
    assert_eq!(catalog.default_device(Direction::Output).unwrap().name, "headphones");
}

#[test]
fn no_default_input_is_an_error() {
    let catalog = DeviceCatalog::new(vec![
        device("speakers", Direction::Output, true),
        device("mic", Direction::Input, false),
    ]);
    match catalog.default_input_device() {
        Ok(_) => panic!("found a default input"),
        Err(e) => assert_eq!(e, NoDeviceError { direction: Direction::Input }),
    }
}

#[test]
fn no_default_output_is_an_error() {
    let catalog = DeviceCatalog::new(vec![device("mic", Direction::Input, true)]);
    match catalog.default_output_device() {
        Ok(_) => panic!("found a default output"),
        Err(e) => assert_eq!(e, NoDeviceError { direction: Direction::Output }),
    }
}

#[test]
fn empty_catalog_has_no_default() {
    let catalog = DeviceCatalog::new(Vec::new());
    assert!(catalog.default_input_device().is_err());
    assert!(catalog.default_output_device().is_err());
}

#[test]
fn negotiation_gives_the_default_config() {
    let d = device("mic", Direction::Input, true);
    assert_eq!(negotiate_config(&d), Ok(config(48000, 2)));
}

#[test]
fn negotiation_keeps_the_sample_format() {
    let mut d = device("mic", Direction::Input, true);
    d.default_config =
        Some(StreamConfig { sample_rate: 8000, channels: 1, format: SampleFormat::I16 });
    assert_eq!(
        negotiate_config(&d),
        Ok(StreamConfig { sample_rate: 8000, channels: 1, format: SampleFormat::I16 })
    );
}

#[test]
fn negotiation_fails_without_a_default() {
    let mut d = device("mic", Direction::Input, true);
    d.default_config = None;
    assert_eq!(negotiate_config(&d), Err(UnsupportedConfigError::NoDefault));
}

#[test]
fn negotiation_fails_without_channels() {
    let mut d = device("mic", Direction::Input, true);
    d.default_config = Some(config(48000, 0));
    assert_eq!(negotiate_config(&d), Err(UnsupportedConfigError::NoChannels));
    d.default_config = Some(config(0, 0));
    assert_eq!(negotiate_config(&d), Err(UnsupportedConfigError::NoChannels));
}

#[test]
fn negotiation_fails_without_a_sample_rate() {
    let mut d = device("mic", Direction::Input, true);
    d.default_config = Some(config(0, 2));
    assert_eq!(negotiate_config(&d), Err(UnsupportedConfigError::NoSampleRate));
}

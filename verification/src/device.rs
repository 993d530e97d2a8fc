//! Device descriptors and the choice of devices and stream configurations.
//!
//! The driver is queried by the caller, once; what it reported is held here as
//! plain values, and the rules of selection are applied to those.

use vstd::prelude::*;

verus! {

/// Which way audio flows through a device.
#[derive(Clone, Copy, Debug, PartialEq, Eq, Structural)]
pub enum Direction {
    Input,
    Output,
}

/// How a device lays out one sample.
#[derive(Clone, Copy, Debug, PartialEq, Eq, Structural)]
pub enum SampleFormat {
    I16,
    U16,
    F32,
}

/// A stream configuration as negotiated with a device.
#[derive(Clone, Copy, Debug, PartialEq, Eq, Structural)]
pub struct StreamConfig {
    pub sample_rate: u32,
    pub channels: u16,
    pub format: SampleFormat,
}

/// What the driver reported of one audio endpoint.
#[derive(Debug)]
pub struct DeviceDescriptor {
    /// The caller's handle of the endpoint.
    pub id: u32,
    pub name: String,
    pub direction: Direction,
    /// Whether the system names this device as the default of its direction.
    pub is_default: bool,
    /// The configuration that the device offers by default, if it offers one.
    pub default_config: Option<StreamConfig>,
}

/// No default device of the wanted direction was found.
#[derive(Clone, Copy, Debug, PartialEq, Eq, Structural)]
pub struct NoDeviceError {
    pub direction: Direction,
}

/// Why a device has no configuration that a stream could be built on.
#[derive(Clone, Copy, Debug, PartialEq, Eq, Structural)]
pub enum UnsupportedConfigError {
    /// The device reports no default configuration.
    NoDefault,
    /// The default configuration has no channel.
    NoChannels,
    /// The default configuration has a sample rate of zero.
    NoSampleRate,
}

impl StreamConfig {
    /// Whether a stream can be built on this configuration: it has at least
    /// one channel and a sample rate above zero.
    pub open spec fn usable(self) -> bool {
        self.channels > 0 && self.sample_rate > 0
    }
}

impl DeviceDescriptor {
    /// Whether this is the default device of `direction`.
    pub open spec fn is_default_of(self, direction: Direction) -> bool {
        self.direction == direction && self.is_default
    }
}

/// The outcome of negotiating with `device`, as a value.
pub open spec fn negotiated(device: DeviceDescriptor) -> Result<
    StreamConfig,
    UnsupportedConfigError,
> {
    match device.default_config {
        None => Err(UnsupportedConfigError::NoDefault),
        Some(config) => if config.channels == 0 {
            Err(UnsupportedConfigError::NoChannels)
        } else if config.sample_rate == 0 {
            Err(UnsupportedConfigError::NoSampleRate)
        } else {
            Ok(config)
        },
    }
}

/// The configuration to build a stream on `device` with: its default one,
/// where it reports one that is usable.
pub fn negotiate_config(device: &DeviceDescriptor) -> (outcome: Result<
    StreamConfig,
    UnsupportedConfigError,
>)
    ensures
        outcome == negotiated(*device),
        outcome matches Ok(config) ==> config.usable(),
{
    match device.default_config {
        None => Err(UnsupportedConfigError::NoDefault),
        Some(config) => {
            if config.channels == 0 {
                Err(UnsupportedConfigError::NoChannels)
            } else if config.sample_rate == 0 {
                Err(UnsupportedConfigError::NoSampleRate)
            } else {
                Ok(config)
            }
        },
    }
}

/// The devices that the driver reported, in the order it reported them.
#[derive(Debug)]
pub struct DeviceCatalog {
    pub devices: Vec<DeviceDescriptor>,
}

impl DeviceCatalog {
    /// The positions of the input devices, in ascending order.
    pub open spec fn input_positions(self) -> Seq<usize> {
        Seq::new(self.devices@.len(), |i: int| i as usize).filter(
            |i: usize| self.devices@[i as int].direction == Direction::Input,
        )
    }

    /// Whether `position` holds the first default device of `direction`.
    pub open spec fn is_first_default(self, direction: Direction, position: int) -> bool {
        &&& 0 <= position < self.devices@.len()
        &&& self.devices@[position].is_default_of(direction)
        &&& forall|j: int| 0 <= j < position ==> !(#[trigger] self.devices@[j]).is_default_of(direction)
    }

    /// Whether the catalog holds a default device of `direction`.
    pub open spec fn has_default(self, direction: Direction) -> bool {
        exists|j: int|
            0 <= j < self.devices@.len() && (#[trigger] self.devices@[j]).is_default_of(direction)
    }

    /// A catalog of the devices reported.
    pub fn new(devices: Vec<DeviceDescriptor>) -> (catalog: DeviceCatalog)
        ensures
            catalog.devices@ == devices@,
    {
        DeviceCatalog { devices }
    }

    /// The positions in the catalog of all input devices, in catalog order.
    pub fn list_input_devices(&self) -> (positions: Vec<usize>)
        ensures
            positions@ == self.input_positions(),
    {
        let ghost all = Seq::new(self.devices@.len(), |i: int| i as usize);
        let ghost pred = |i: usize| self.devices@[i as int].direction == Direction::Input;
        let mut positions: Vec<usize> = Vec::new();
        let mut i: usize = 0;
        proof {
            reveal(Seq::filter);
            assert(all.take(0) =~= Seq::<usize>::empty());
        }
        while i < self.devices.len()
            invariant
                i <= self.devices@.len(),
                all == Seq::new(self.devices@.len(), |i: int| i as usize),
                pred == |i: usize| self.devices@[i as int].direction == Direction::Input,
                positions@ == all.take(i as int).filter(pred),
            decreases self.devices@.len() - i,
        {
            proof {
                reveal(Seq::filter);
                assert(all.take(i as int + 1).drop_last() =~= all.take(i as int));
                assert(all.take(i as int + 1).last() == i);
            }
            if self.devices[i].direction == Direction::Input {
                positions.push(i);
            }
            i += 1;
        }
        assert(all.take(self.devices@.len() as int) =~= all);
        positions
    }

    /// The first device in the catalog that is the default of `direction`.
    pub fn default_device(&self, direction: Direction) -> (found: Result<
        &DeviceDescriptor,
        NoDeviceError,
    >)
        ensures
            match found {
                Ok(device) => exists|p: int|
                    self.is_first_default(direction, p) && *device == #[trigger] self.devices@[p],
                Err(e) => !self.has_default(direction) && e.direction == direction,
            },
    {
        let mut i: usize = 0;
        while i < self.devices.len()
            invariant
                i <= self.devices@.len(),
                forall|j: int| 0 <= j < i ==> !(#[trigger] self.devices@[j]).is_default_of(direction),
            decreases self.devices@.len() - i,
        {
            let device = &self.devices[i];
            if device.direction == direction && device.is_default {
                assert(self.is_first_default(direction, i as int));
                return Ok(device);
            }
            i += 1;
        }
        Err(NoDeviceError { direction })
    }

    /// The default input device; an error where the catalog names none.
    pub fn default_input_device(&self) -> (found: Result<&DeviceDescriptor, NoDeviceError>)
        ensures
            match found {
                Ok(device) => exists|p: int|
                    self.is_first_default(Direction::Input, p) && *device
                        == #[trigger] self.devices@[p],
                Err(e) => !self.has_default(Direction::Input) && e.direction == Direction::Input,
            },
    {
        self.default_device(Direction::Input)
    }

    /// The default output device; an error where the catalog names none.
    pub fn default_output_device(&self) -> (found: Result<&DeviceDescriptor, NoDeviceError>)
        ensures
            match found {
                Ok(device) => exists|p: int|
                    self.is_first_default(Direction::Output, p) && *device
                        == #[trigger] self.devices@[p],
                Err(e) => !self.has_default(Direction::Output) && e.direction
                    == Direction::Output,
            },
    {
        self.default_device(Direction::Output)
    }
}

} // verus!

//! The core of a real-time audio pipeline.
//!
//! An input stream's callback copies what it reads into a fixed-size window,
//! an output stream's callback plays a decoded track and mirrors what it
//! writes into another, and each offers its window to a frame channel without
//! ever blocking. The display thread drains the channels at its own pace and
//! keeps the latest window of whichever session is active.
//!
//! The crate holds the rules of that pipeline and proves them: what a
//! callback writes, which window the display ends up with, when a session may
//! start and which stream has to go first. Talking to the audio driver,
//! reading files and decoding them is left to the caller, who hands plain
//! values in and gets decisions back.
//!
//! - [`sample`]: samples and windows.
//! - [`channel`]: the frame channel between a callback and the display.
//! - [`delivery`]: what order-preserving delivery means for the display.
//! - [`cache`]: the display's holder of the latest window.
//! - [`fault`]: stream faults and the channel that reports them.
//! - [`stream`]: stream handles and build errors.
//! - [`claims`]: which stream holds which device.
//! - [`device`]: device descriptors and their selection.
//! - [`decoder`]: the decoded track, a cursor over sample pairs.
//! - [`capture`]: the capture session and its callback.
//! - [`playback`]: the playback callback.
//! - [`player`]: the audio player, the control side of playback.
//! - [`display`]: the choice of the window to show.

pub mod sample;
pub mod channel;
pub mod delivery;
pub mod cache;
pub mod fault;
pub mod stream;
pub mod device;
pub mod claims;
pub mod decoder;
pub mod capture;
pub mod playback;
pub mod player;
pub mod display;

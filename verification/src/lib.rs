//! Verified core of a safe binding to the FluidLite SoundFont synthesizer.
//!
//! The synthesizer itself is a native component that is driven through
//! opaque handles and integer status codes.  This crate holds every decision
//! that the binding makes on those plain values: how status codes become
//! results, how log levels, setting hints and enumerations are coded, how
//! sample buffers are laid out for a write, how the iterators over loaded
//! fonts and tunings advance, and how names cross the boundary as
//! NUL-terminated byte strings.
//!
//! A handle is kept as the address of the native object, which is never
//! null.  Nothing in this crate follows such an address.
pub mod cstr;
pub mod font;
pub mod loader;
pub mod log;
pub mod private;
pub mod settings;
pub mod synth;
pub mod types;
pub mod version;

pub use crate::cstr::{find_nul, str_from_c_buffer, terminate, to_c_string};
pub use crate::font::{FontRef, PresetRef};
pub use crate::loader::{
    close_wrapper, open_wrapper, read_wrapper, seek_wrapper, tell_result, tell_wrapper, FileApi,
    Loader, SeekFrom, FLUID_FAILED, FLUID_OK, SEEK_CUR, SEEK_END, SEEK_SET,
};
pub use crate::log::{FnLogger, Level, Log, LogAction, LogLevel, LogLogger, Logger};
pub use crate::private::HasHandle;
pub use crate::settings::{Bound, Hints, IsSetting, Num, Range, Setting, Settings, SettingsRef};
pub use crate::synth::chorus::{ChorusMode, CHORUS_DEFAULT_N};
pub use crate::synth::font::{sfload_path, FontIter};
pub use crate::synth::gen::GenParam;
pub use crate::synth::params::{channel_selector, InterpMethod};
pub use crate::synth::tuning::{tune_len, TuningIter, TuningPhase, TuningStep};
pub use crate::synth::write::{IsSamples, Lane, Layout};
pub use crate::synth::Synth;
pub use crate::types::{
    option_from_ptr, result_from_ptr, Bank, Chan, Ctrl, Error, FontId, Key, PresetId, Prog,
    Status, Val, Vel,
};
pub use crate::version::Version;

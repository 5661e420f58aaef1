//! Configuration surface: the resolved options the pipeline runs with.
//!
//! Argument parsing itself is outside the library; a front end fills
//! [`CommandArgs`] and [`resolve`] checks it. Resolution is fatal-at-startup:
//! every missing or invalid required parameter is reported as a distinct
//! [`ConfigError`] before any sample is processed, and the unspecified output
//! format defaults to the input format.

use vstd::prelude::*;

verus! {

/// The two operating modes: a fixed operator-specified shift, or a shift
/// recomputed from a satellite's predicted Doppler.
#[derive(Clone, Copy, Debug, PartialEq, Eq, Structural)]
pub enum Mode {
    ConstMode,
    TrackMode,
}

/// Wire sample format of a stream, fixed once at start.
#[derive(Clone, Copy, Debug, PartialEq, Eq, Structural)]
pub enum DataType {
    F32,
    I16,
}

impl DataType {
    /// Bytes per complex sample on the wire.
    pub open spec fn sample_width_spec(self) -> int {
        match self {
            DataType::F32 => 8,
            DataType::I16 => 4,
        }
    }

    /// Bytes per complex sample on the wire: 4 for fixed point, 8 for
    /// floating point.
    pub fn sample_width(self) -> (w: usize)
        ensures
            w == self.sample_width_spec(),
    {
        match self {
            DataType::F32 => 8,
            DataType::I16 => 4,
        }
    }
}

/// Observer location on earth. Latitude and longitude are held in
/// microdegrees so the configuration stays in exact integers; altitude is in
/// meters.
#[derive(Clone, Copy, Debug, PartialEq, Eq, Structural)]
pub struct Location {
    pub lat_microdeg: i64,
    pub lon_microdeg: i64,
    pub alt_m: i32,
}

/// Options of the constant-shift mode.
pub struct ConstModeArgs {
    /// Frequency shift in Hz.
    pub shift: Option<i32>,
}

/// Options of the Doppler-tracking mode.
pub struct TrackModeArgs {
    /// Path of the TLE element file.
    pub tlefile: Option<String>,
    /// Satellite name to look up in the element file.
    pub tlename: Option<String>,
    /// Observer location.
    pub location: Option<Location>,
    /// Fixed start time (Unix seconds) when replaying a recorded stream;
    /// the current time is used when absent.
    pub time: Option<i64>,
    /// Satellite transmitter frequency in Hz.
    pub frequency: Option<u32>,
    /// Optional constant offset in Hz added to the computed Doppler shift.
    pub offset: Option<i32>,
}

/// Everything a front end hands the pipeline.
pub struct CommandArgs {
    pub mode: Option<Mode>,
    pub samplerate: Option<u32>,
    pub inputtype: Option<DataType>,
    pub outputtype: Option<DataType>,
    pub constargs: ConstModeArgs,
    pub trackargs: TrackModeArgs,
}

/// A missing or invalid required parameter, fatal at startup.
#[derive(Clone, Copy, Debug, PartialEq, Eq, Structural)]
pub enum ConfigError {
    MissingMode,
    MissingSampleRate,
    /// The sample rate must be a positive integer.
    InvalidSampleRate,
    MissingInputType,
    MissingShift,
    MissingTleFile,
    MissingTleName,
    MissingLocation,
    MissingFrequency,
}

/// Resolved constant-shift configuration. The shift is kept in milli-hertz,
/// the unit the mixer consumes.
pub struct ConstConfig {
    pub samplerate: u32,
    pub inputtype: DataType,
    pub outputtype: DataType,
    pub shift_mhz: i64,
}

/// Resolved tracking configuration. Offset is kept in milli-hertz.
pub struct TrackConfig {
    pub samplerate: u32,
    pub inputtype: DataType,
    pub outputtype: DataType,
    pub tlefile: String,
    pub tlename: String,
    pub location: Location,
    pub start_time: Option<i64>,
    pub carrier_hz: u32,
    pub offset_mhz: i64,
}

/// A fully resolved configuration, one variant per mode.
pub enum ResolvedConfig {
    Const(ConstConfig),
    Track(TrackConfig),
}

/// The parameters every mode requires: a mode, a positive sample rate and an
/// input format.
pub open spec fn common_args_ok(args: CommandArgs) -> bool {
    &&& args.mode is Some
    &&& args.samplerate is Some
    &&& args.samplerate->0 > 0
    &&& args.inputtype is Some
}

/// Whether the mode-specific required parameters are present.
pub open spec fn mode_args_ok(args: CommandArgs) -> bool {
    match args.mode {
        Some(Mode::ConstMode) => args.constargs.shift is Some,
        Some(Mode::TrackMode) => {
            &&& args.trackargs.tlefile is Some
            &&& args.trackargs.tlename is Some
            &&& args.trackargs.location is Some
            &&& args.trackargs.frequency is Some
        },
        None => false,
    }
}

/// The output format, defaulting to the input format when unspecified.
pub open spec fn resolved_outputtype(args: CommandArgs) -> DataType {
    match args.outputtype {
        Some(t) => t,
        None => args.inputtype->0,
    }
}

/// Check a filled-in argument set and resolve it into the configuration the
/// pipeline runs with. Fails, before any sample is processed, on exactly the
/// argument sets with a missing or invalid required parameter, and names the
/// first such parameter.
pub fn resolve(args: CommandArgs) -> (r: Result<ResolvedConfig, ConfigError>)
    ensures
        r is Ok <==> common_args_ok(args) && mode_args_ok(args),
        r matches Ok(ResolvedConfig::Const(c)) ==> {
            &&& args.mode == Some(Mode::ConstMode)
            &&& c.samplerate == args.samplerate->0
            &&& c.inputtype == args.inputtype->0
            &&& c.outputtype == resolved_outputtype(args)
            &&& c.shift_mhz == args.constargs.shift->0 * 1000
        },
        r matches Ok(ResolvedConfig::Track(t)) ==> {
            &&& args.mode == Some(Mode::TrackMode)
            &&& t.samplerate == args.samplerate->0
            &&& t.inputtype == args.inputtype->0
            &&& t.outputtype == resolved_outputtype(args)
            &&& t.tlefile == args.trackargs.tlefile->0
            &&& t.tlename == args.trackargs.tlename->0
            &&& t.location == args.trackargs.location->0
            &&& t.start_time == args.trackargs.time
            &&& t.carrier_hz == args.trackargs.frequency->0
            &&& t.offset_mhz == (match args.trackargs.offset {
                Some(o) => o * 1000,
                None => 0,
            })
        },
        r matches Ok(c) ==> (c is Const <==> args.mode == Some(Mode::ConstMode)),
        r == Err::<ResolvedConfig, ConfigError>(ConfigError::MissingMode) <==> args.mode is None,
        r == Err::<ResolvedConfig, ConfigError>(ConfigError::MissingSampleRate) <==> args.mode is Some
            && args.samplerate is None,
        r == Err::<ResolvedConfig, ConfigError>(ConfigError::InvalidSampleRate) <==> args.mode is Some
            && args.samplerate == Some(0u32),
        r == Err::<ResolvedConfig, ConfigError>(ConfigError::MissingInputType) <==> args.mode is Some
            && args.samplerate is Some && args.samplerate->0 > 0 && args.inputtype is None,
        r == Err::<ResolvedConfig, ConfigError>(ConfigError::MissingShift) <==> common_args_ok(args)
            && args.mode == Some(Mode::ConstMode) && args.constargs.shift is None,
        r == Err::<ResolvedConfig, ConfigError>(ConfigError::MissingTleFile) <==> common_args_ok(args)
            && args.mode == Some(Mode::TrackMode) && args.trackargs.tlefile is None,
        r == Err::<ResolvedConfig, ConfigError>(ConfigError::MissingTleName) <==> common_args_ok(args)
            && args.mode == Some(Mode::TrackMode) && args.trackargs.tlefile is Some
            && args.trackargs.tlename is None,
        r == Err::<ResolvedConfig, ConfigError>(ConfigError::MissingLocation) <==> common_args_ok(args)
            && args.mode == Some(Mode::TrackMode) && args.trackargs.tlefile is Some
            && args.trackargs.tlename is Some && args.trackargs.location is None,
        r == Err::<ResolvedConfig, ConfigError>(ConfigError::MissingFrequency) <==> common_args_ok(args)
            && args.mode == Some(Mode::TrackMode) && args.trackargs.tlefile is Some
            && args.trackargs.tlename is Some && args.trackargs.location is Some
            && args.trackargs.frequency is None,
{
    let mode = match args.mode {
        Some(m) => m,
        None => {
            return Err(ConfigError::MissingMode);
        },
    };
    let samplerate = match args.samplerate {
        Some(r) => r,
        None => {
            return Err(ConfigError::MissingSampleRate);
        },
    };
    if samplerate == 0 {
        return Err(ConfigError::InvalidSampleRate);
    }
    let inputtype = match args.inputtype {
        Some(t) => t,
        None => {
            return Err(ConfigError::MissingInputType);
        },
    };
    let outputtype = match args.outputtype {
        Some(t) => t,
        None => inputtype,
    };
    match mode {
        Mode::ConstMode => {
            let shift = match args.constargs.shift {
                Some(s) => s,
                None => {
                    return Err(ConfigError::MissingShift);
                },
            };
            Ok(ResolvedConfig::Const(ConstConfig {
                samplerate,
                inputtype,
                outputtype,
                shift_mhz: (shift as i64) * 1000,
            }))
        },
        Mode::TrackMode => {
            let tlefile = match args.trackargs.tlefile {
                Some(f) => f,
                None => {
                    return Err(ConfigError::MissingTleFile);
                },
            };
            let tlename = match args.trackargs.tlename {
                Some(n) => n,
                None => {
                    return Err(ConfigError::MissingTleName);
                },
            };
            let location = match args.trackargs.location {
                Some(l) => l,
                None => {
                    return Err(ConfigError::MissingLocation);
                },
            };
            let carrier_hz = match args.trackargs.frequency {
                Some(f) => f,
                None => {
                    return Err(ConfigError::MissingFrequency);
                },
            };
            let offset_mhz: i64 = match args.trackargs.offset {
                Some(o) => (o as i64) * 1000,
                None => 0,
            };
            Ok(ResolvedConfig::Track(TrackConfig {
                samplerate,
                inputtype,
                outputtype,
                tlefile,
                tlename,
                location,
                start_time: args.trackargs.time,
                carrier_hz,
                offset_mhz,
            }))
        },
    }
}

} // verus!

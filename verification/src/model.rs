//! The values that travel over the wire.
use crate::bounded::settings_copy;
use crate::bounded::stored_settings;
use crate::bounded::Settings;
use crate::error::Error;
use crate::single::Single;
use vstd::prelude::*;

verus! {

/// Largest frame, in bytes, that either side sends or expects.
pub const MAX_SERIAL_DATA_SIZE: usize = 256;

/// Five minutes, in seconds.
pub const DEFAULT_SLEEP_AFTER: u32 = 300;

/// USB vendor identifier of the device.
pub const VID: u16 = 0x1209;

/// USB product identifier of the device.
pub const PID: u16 = 0x2442;

/// The command of a frame.
#[derive(Debug, Copy, Clone, PartialEq, Eq, Structural)]
pub enum Msg {
    Ping,
    Pong,
    GetConfig,
    SaveConfig,
    GetStats,
    Stats,
    Config,
    Result,
    UploadConfig,
    Reload,
}

/// The pump or one of the three fans.
#[derive(Copy, Debug, Clone, PartialEq, Eq, Structural)]
pub enum Id {
    P1,
    F1,
    F2,
    F3,
}

/// A snapshot of the sensors: revolutions per minute and temperatures.
#[derive(Copy, Debug, Clone, PartialEq, Eq, Structural)]
pub struct Stats {
    pub pump1_rpm: Single,
    pub fan1_rpm: Single,
    pub fan2_rpm: Single,
    pub fan3_rpm: Single,
    pub liquid_temp: Single,
    pub ambient_temp: Single,
    pub liquid_out_temp: Single,
}

/// A control point of a curve: a temperature and the duty, in percent, at it.
pub type TempDuty = (Single, Single);

/// The curve of the pump or of one fan: four control points.
#[derive(Copy, Debug, Clone, PartialEq, Eq)]
pub struct FanSetting {
    pub id: Id,
    pub curve: [TempDuty; 4],
}

/// What the device answers to a request that carries no data back.
#[derive(Debug, Clone, Copy, PartialEq, Eq, Structural)]
pub enum Response {
    Okay,
    Error(Error),
}

/// Control by the distance of the liquid's temperature from the ambient one.
#[derive(Copy, Clone, Debug, PartialEq, Eq, Structural)]
pub struct SmartMode {
    /// Degrees above ambient at which the fans start.
    pub trigger_above_ambient: Single,
    /// Temperature at which the fans run at full speed.
    pub upper_temp: Single,
    /// Duty of the pump, in percent, while this mode is active.
    pub pump_duty: Single,
}

#[derive(Copy, Clone, Debug, PartialEq, Eq, Structural)]
pub enum SwitchMode {
    On,
    Off,
}

#[derive(Copy, Clone, Debug, PartialEq, Eq, Structural)]
pub struct GeneralConfig {
    /// Seconds without a ping after which the device may go to standby.
    pub sleep_after: u32,
    pub led: SwitchMode,
    pub buzzer: SwitchMode,
}

/// The whole configuration of the device.
#[derive(Debug, PartialEq)]
pub struct Config {
    pub general: GeneralConfig,
    /// `Some` while the smart mode governs the fans, `None` while the curves do.
    pub smart_mode: Option<SmartMode>,
    /// One curve for each of the pump and the fans.
    pub settings: Settings,
}

/// A configuration as a mathematical value: the stored settings as a sequence.
pub struct ConfigView {
    pub general: GeneralConfig,
    pub smart_mode: Option<SmartMode>,
    pub settings: Seq<FanSetting>,
}

impl View for Config {
    type V = ConfigView;

    open spec fn view(&self) -> ConfigView {
        ConfigView {
            general: self.general,
            smart_mode: self.smart_mode,
            settings: stored_settings(self.settings),
        }
    }
}

impl Clone for Config {
    fn clone(&self) -> (r: Config)
        ensures
            r@ == self@,
    {
        Config {
            general: self.general,
            smart_mode: self.smart_mode,
            settings: settings_copy(&self.settings),
        }
    }
}

/// The data of a frame, borrowed from the caller for encoding.
#[derive(Clone)]
pub enum DataRef<'a> {
    Config(&'a Config),
    Stats(&'a Stats),
    Result(&'a Response),
    Pong(&'a u32),
    Empty,
}

/// The data of a frame, owned, as decoding gives it.
#[derive(Debug, PartialEq)]
pub enum Data {
    Config(Config),
    Stats(Stats),
    Result(Response),
    Pong(u32),
    Empty,
}

/// The data of a frame as a mathematical value, the same for both forms.
pub enum DataView {
    Config(ConfigView),
    Stats(Stats),
    Result(Response),
    Pong(u32),
    Empty,
}

impl<'a> View for DataRef<'a> {
    type V = DataView;

    open spec fn view(&self) -> DataView {
        match *self {
            DataRef::Config(c) => DataView::Config(c@),
            DataRef::Stats(s) => DataView::Stats(*s),
            DataRef::Result(r) => DataView::Result(*r),
            DataRef::Pong(n) => DataView::Pong(*n),
            DataRef::Empty => DataView::Empty,
        }
    }
}

impl View for Data {
    type V = DataView;

    open spec fn view(&self) -> DataView {
        match *self {
            Data::Config(c) => DataView::Config(c@),
            Data::Stats(s) => DataView::Stats(s),
            Data::Result(r) => DataView::Result(r),
            Data::Pong(n) => DataView::Pong(n),
            Data::Empty => DataView::Empty,
        }
    }
}

} // verus!

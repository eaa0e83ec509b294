//! Host-side core of a water-cooling controller: the over-the-wire frame codec,
//! the configuration aggregate, and the decisions of the duty engine.
//!
//! Every value with a fractional part is an IEEE-754 single held by its bit
//! pattern ([`Single`]), so that frames are reproduced bit for bit and all
//! comparisons are decided on integers.
pub mod bounded;
pub mod config;
pub mod decode;
pub mod duty;
pub mod encode;
pub mod error;
pub mod home;
pub mod model;
pub mod otw;
pub mod round_trip;
pub mod serial;
pub mod single;
pub mod varint;
pub mod wire;

pub use bounded::Frame;
pub use bounded::Settings;
pub use duty::sane_ambient;
pub use duty::smart_duty_plan;
pub use duty::DutyPlan;
pub use error::Error;
pub use model::Config;
pub use model::Data;
pub use model::DataRef;
pub use model::FanSetting;
pub use model::GeneralConfig;
pub use model::Id;
pub use model::Msg;
pub use model::Response;
pub use model::SmartMode;
pub use model::Stats;
pub use model::SwitchMode;
pub use model::TempDuty;
pub use model::DEFAULT_SLEEP_AFTER;
pub use model::MAX_SERIAL_DATA_SIZE;
pub use model::PID;
pub use model::VID;
pub use otw::is_legal;
pub use otw::OTW;
pub use single::Single;
pub use wire::DataKind;
pub use serial::PortWithSerialNumber;
pub use home::HomeState;

//! The byte format of every value that travels in a frame.
//!
//! For each kind of value there is a function that gives its bytes and one
//! that reads it from the front of a byte sequence, giving the value and the
//! bytes that follow it. Fields follow each other without padding; an
//! enumeration is the tag of its variant; a number with a fractional part is
//! its four bytes, low byte first; an optional value is a byte 0, or a byte 1
//! and the value; a collection is its length and then its items.
use crate::error::Error;
use crate::model::ConfigView;
use crate::model::DataView;
use crate::model::FanSetting;
use crate::model::GeneralConfig;
use crate::model::Id;
use crate::model::Msg;
use crate::model::Response;
use crate::model::SmartMode;
use crate::model::Stats;
use crate::model::SwitchMode;
use crate::model::TempDuty;
use crate::single::Single;
use crate::varint::parse_u32;
use crate::varint::parse_u64;
use crate::varint::varint_bytes;
use vstd::prelude::*;

verus! {

/// The kind of data that a frame carries, whatever the data holds.
#[derive(Debug, Copy, Clone, PartialEq, Eq, Structural)]
pub enum DataKind {
    Config,
    Stats,
    Result,
    Pong,
    Empty,
}

impl Msg {
    /// Position of the command in the declaration, which is its tag on the wire.
    pub open spec fn tag(self) -> nat {
        match self {
            Msg::Ping => 0,
            Msg::Pong => 1,
            Msg::GetConfig => 2,
            Msg::SaveConfig => 3,
            Msg::GetStats => 4,
            Msg::Stats => 5,
            Msg::Config => 6,
            Msg::Result => 7,
            Msg::UploadConfig => 8,
            Msg::Reload => 9,
        }
    }

    /// The command with the given tag, if there is one.
    pub open spec fn of_tag(tag: nat) -> Option<Msg> {
        if tag == 0 {
            Some(Msg::Ping)
        } else if tag == 1 {
            Some(Msg::Pong)
        } else if tag == 2 {
            Some(Msg::GetConfig)
        } else if tag == 3 {
            Some(Msg::SaveConfig)
        } else if tag == 4 {
            Some(Msg::GetStats)
        } else if tag == 5 {
            Some(Msg::Stats)
        } else if tag == 6 {
            Some(Msg::Config)
        } else if tag == 7 {
            Some(Msg::Result)
        } else if tag == 8 {
            Some(Msg::UploadConfig)
        } else if tag == 9 {
            Some(Msg::Reload)
        } else {
            None
        }
    }

    /// The one kind of data that goes with the command.
    pub open spec fn kind(self) -> DataKind {
        match self {
            Msg::Ping | Msg::GetConfig | Msg::GetStats | Msg::SaveConfig | Msg::Reload => {
                DataKind::Empty
            },
            Msg::Pong => DataKind::Pong,
            Msg::Config | Msg::UploadConfig => DataKind::Config,
            Msg::Stats => DataKind::Stats,
            Msg::Result => DataKind::Result,
        }
    }

    /// The tag of the command on the wire.
    pub fn wire_tag(&self) -> (r: u32)
        ensures
            r == self.tag(),
    {
        match self {
            Msg::Ping => 0,
            Msg::Pong => 1,
            Msg::GetConfig => 2,
            Msg::SaveConfig => 3,
            Msg::GetStats => 4,
            Msg::Stats => 5,
            Msg::Config => 6,
            Msg::Result => 7,
            Msg::UploadConfig => 8,
            Msg::Reload => 9,
        }
    }

    /// The command with the given tag, `None` for a tag that no command has.
    pub fn from_wire_tag(tag: u32) -> (r: Option<Msg>)
        ensures
            r == Msg::of_tag(tag as nat),
    {
        match tag {
            0 => Some(Msg::Ping),
            1 => Some(Msg::Pong),
            2 => Some(Msg::GetConfig),
            3 => Some(Msg::SaveConfig),
            4 => Some(Msg::GetStats),
            5 => Some(Msg::Stats),
            6 => Some(Msg::Config),
            7 => Some(Msg::Result),
            8 => Some(Msg::UploadConfig),
            9 => Some(Msg::Reload),
            _ => None,
        }
    }

    /// The kind of data that follows the command in a frame.
    pub fn payload_kind(&self) -> (r: DataKind)
        ensures
            r == self.kind(),
    {
        match self {
            Msg::Config | Msg::UploadConfig => DataKind::Config,
            Msg::Stats => DataKind::Stats,
            Msg::Result => DataKind::Result,
            Msg::Pong => DataKind::Pong,
            Msg::Ping | Msg::GetConfig | Msg::GetStats | Msg::SaveConfig | Msg::Reload => {
                DataKind::Empty
            },
        }
    }
}

impl Id {
    /// Position of the identifier in the declaration, which is its tag on the wire.
    pub open spec fn tag(self) -> nat {
        match self {
            Id::P1 => 0,
            Id::F1 => 1,
            Id::F2 => 2,
            Id::F3 => 3,
        }
    }

    /// The identifier with the given tag, if there is one.
    pub open spec fn of_tag(tag: nat) -> Option<Id> {
        if tag == 0 {
            Some(Id::P1)
        } else if tag == 1 {
            Some(Id::F1)
        } else if tag == 2 {
            Some(Id::F2)
        } else if tag == 3 {
            Some(Id::F3)
        } else {
            None
        }
    }

    /// The tag of the identifier on the wire.
    pub fn wire_tag(&self) -> (r: u32)
        ensures
            r == self.tag(),
    {
        match self {
            Id::P1 => 0,
            Id::F1 => 1,
            Id::F2 => 2,
            Id::F3 => 3,
        }
    }

    /// The identifier with the given tag, `None` for a tag that no identifier has.
    pub fn from_wire_tag(tag: u32) -> (r: Option<Id>)
        ensures
            r == Id::of_tag(tag as nat),
    {
        match tag {
            0 => Some(Id::P1),
            1 => Some(Id::F1),
            2 => Some(Id::F2),
            3 => Some(Id::F3),
            _ => None,
        }
    }
}

impl SwitchMode {
    /// Tag on the wire: 0 for on, 1 for off.
    pub open spec fn tag(self) -> nat {
        match self {
            SwitchMode::On => 0,
            SwitchMode::Off => 1,
        }
    }

    /// The switch position with the given tag, if there is one.
    pub open spec fn of_tag(tag: nat) -> Option<SwitchMode> {
        if tag == 0 {
            Some(SwitchMode::On)
        } else if tag == 1 {
            Some(SwitchMode::Off)
        } else {
            None
        }
    }

    /// The tag of the switch position on the wire.
    pub fn wire_tag(&self) -> (r: u32)
        ensures
            r == self.tag(),
    {
        match self {
            SwitchMode::On => 0,
            SwitchMode::Off => 1,
        }
    }

    /// The switch position with the given tag, `None` for any tag but 0 and 1.
    pub fn from_wire_tag(tag: u32) -> (r: Option<SwitchMode>)
        ensures
            r == SwitchMode::of_tag(tag as nat),
    {
        match tag {
            0 => Some(SwitchMode::On),
            1 => Some(SwitchMode::Off),
            _ => None,
        }
    }
}

impl DataKind {
    /// Position of the kind in the declaration of the data, which is its tag on the wire.
    pub open spec fn tag(self) -> nat {
        match self {
            DataKind::Config => 0,
            DataKind::Stats => 1,
            DataKind::Result => 2,
            DataKind::Pong => 3,
            DataKind::Empty => 4,
        }
    }

    /// The tag of the kind of data on the wire.
    pub fn wire_tag(&self) -> (r: u32)
        ensures
            r == self.tag(),
    {
        match self {
            DataKind::Config => 0,
            DataKind::Stats => 1,
            DataKind::Result => 2,
            DataKind::Pong => 3,
            DataKind::Empty => 4,
        }
    }
}

impl DataView {
    /// The kind of the data.
    pub open spec fn kind(self) -> DataKind {
        match self {
            DataView::Config(_) => DataKind::Config,
            DataView::Stats(_) => DataKind::Stats,
            DataView::Result(_) => DataKind::Result,
            DataView::Pong(_) => DataKind::Pong,
            DataView::Empty => DataKind::Empty,
        }
    }

    /// Whether the data is such as an owned or borrowed value can hold: a
    /// configuration with at most four settings.
    pub open spec fn wf(self) -> bool {
        self matches DataView::Config(c) ==> c.settings.len() <= 4
    }
}

/// The four bytes of a single, low byte first.
pub open spec fn single_bytes(x: Single) -> Seq<u8> {
    seq![
        (x.bits % 0x100) as u8,
        (x.bits / 0x100 % 0x100) as u8,
        (x.bits / 0x1_0000 % 0x100) as u8,
        (x.bits / 0x100_0000) as u8,
    ]
}

/// The single in the first four bytes of `s`.
pub open spec fn parse_single(s: Seq<u8>) -> Option<(Single, Seq<u8>)> {
    if s.len() < 4 {
        None
    } else {
        Some(
            (
                Single {
                    bits: (s[0] + 0x100 * s[1] + 0x1_0000 * s[2] + 0x100_0000 * s[3]) as u32,
                },
                s.skip(4),
            ),
        )
    }
}

/// A control point: its temperature, then its duty.
pub open spec fn point_bytes(p: TempDuty) -> Seq<u8> {
    single_bytes(p.0) + single_bytes(p.1)
}

/// The control point at the front of `s`.
pub open spec fn parse_point(s: Seq<u8>) -> Option<(TempDuty, Seq<u8>)> {
    match parse_single(s) {
        Some((temp, s1)) => match parse_single(s1) {
            Some((duty, s2)) => Some(((temp, duty), s2)),
            None => None,
        },
        None => None,
    }
}

/// An identifier: its tag.
pub open spec fn id_bytes(id: Id) -> Seq<u8> {
    varint_bytes(id.tag())
}

/// The identifier at the front of `s`.
pub open spec fn parse_id(s: Seq<u8>) -> Option<(Id, Seq<u8>)> {
    match parse_u32(s) {
        Some((tag, rest)) => match Id::of_tag(tag) {
            Some(id) => Some((id, rest)),
            None => None,
        },
        None => None,
    }
}

/// A fan setting: its identifier, then its four control points in order.
pub open spec fn setting_bytes(f: FanSetting) -> Seq<u8> {
    id_bytes(f.id) + point_bytes(f.curve[0]) + point_bytes(f.curve[1]) + point_bytes(f.curve[2])
        + point_bytes(f.curve[3])
}

/// The fan setting at the front of `s`.
pub open spec fn parse_setting(s: Seq<u8>) -> Option<(FanSetting, Seq<u8>)> {
    match parse_id(s) {
        Some((id, s0)) => match parse_point(s0) {
            Some((p0, s1)) => match parse_point(s1) {
                Some((p1, s2)) => match parse_point(s2) {
                    Some((p2, s3)) => match parse_point(s3) {
                        Some((p3, s4)) => Some((FanSetting { id, curve: [p0, p1, p2, p3] }, s4)),
                        None => None,
                    },
                    None => None,
                },
                None => None,
            },
            None => None,
        },
        None => None,
    }
}

/// The settings one after the other.
pub open spec fn items_bytes(items: Seq<FanSetting>) -> Seq<u8>
    decreases items.len(),
{
    if items.len() == 0 {
        Seq::empty()
    } else {
        setting_bytes(items[0]) + items_bytes(items.skip(1))
    }
}

/// `count` settings from the front of `s`.
pub open spec fn parse_items(s: Seq<u8>, count: nat) -> Option<(Seq<FanSetting>, Seq<u8>)>
    decreases count,
{
    if count == 0 {
        Some((Seq::empty(), s))
    } else {
        match parse_setting(s) {
            Some((first, s1)) => match parse_items(s1, (count - 1) as nat) {
                Some((others, s2)) => Some((seq![first] + others, s2)),
                None => None,
            },
            None => None,
        }
    }
}

/// A collection of settings: how many there are, then each of them.
pub open spec fn settings_bytes(items: Seq<FanSetting>) -> Seq<u8> {
    varint_bytes(items.len()) + items_bytes(items)
}

/// A collection of at most four settings. The length is read as a 64-bit
/// value; a longer collection is refused whatever follows.
pub open spec fn parse_settings(s: Seq<u8>) -> Option<(Seq<FanSetting>, Seq<u8>)> {
    match parse_u64(s) {
        Some((count, rest)) => if count > 4 {
            None
        } else {
            parse_items(rest, count)
        },
        None => None,
    }
}

/// A smart mode: its three numbers in the order of their declaration.
pub open spec fn smart_bytes(m: SmartMode) -> Seq<u8> {
    single_bytes(m.trigger_above_ambient) + single_bytes(m.upper_temp) + single_bytes(m.pump_duty)
}

/// The smart mode at the front of `s`.
pub open spec fn parse_smart(s: Seq<u8>) -> Option<(SmartMode, Seq<u8>)> {
    match parse_single(s) {
        Some((trigger_above_ambient, s1)) => match parse_single(s1) {
            Some((upper_temp, s2)) => match parse_single(s2) {
                Some((pump_duty, s3)) => Some(
                    (SmartMode { trigger_above_ambient, upper_temp, pump_duty }, s3),
                ),
                None => None,
            },
            None => None,
        },
        None => None,
    }
}

/// An optional smart mode: a byte 0 for none, else a byte 1 and the smart mode.
pub open spec fn option_smart_bytes(m: Option<SmartMode>) -> Seq<u8> {
    match m {
        None => seq![0u8],
        Some(m) => seq![1u8] + smart_bytes(m),
    }
}

/// The optional smart mode at the front of `s`; a first byte above 1 is refused.
pub open spec fn parse_option_smart(s: Seq<u8>) -> Option<(Option<SmartMode>, Seq<u8>)> {
    if s.len() == 0 {
        None
    } else if s[0] == 0 {
        Some((None, s.skip(1)))
    } else if s[0] == 1 {
        match parse_smart(s.skip(1)) {
            Some((m, rest)) => Some((Some(m), rest)),
            None => None,
        }
    } else {
        None
    }
}

/// A switch position: its tag.
pub open spec fn switch_bytes(m: SwitchMode) -> Seq<u8> {
    varint_bytes(m.tag())
}

/// The switch position at the front of `s`.
pub open spec fn parse_switch(s: Seq<u8>) -> Option<(SwitchMode, Seq<u8>)> {
    match parse_u32(s) {
        Some((tag, rest)) => match SwitchMode::of_tag(tag) {
            Some(m) => Some((m, rest)),
            None => None,
        },
        None => None,
    }
}

/// The general settings: the time before standby, then the two switches.
pub open spec fn general_bytes(g: GeneralConfig) -> Seq<u8> {
    varint_bytes(g.sleep_after as nat) + switch_bytes(g.led) + switch_bytes(g.buzzer)
}

/// The general settings at the front of `s`.
pub open spec fn parse_general(s: Seq<u8>) -> Option<(GeneralConfig, Seq<u8>)> {
    match parse_u32(s) {
        Some((sleep_after, s1)) => match parse_switch(s1) {
            Some((led, s2)) => match parse_switch(s2) {
                Some((buzzer, s3)) => Some(
                    (GeneralConfig { sleep_after: sleep_after as u32, led, buzzer }, s3),
                ),
                None => None,
            },
            None => None,
        },
        None => None,
    }
}

/// A configuration: the general settings, the smart mode if any, the fan settings.
pub open spec fn config_bytes(c: ConfigView) -> Seq<u8> {
    general_bytes(c.general) + option_smart_bytes(c.smart_mode) + settings_bytes(c.settings)
}

/// The configuration at the front of `s`.
pub open spec fn parse_config(s: Seq<u8>) -> Option<(ConfigView, Seq<u8>)> {
    match parse_general(s) {
        Some((general, s1)) => match parse_option_smart(s1) {
            Some((smart_mode, s2)) => match parse_settings(s2) {
                Some((settings, s3)) => Some((ConfigView { general, smart_mode, settings }, s3)),
                None => None,
            },
            None => None,
        },
        None => None,
    }
}

/// A snapshot: its seven values in the order of their declaration.
pub open spec fn stats_bytes(t: Stats) -> Seq<u8> {
    single_bytes(t.pump1_rpm) + single_bytes(t.fan1_rpm) + single_bytes(t.fan2_rpm) + single_bytes(
        t.fan3_rpm,
    ) + single_bytes(t.liquid_temp) + single_bytes(t.ambient_temp) + single_bytes(
        t.liquid_out_temp,
    )
}

/// The snapshot at the front of `s`.
pub open spec fn parse_stats(s: Seq<u8>) -> Option<(Stats, Seq<u8>)> {
    match parse_single(s) {
        Some((pump1_rpm, s1)) => match parse_single(s1) {
            Some((fan1_rpm, s2)) => match parse_single(s2) {
                Some((fan2_rpm, s3)) => match parse_single(s3) {
                    Some((fan3_rpm, s4)) => match parse_single(s4) {
                        Some((liquid_temp, s5)) => match parse_single(s5) {
                            Some((ambient_temp, s6)) => match parse_single(s6) {
                                Some((liquid_out_temp, s7)) => Some(
                                    (
                                        Stats {
                                            pump1_rpm,
                                            fan1_rpm,
                                            fan2_rpm,
                                            fan3_rpm,
                                            liquid_temp,
                                            ambient_temp,
                                            liquid_out_temp,
                                        },
                                        s7,
                                    ),
                                ),
                                None => None,
                            },
                            None => None,
                        },
                        None => None,
                    },
                    None => None,
                },
                None => None,
            },
            None => None,
        },
        None => None,
    }
}

/// A response: tag 0 for success, or tag 1 and the tag of the failure kind.
pub open spec fn response_bytes(r: Response) -> Seq<u8> {
    match r {
        Response::Okay => varint_bytes(0),
        Response::Error(e) => varint_bytes(1) + varint_bytes(e.tag()),
    }
}

/// The response at the front of `s`.
pub open spec fn parse_response(s: Seq<u8>) -> Option<(Response, Seq<u8>)> {
    match parse_u32(s) {
        Some((tag, s1)) => if tag == 0 {
            Some((Response::Okay, s1))
        } else if tag == 1 {
            match parse_u32(s1) {
                Some((kind, s2)) => match Error::of_tag(kind) {
                    Some(e) => Some((Response::Error(e), s2)),
                    None => None,
                },
                None => None,
            }
        } else {
            None
        },
        None => None,
    }
}

/// The bytes of the data alone, without the tag of its kind.
pub open spec fn payload_bytes(d: DataView) -> Seq<u8> {
    match d {
        DataView::Config(c) => config_bytes(c),
        DataView::Stats(t) => stats_bytes(t),
        DataView::Result(r) => response_bytes(r),
        DataView::Pong(n) => varint_bytes(n as nat),
        DataView::Empty => Seq::empty(),
    }
}

/// Data of the given kind at the front of `s`; what follows it is ignored.
pub open spec fn parse_payload(kind: DataKind, s: Seq<u8>) -> Option<DataView> {
    match kind {
        DataKind::Config => match parse_config(s) {
            Some((c, _)) => Some(DataView::Config(c)),
            None => None,
        },
        DataKind::Stats => match parse_stats(s) {
            Some((t, _)) => Some(DataView::Stats(t)),
            None => None,
        },
        DataKind::Result => match parse_response(s) {
            Some((r, _)) => Some(DataView::Result(r)),
            None => None,
        },
        DataKind::Pong => match parse_u32(s) {
            Some((n, _)) => Some(DataView::Pong(n as u32)),
            None => None,
        },
        DataKind::Empty => Some(DataView::Empty),
    }
}

/// A frame: the tag of the command, the tag of the kind of data, the data.
pub open spec fn frame_of(msg: Msg, d: DataView) -> Seq<u8> {
    varint_bytes(msg.tag()) + varint_bytes(d.kind().tag()) + payload_bytes(d)
}

/// The command and data of the frame at the front of `s`. The command is read
/// from the first two bytes, the data of the command's kind from the third
/// byte on; the tag of the kind is not looked at.
pub open spec fn parse_frame(s: Seq<u8>) -> Option<(Msg, DataView)> {
    if s.len() < 2 {
        None
    } else {
        match parse_u32(s.take(2)) {
            Some((tag, _)) => match Msg::of_tag(tag) {
                Some(msg) => match parse_payload(msg.kind(), s.skip(2)) {
                    Some(d) => Some((msg, d)),
                    None => None,
                },
                None => None,
            },
            None => None,
        }
    }
}

} // verus!

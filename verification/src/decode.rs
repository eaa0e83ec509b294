//! Readers: each reads one value from the front of a byte slice and gives it
//! with the rest of the slice, or fails with `Deserialize`.
use crate::bounded::settings_new;
use crate::bounded::settings_push;
use crate::bounded::stored_settings;
use crate::error::Error;
use crate::model::Config;
use crate::model::Data;
use crate::model::FanSetting;
use crate::model::GeneralConfig;
use crate::model::Id;
use crate::model::Response;
use crate::model::SmartMode;
use crate::model::Stats;
use crate::model::SwitchMode;
use crate::model::TempDuty;
use crate::single::Single;
use crate::varint::u32_from_varint;
use crate::varint::u64_from_varint;
use crate::varint::parse_u64;
use crate::wire::parse_config;
use crate::wire::parse_general;
use crate::wire::parse_id;
use crate::wire::parse_items;
use crate::wire::parse_option_smart;
use crate::wire::parse_payload;
use crate::wire::parse_point;
use crate::wire::parse_response;
use crate::wire::parse_setting;
use crate::wire::parse_settings;
use crate::wire::parse_single;
use crate::wire::parse_smart;
use crate::wire::parse_stats;
use crate::wire::parse_switch;
use crate::wire::DataKind;
use vstd::prelude::*;
use vstd::slice::slice_subrange;

verus! {

pub(crate) fn take_single<'a>(s: &'a [u8]) -> (r: Result<(Single, &'a [u8]), Error>)
    ensures
        match r {
            Ok((x, rest)) => parse_single(s@) == Some((x, rest@)),
            Err(e) => parse_single(s@) is None && e == Error::Deserialize,
        },
{
    if s.len() < 4 {
        return Err(Error::Deserialize);
    }
    let b0: u32 = s[0] as u32;
    let b1: u32 = s[1] as u32;
    let b2: u32 = s[2] as u32;
    let b3: u32 = s[3] as u32;
    let bits: u32 = b0 + 0x100 * b1 + 0x1_0000 * b2 + 0x100_0000 * b3;
    let rest = slice_subrange(s, 4, s.len());
    assert(rest@ =~= s@.skip(4));
    Ok((Single { bits }, rest))
}

pub(crate) fn take_point<'a>(s: &'a [u8]) -> (r: Result<(TempDuty, &'a [u8]), Error>)
    ensures
        match r {
            Ok((p, rest)) => parse_point(s@) == Some((p, rest@)),
            Err(e) => parse_point(s@) is None && e == Error::Deserialize,
        },
{
    let (temp, s1) = take_single(s)?;
    let (duty, s2) = take_single(s1)?;
    Ok(((temp, duty), s2))
}

pub(crate) fn take_id<'a>(s: &'a [u8]) -> (r: Result<(Id, &'a [u8]), Error>)
    ensures
        match r {
            Ok((id, rest)) => parse_id(s@) == Some((id, rest@)),
            Err(e) => parse_id(s@) is None && e == Error::Deserialize,
        },
{
    let (tag, rest) = u32_from_varint(s)?;
    match Id::from_wire_tag(tag) {
        Some(id) => Ok((id, rest)),
        None => Err(Error::Deserialize),
    }
}

pub(crate) fn take_setting<'a>(s: &'a [u8]) -> (r: Result<(FanSetting, &'a [u8]), Error>)
    ensures
        match r {
            Ok((f, rest)) => parse_setting(s@) == Some((f, rest@)),
            Err(e) => parse_setting(s@) is None && e == Error::Deserialize,
        },
{
    let (id, s0) = take_id(s)?;
    let (p0, s1) = take_point(s0)?;
    let (p1, s2) = take_point(s1)?;
    let (p2, s3) = take_point(s2)?;
    let (p3, s4) = take_point(s3)?;
    Ok((FanSetting { id, curve: [p0, p1, p2, p3] }, s4))
}

pub(crate) fn take_settings<'a>(s: &'a [u8]) -> (r: Result<
    (heapless::Vec<FanSetting, 4>, &'a [u8]),
    Error,
>)
    ensures
        match r {
            Ok((settings, rest)) => parse_settings(s@) == Some(
                (stored_settings(settings), rest@),
            ),
            Err(e) => parse_settings(s@) is None && e == Error::Deserialize,
        },
{
    let (count, first) = u64_from_varint(s)?;
    if count > 4 {
        return Err(Error::Deserialize);
    }
    let mut settings = settings_new();
    let mut rest = first;
    let mut i: u64 = 0;
    while i < count
        invariant
            i <= count <= 4,
            parse_u64(s@) == Some((count as nat, first@)),
            stored_settings(settings).len() == i,
            parse_items(first@, count as nat) == match parse_items(rest@, (count - i) as nat) {
                Some((others, end)) => Some((stored_settings(settings) + others, end)),
                None => None,
            },
        decreases count - i,
    {
        let ghost before = stored_settings(settings);
        match take_setting(rest) {
            Ok((f, next)) => {
                match settings_push(&mut settings, f) {
                    Ok(()) => {},
                    Err(_) => {
                        assert(false);
                    },
                }
                proof {
                    match parse_items(next@, (count - i - 1) as nat) {
                        Some((others, end)) => {
                            assert(before + (seq![f] + others) =~= before.push(f) + others);
                        },
                        None => {},
                    }
                }
                rest = next;
                i += 1;
            },
            Err(e) => {
                return Err(e);
            },
        }
    }
    proof {
        assert(stored_settings(settings) + Seq::<FanSetting>::empty() =~= stored_settings(
            settings,
        ));
    }
    Ok((settings, rest))
}

pub(crate) fn take_smart<'a>(s: &'a [u8]) -> (r: Result<(SmartMode, &'a [u8]), Error>)
    ensures
        match r {
            Ok((m, rest)) => parse_smart(s@) == Some((m, rest@)),
            Err(e) => parse_smart(s@) is None && e == Error::Deserialize,
        },
{
    let (trigger_above_ambient, s1) = take_single(s)?;
    let (upper_temp, s2) = take_single(s1)?;
    let (pump_duty, s3) = take_single(s2)?;
    Ok((SmartMode { trigger_above_ambient, upper_temp, pump_duty }, s3))
}

pub(crate) fn take_option_smart<'a>(s: &'a [u8]) -> (r: Result<
    (Option<SmartMode>, &'a [u8]),
    Error,
>)
    ensures
        match r {
            Ok((m, rest)) => parse_option_smart(s@) == Some((m, rest@)),
            Err(e) => parse_option_smart(s@) is None && e == Error::Deserialize,
        },
{
    if s.len() == 0 {
        return Err(Error::Deserialize);
    }
    let marker = s[0];
    let after = slice_subrange(s, 1, s.len());
    assert(after@ =~= s@.skip(1));
    if marker == 0 {
        Ok((None, after))
    } else if marker == 1 {
        let (m, rest) = take_smart(after)?;
        Ok((Some(m), rest))
    } else {
        Err(Error::Deserialize)
    }
}

pub(crate) fn take_switch<'a>(s: &'a [u8]) -> (r: Result<(SwitchMode, &'a [u8]), Error>)
    ensures
        match r {
            Ok((m, rest)) => parse_switch(s@) == Some((m, rest@)),
            Err(e) => parse_switch(s@) is None && e == Error::Deserialize,
        },
{
    let (tag, rest) = u32_from_varint(s)?;
    match SwitchMode::from_wire_tag(tag) {
        Some(m) => Ok((m, rest)),
        None => Err(Error::Deserialize),
    }
}

pub(crate) fn take_general<'a>(s: &'a [u8]) -> (r: Result<(GeneralConfig, &'a [u8]), Error>)
    ensures
        match r {
            Ok((g, rest)) => parse_general(s@) == Some((g, rest@)),
            Err(e) => parse_general(s@) is None && e == Error::Deserialize,
        },
{
    let (sleep_after, s1) = u32_from_varint(s)?;
    let (led, s2) = take_switch(s1)?;
    let (buzzer, s3) = take_switch(s2)?;
    Ok((GeneralConfig { sleep_after, led, buzzer }, s3))
}

pub(crate) fn take_config<'a>(s: &'a [u8]) -> (r: Result<(Config, &'a [u8]), Error>)
    ensures
        match r {
            Ok((c, rest)) => parse_config(s@) == Some((c@, rest@)),
            Err(e) => parse_config(s@) is None && e == Error::Deserialize,
        },
{
    let (general, s1) = take_general(s)?;
    let (smart_mode, s2) = take_option_smart(s1)?;
    let (settings, s3) = take_settings(s2)?;
    Ok((Config { general, smart_mode, settings }, s3))
}

pub(crate) fn take_stats<'a>(s: &'a [u8]) -> (r: Result<(Stats, &'a [u8]), Error>)
    ensures
        match r {
            Ok((t, rest)) => parse_stats(s@) == Some((t, rest@)),
            Err(e) => parse_stats(s@) is None && e == Error::Deserialize,
        },
{
    let (pump1_rpm, s1) = take_single(s)?;
    let (fan1_rpm, s2) = take_single(s1)?;
    let (fan2_rpm, s3) = take_single(s2)?;
    let (fan3_rpm, s4) = take_single(s3)?;
    let (liquid_temp, s5) = take_single(s4)?;
    let (ambient_temp, s6) = take_single(s5)?;
    let (liquid_out_temp, s7) = take_single(s6)?;
    Ok(
        (
            Stats {
                pump1_rpm,
                fan1_rpm,
                fan2_rpm,
                fan3_rpm,
                liquid_temp,
                ambient_temp,
                liquid_out_temp,
            },
            s7,
        ),
    )
}

pub(crate) fn take_response<'a>(s: &'a [u8]) -> (r: Result<(Response, &'a [u8]), Error>)
    ensures
        match r {
            Ok((v, rest)) => parse_response(s@) == Some((v, rest@)),
            Err(e) => parse_response(s@) is None && e == Error::Deserialize,
        },
{
    let (tag, s1) = u32_from_varint(s)?;
    if tag == 0 {
        Ok((Response::Okay, s1))
    } else if tag == 1 {
        let (kind, s2) = u32_from_varint(s1)?;
        match Error::from_wire_tag(kind) {
            Some(e) => Ok((Response::Error(e), s2)),
            None => Err(Error::Deserialize),
        }
    } else {
        Err(Error::Deserialize)
    }
}

/// Reads data of the given kind; what follows it is ignored.
pub(crate) fn take_payload(kind: DataKind, s: &[u8]) -> (r: Result<Data, Error>)
    ensures
        match r {
            Ok(d) => parse_payload(kind, s@) == Some(d@),
            Err(e) => parse_payload(kind, s@) is None && e == Error::Deserialize,
        },
{
    match kind {
        DataKind::Config => {
            let (c, _) = take_config(s)?;
            Ok(Data::Config(c))
        },
        DataKind::Stats => {
            let (t, _) = take_stats(s)?;
            Ok(Data::Stats(t))
        },
        DataKind::Result => {
            let (v, _) = take_response(s)?;
            Ok(Data::Result(v))
        },
        DataKind::Pong => {
            let (n, _) = u32_from_varint(s)?;
            Ok(Data::Pong(n))
        },
        DataKind::Empty => Ok(Data::Empty),
    }
}

} // verus!

//! Writers: each appends the bytes of one value to a frame that has room for them.
use crate::bounded::frame_bytes;
use crate::bounded::frame_put;
use crate::bounded::settings_slice;
use crate::bounded::Frame;
use crate::error::Error;
use crate::model::Config;
use crate::model::DataRef;
use crate::model::FanSetting;
use crate::model::GeneralConfig;
use crate::model::Response;
use crate::model::SmartMode;
use crate::model::Stats;
use crate::model::TempDuty;
use crate::round_trip::lemma_items_push;
use crate::single::Single;
use crate::varint::u32_to_varint;
use crate::varint::varint_bytes;
use crate::wire::config_bytes;
use crate::wire::general_bytes;
use crate::wire::items_bytes;
use crate::wire::option_smart_bytes;
use crate::wire::payload_bytes;
use crate::wire::point_bytes;
use crate::wire::response_bytes;
use crate::wire::setting_bytes;
use crate::wire::settings_bytes;
use crate::wire::single_bytes;
use crate::wire::smart_bytes;
use crate::wire::stats_bytes;
use vstd::prelude::*;

verus! {

/// Appends a 32-bit value in its variable-length form.
pub(crate) fn put_u32(frame: &mut Frame, v: u32)
    requires
        frame_bytes(*old(frame)).len() + 5 <= 256,
    ensures
        frame_bytes(*final(frame)) == frame_bytes(*old(frame)) + varint_bytes(v as nat),
        varint_bytes(v as nat).len() <= 5,
{
    let bytes = u32_to_varint(v);
    frame_put(frame, bytes.as_slice());
}

/// Appends a tag, which is a single byte.
pub(crate) fn put_tag(frame: &mut Frame, tag: u32)
    requires
        tag < 128,
        frame_bytes(*old(frame)).len() + 1 <= 256,
    ensures
        frame_bytes(*final(frame)) == frame_bytes(*old(frame)) + varint_bytes(tag as nat),
        varint_bytes(tag as nat).len() == 1,
{
    let bytes = u32_to_varint(tag);
    frame_put(frame, bytes.as_slice());
}

pub(crate) fn put_single(frame: &mut Frame, x: Single)
    requires
        frame_bytes(*old(frame)).len() + 4 <= 256,
    ensures
        frame_bytes(*final(frame)) == frame_bytes(*old(frame)) + single_bytes(x),
        single_bytes(x).len() == 4,
{
    let bits = x.bits;
    let bytes: [u8; 4] = [
        (bits % 0x100) as u8,
        (bits / 0x100 % 0x100) as u8,
        (bits / 0x1_0000 % 0x100) as u8,
        (bits / 0x100_0000) as u8,
    ];
    assert(bytes@ =~= single_bytes(x));
    frame_put(frame, bytes.as_slice());
}

pub(crate) fn put_point(frame: &mut Frame, p: TempDuty)
    requires
        frame_bytes(*old(frame)).len() + 8 <= 256,
    ensures
        frame_bytes(*final(frame)) == frame_bytes(*old(frame)) + point_bytes(p),
        point_bytes(p).len() == 8,
{
    let ghost base = frame_bytes(*frame);
    put_single(frame, p.0);
    put_single(frame, p.1);
    assert(base + single_bytes(p.0) + single_bytes(p.1) =~= base + point_bytes(p));
}

pub(crate) fn put_setting(frame: &mut Frame, f: &FanSetting)
    requires
        frame_bytes(*old(frame)).len() + 33 <= 256,
    ensures
        frame_bytes(*final(frame)) == frame_bytes(*old(frame)) + setting_bytes(*f),
        setting_bytes(*f).len() == 33,
{
    let ghost base = frame_bytes(*frame);
    put_tag(frame, f.id.wire_tag());
    put_point(frame, f.curve[0]);
    put_point(frame, f.curve[1]);
    put_point(frame, f.curve[2]);
    put_point(frame, f.curve[3]);
    assert(frame_bytes(*frame) =~= base + setting_bytes(*f));
}

pub(crate) fn put_settings(frame: &mut Frame, items: &[FanSetting])
    requires
        items@.len() <= 4,
        frame_bytes(*old(frame)).len() + 133 <= 256,
    ensures
        frame_bytes(*final(frame)) == frame_bytes(*old(frame)) + settings_bytes(items@),
        settings_bytes(items@).len() == 1 + 33 * items@.len(),
{
    let ghost base = frame_bytes(*frame);
    let count = items.len();
    put_tag(frame, count as u32);
    let ghost head = base + varint_bytes(count as nat);
    let mut i: usize = 0;
    proof {
        assert(items@.take(0) =~= Seq::empty());
        assert(head + items_bytes(items@.take(0)) =~= head);
    }
    while i < count
        invariant
            i <= count,
            count == items@.len(),
            count <= 4,
            head.len() + 33 * count <= 256,
            items_bytes(items@.take(i as int)).len() == 33 * i,
            frame_bytes(*frame) == head + items_bytes(items@.take(i as int)),
        decreases count - i,
    {
        let ghost before = items_bytes(items@.take(i as int));
        put_setting(frame, &items[i]);
        proof {
            lemma_items_push(items@.take(i as int), items@[i as int]);
            assert(items@.take(i as int).push(items@[i as int]) =~= items@.take(i + 1));
            assert(head + before + setting_bytes(items@[i as int]) =~= head + (before
                + setting_bytes(items@[i as int])));
        }
        i += 1;
    }
    proof {
        assert(items@.take(count as int) =~= items@);
        assert(head + items_bytes(items@) =~= base + settings_bytes(items@));
    }
}

pub(crate) fn put_smart(frame: &mut Frame, m: &SmartMode)
    requires
        frame_bytes(*old(frame)).len() + 12 <= 256,
    ensures
        frame_bytes(*final(frame)) == frame_bytes(*old(frame)) + smart_bytes(*m),
        smart_bytes(*m).len() == 12,
{
    let ghost base = frame_bytes(*frame);
    put_single(frame, m.trigger_above_ambient);
    put_single(frame, m.upper_temp);
    put_single(frame, m.pump_duty);
    assert(frame_bytes(*frame) =~= base + smart_bytes(*m));
}

pub(crate) fn put_option_smart(frame: &mut Frame, m: &Option<SmartMode>)
    requires
        frame_bytes(*old(frame)).len() + 13 <= 256,
    ensures
        frame_bytes(*final(frame)) == frame_bytes(*old(frame)) + option_smart_bytes(*m),
        option_smart_bytes(*m).len() <= 13,
{
    let ghost base = frame_bytes(*frame);
    match m {
        None => {
            let marker: [u8; 1] = [0];
            assert(marker@ =~= seq![0u8]);
            frame_put(frame, marker.as_slice());
        },
        Some(mode) => {
            let marker: [u8; 1] = [1];
            assert(marker@ =~= seq![1u8]);
            frame_put(frame, marker.as_slice());
            put_smart(frame, mode);
            assert(frame_bytes(*frame) =~= base + option_smart_bytes(*m));
        },
    }
}

pub(crate) fn put_general(frame: &mut Frame, g: &GeneralConfig)
    requires
        frame_bytes(*old(frame)).len() + 7 <= 256,
    ensures
        frame_bytes(*final(frame)) == frame_bytes(*old(frame)) + general_bytes(*g),
        general_bytes(*g).len() <= 7,
{
    let ghost base = frame_bytes(*frame);
    put_u32(frame, g.sleep_after);
    put_tag(frame, g.led.wire_tag());
    put_tag(frame, g.buzzer.wire_tag());
    assert(frame_bytes(*frame) =~= base + general_bytes(*g));
}

pub(crate) fn put_config(frame: &mut Frame, c: &Config)
    requires
        frame_bytes(*old(frame)).len() + 153 <= 256,
    ensures
        frame_bytes(*final(frame)) == frame_bytes(*old(frame)) + config_bytes(c@),
        config_bytes(c@).len() <= 153,
{
    let ghost base = frame_bytes(*frame);
    put_general(frame, &c.general);
    put_option_smart(frame, &c.smart_mode);
    put_settings(frame, settings_slice(&c.settings));
    assert(frame_bytes(*frame) =~= base + config_bytes(c@));
}

pub(crate) fn put_stats(frame: &mut Frame, t: &Stats)
    requires
        frame_bytes(*old(frame)).len() + 28 <= 256,
    ensures
        frame_bytes(*final(frame)) == frame_bytes(*old(frame)) + stats_bytes(*t),
        stats_bytes(*t).len() == 28,
{
    let ghost base = frame_bytes(*frame);
    put_single(frame, t.pump1_rpm);
    put_single(frame, t.fan1_rpm);
    put_single(frame, t.fan2_rpm);
    put_single(frame, t.fan3_rpm);
    put_single(frame, t.liquid_temp);
    put_single(frame, t.ambient_temp);
    put_single(frame, t.liquid_out_temp);
    assert(frame_bytes(*frame) =~= base + stats_bytes(*t));
}

pub(crate) fn put_response(frame: &mut Frame, r: &Response)
    requires
        frame_bytes(*old(frame)).len() + 2 <= 256,
    ensures
        frame_bytes(*final(frame)) == frame_bytes(*old(frame)) + response_bytes(*r),
        response_bytes(*r).len() <= 2,
{
    let ghost base = frame_bytes(*frame);
    match r {
        Response::Okay => {
            put_tag(frame, 0);
        },
        Response::Error(e) => {
            put_tag(frame, 1);
            put_tag(frame, e.wire_tag());
            assert(frame_bytes(*frame) =~= base + response_bytes(*r));
        },
    }
}

/// Appends the data of a frame, without the tag of its kind.
pub(crate) fn put_payload(frame: &mut Frame, data: &DataRef)
    requires
        frame_bytes(*old(frame)).len() + 153 <= 256,
    ensures
        frame_bytes(*final(frame)) == frame_bytes(*old(frame)) + payload_bytes(data@),
        payload_bytes(data@).len() <= 153,
{
    match data {
        DataRef::Config(c) => put_config(frame, c),
        DataRef::Stats(t) => put_stats(frame, t),
        DataRef::Result(r) => put_response(frame, r),
        DataRef::Pong(n) => put_u32(frame, **n),
        DataRef::Empty => {
            assert(frame_bytes(*frame) + Seq::<u8>::empty() =~= frame_bytes(*frame));
        },
    }
}

} // verus!

//! Reading undoes writing: for every kind of value, the value is read back
//! from its bytes, whatever bytes follow them.
use crate::error::Error;
use crate::model::ConfigView;
use crate::model::DataView;
use crate::model::FanSetting;
use crate::model::GeneralConfig;
use crate::model::Id;
use crate::model::Msg;
use crate::model::Response;
use crate::model::SmartMode;
use crate::model::Stats;
use crate::model::SwitchMode;
use crate::model::TempDuty;
use crate::single::Single;
use crate::varint::lemma_limits;
use crate::varint::lemma_varint_round_trip;
use crate::varint::parse_u32;
use crate::varint::parse_u64;
use crate::varint::varint_bytes;
use crate::wire::config_bytes;
use crate::wire::frame_of;
use crate::wire::general_bytes;
use crate::wire::id_bytes;
use crate::wire::items_bytes;
use crate::wire::option_smart_bytes;
use crate::wire::parse_config;
use crate::wire::parse_frame;
use crate::wire::parse_general;
use crate::wire::parse_id;
use crate::wire::parse_items;
use crate::wire::parse_option_smart;
use crate::wire::parse_payload;
use crate::wire::parse_point;
use crate::wire::parse_response;
use crate::wire::parse_setting;
use crate::wire::parse_settings;
use crate::wire::parse_single;
use crate::wire::parse_smart;
use crate::wire::parse_stats;
use crate::wire::parse_switch;
use crate::wire::payload_bytes;
use crate::wire::point_bytes;
use crate::wire::response_bytes;
use crate::wire::setting_bytes;
use crate::wire::settings_bytes;
use crate::wire::single_bytes;
use crate::wire::smart_bytes;
use crate::wire::stats_bytes;
use crate::wire::switch_bytes;
use vstd::prelude::*;

verus! {

/// Appending is associative: a value's bytes followed by a tail are the bytes
/// of its first part followed by the rest and the tail.
proof fn lemma_assoc(a: Seq<u8>, b: Seq<u8>, tail: Seq<u8>)
    ensures
        (a + b) + tail == a + (b + tail),
{
    assert((a + b) + tail =~= a + (b + tail));
}

/// A 32-bit value is read back from its bytes, of which there are at most five.
pub proof fn lemma_u32_round_trip(v: u32, tail: Seq<u8>)
    ensures
        parse_u32(varint_bytes(v as nat) + tail) == Some((v as nat, tail)),
        1 <= varint_bytes(v as nat).len() <= 5,
{
    lemma_limits();
    lemma_varint_round_trip(v as nat, tail, 5, 15);
}

/// A tag below 128 is one byte, and is read back from it.
pub proof fn lemma_tag_round_trip(tag: nat, tail: Seq<u8>)
    requires
        tag < 128,
    ensures
        varint_bytes(tag) == seq![tag as u8],
        parse_u32(varint_bytes(tag) + tail) == Some((tag, tail)),
        parse_u64(varint_bytes(tag) + tail) == Some((tag, tail)),
{
    lemma_limits();
    lemma_varint_round_trip(tag, tail, 5, 15);
    lemma_varint_round_trip(tag, tail, 10, 1);
}

/// A single is read back from its four bytes.
pub proof fn lemma_single_round_trip(x: Single, tail: Seq<u8>)
    ensures
        parse_single(single_bytes(x) + tail) == Some((x, tail)),
        single_bytes(x).len() == 4,
{
    let s = single_bytes(x) + tail;
    assert(s.skip(4) =~= tail);
    assert(s[0] == (x.bits % 0x100) as u8);
    assert(s[1] == (x.bits / 0x100 % 0x100) as u8);
    assert(s[2] == (x.bits / 0x1_0000 % 0x100) as u8);
    assert(s[3] == (x.bits / 0x100_0000) as u8);
}

/// A control point is read back from its eight bytes.
pub proof fn lemma_point_round_trip(p: TempDuty, tail: Seq<u8>)
    ensures
        parse_point(point_bytes(p) + tail) == Some((p, tail)),
        point_bytes(p).len() == 8,
{
    let t1 = single_bytes(p.1) + tail;
    lemma_assoc(single_bytes(p.0), single_bytes(p.1), tail);
    lemma_single_round_trip(p.0, t1);
    lemma_single_round_trip(p.1, tail);
}

/// An identifier is read back from its one byte.
pub proof fn lemma_id_round_trip(id: Id, tail: Seq<u8>)
    ensures
        parse_id(id_bytes(id) + tail) == Some((id, tail)),
        id_bytes(id).len() == 1,
{
    lemma_tag_round_trip(id.tag(), tail);
}

/// A fan setting is read back from its 33 bytes.
pub proof fn lemma_setting_round_trip(f: FanSetting, tail: Seq<u8>)
    ensures
        parse_setting(setting_bytes(f) + tail) == Some((f, tail)),
        setting_bytes(f).len() == 33,
{
    let t3 = point_bytes(f.curve[3]) + tail;
    let t2 = point_bytes(f.curve[2]) + t3;
    let t1 = point_bytes(f.curve[1]) + t2;
    let t0 = point_bytes(f.curve[0]) + t1;
    let b0 = id_bytes(f.id);
    let b1 = b0 + point_bytes(f.curve[0]);
    let b2 = b1 + point_bytes(f.curve[1]);
    let b3 = b2 + point_bytes(f.curve[2]);
    lemma_assoc(b3, point_bytes(f.curve[3]), tail);
    lemma_assoc(b2, point_bytes(f.curve[2]), t3);
    lemma_assoc(b1, point_bytes(f.curve[1]), t2);
    lemma_assoc(b0, point_bytes(f.curve[0]), t1);
    lemma_id_round_trip(f.id, t0);
    lemma_point_round_trip(f.curve[0], t1);
    lemma_point_round_trip(f.curve[1], t2);
    lemma_point_round_trip(f.curve[2], t3);
    lemma_point_round_trip(f.curve[3], tail);
    let curve = [f.curve[0], f.curve[1], f.curve[2], f.curve[3]];
    assert(curve =~= f.curve);
}

/// Settings that follow each other are read back, as many as were written.
pub proof fn lemma_items_round_trip(items: Seq<FanSetting>, tail: Seq<u8>)
    ensures
        parse_items(items_bytes(items) + tail, items.len()) == Some((items, tail)),
        items_bytes(items).len() == 33 * items.len(),
    decreases items.len(),
{
    if items.len() == 0 {
        lemma_empty_unit(tail);
        assert(items =~= Seq::empty());
    } else {
        let first = items[0];
        let others = items.skip(1);
        let t = items_bytes(others) + tail;
        let s = setting_bytes(first) + t;
        lemma_items_round_trip(others, tail);
        assert(parse_setting(s) == Some((first, t)) && setting_bytes(first).len() == 33) by {
            lemma_setting_round_trip(first, t);
        }
        assert(items_bytes(items) + tail == s) by {
            lemma_assoc(setting_bytes(first), items_bytes(others), tail);
        }
        assert(seq![first] + others =~= items);
        assert(parse_items(s, items.len()) == Some((seq![first] + others, tail)));
    }
}

proof fn lemma_empty_unit(a: Seq<u8>)
    ensures
        a + Seq::<u8>::empty() == a,
        Seq::<u8>::empty() + a == a,
{
    assert(a + Seq::<u8>::empty() =~= a);
    assert(Seq::<u8>::empty() + a =~= a);
}

/// Where settings are read, as many are read as were asked for.
pub proof fn lemma_items_count(s: Seq<u8>, count: nat)
    requires
        parse_items(s, count) is Some,
    ensures
        parse_items(s, count)->Some_0.0.len() == count,
    decreases count,
{
    if count > 0 {
        lemma_items_count(parse_setting(s)->Some_0.1, (count - 1) as nat);
    }
}

/// The bytes of a collection grow by those of a setting that is pushed onto it.
pub proof fn lemma_items_push(items: Seq<FanSetting>, f: FanSetting)
    ensures
        items_bytes(items.push(f)) == items_bytes(items) + setting_bytes(f),
    decreases items.len(),
{
    let pushed = items.push(f);
    let b = setting_bytes(f);
    if items.len() == 0 {
        assert(pushed.skip(1) =~= Seq::empty());
        assert(items_bytes(pushed.skip(1)) == Seq::<u8>::empty());
        assert(pushed[0] == f);
        assert(items_bytes(items) == Seq::<u8>::empty());
        lemma_empty_unit(b);
    } else {
        assert(pushed.skip(1) =~= items.skip(1).push(f));
        assert(pushed[0] == items[0]);
        lemma_items_push(items.skip(1), f);
        lemma_assoc(setting_bytes(items[0]), items_bytes(items.skip(1)), b);
    }
}

/// A collection of at most four settings is read back from its bytes.
pub proof fn lemma_settings_round_trip(items: Seq<FanSetting>, tail: Seq<u8>)
    requires
        items.len() <= 4,
    ensures
        parse_settings(settings_bytes(items) + tail) == Some((items, tail)),
        settings_bytes(items).len() == 1 + 33 * items.len(),
{
    let t = items_bytes(items) + tail;
    lemma_assoc(varint_bytes(items.len()), items_bytes(items), tail);
    lemma_tag_round_trip(items.len(), t);
    lemma_items_round_trip(items, tail);
}

/// A smart mode is read back from its twelve bytes.
pub proof fn lemma_smart_round_trip(m: SmartMode, tail: Seq<u8>)
    ensures
        parse_smart(smart_bytes(m) + tail) == Some((m, tail)),
        smart_bytes(m).len() == 12,
{
    let t2 = single_bytes(m.pump_duty) + tail;
    let t1 = single_bytes(m.upper_temp) + t2;
    let b0 = single_bytes(m.trigger_above_ambient);
    let b1 = b0 + single_bytes(m.upper_temp);
    lemma_assoc(b1, single_bytes(m.pump_duty), tail);
    lemma_assoc(b0, single_bytes(m.upper_temp), t2);
    lemma_single_round_trip(m.trigger_above_ambient, t1);
    lemma_single_round_trip(m.upper_temp, t2);
    lemma_single_round_trip(m.pump_duty, tail);
}

/// An optional smart mode is read back from its bytes.
pub proof fn lemma_option_smart_round_trip(m: Option<SmartMode>, tail: Seq<u8>)
    ensures
        parse_option_smart(option_smart_bytes(m) + tail) == Some((m, tail)),
        option_smart_bytes(m).len() <= 13,
{
    let s = option_smart_bytes(m) + tail;
    match m {
        None => {
            assert(s.skip(1) =~= tail);
        },
        Some(mode) => {
            assert(s.skip(1) =~= smart_bytes(mode) + tail);
            lemma_smart_round_trip(mode, tail);
        },
    }
}

/// A switch position is read back from its one byte.
pub proof fn lemma_switch_round_trip(m: SwitchMode, tail: Seq<u8>)
    ensures
        parse_switch(switch_bytes(m) + tail) == Some((m, tail)),
        switch_bytes(m).len() == 1,
{
    lemma_tag_round_trip(m.tag(), tail);
}

/// The general settings are read back from their bytes.
pub proof fn lemma_general_round_trip(g: GeneralConfig, tail: Seq<u8>)
    ensures
        parse_general(general_bytes(g) + tail) == Some((g, tail)),
        3 <= general_bytes(g).len() <= 7,
{
    let t2 = switch_bytes(g.buzzer) + tail;
    let t1 = switch_bytes(g.led) + t2;
    let b0 = varint_bytes(g.sleep_after as nat);
    let b1 = b0 + switch_bytes(g.led);
    lemma_assoc(b1, switch_bytes(g.buzzer), tail);
    lemma_assoc(b0, switch_bytes(g.led), t2);
    lemma_u32_round_trip(g.sleep_after, t1);
    lemma_switch_round_trip(g.led, t2);
    lemma_switch_round_trip(g.buzzer, tail);
}

/// A configuration with at most four settings is read back from its bytes,
/// of which there are at most 153.
pub proof fn lemma_config_round_trip(c: ConfigView, tail: Seq<u8>)
    requires
        c.settings.len() <= 4,
    ensures
        parse_config(config_bytes(c) + tail) == Some((c, tail)),
        config_bytes(c).len() <= 153,
{
    let t2 = settings_bytes(c.settings) + tail;
    let t1 = option_smart_bytes(c.smart_mode) + t2;
    let b0 = general_bytes(c.general);
    let b1 = b0 + option_smart_bytes(c.smart_mode);
    lemma_assoc(b1, settings_bytes(c.settings), tail);
    lemma_assoc(b0, option_smart_bytes(c.smart_mode), t2);
    lemma_general_round_trip(c.general, t1);
    lemma_option_smart_round_trip(c.smart_mode, t2);
    lemma_settings_round_trip(c.settings, tail);
}

/// A snapshot is read back from its 28 bytes.
pub proof fn lemma_stats_round_trip(t: Stats, tail: Seq<u8>)
    ensures
        parse_stats(stats_bytes(t) + tail) == Some((t, tail)),
        stats_bytes(t).len() == 28,
{
    let t6 = single_bytes(t.liquid_out_temp) + tail;
    let t5 = single_bytes(t.ambient_temp) + t6;
    let t4 = single_bytes(t.liquid_temp) + t5;
    let t3 = single_bytes(t.fan3_rpm) + t4;
    let t2 = single_bytes(t.fan2_rpm) + t3;
    let t1 = single_bytes(t.fan1_rpm) + t2;
    let b0 = single_bytes(t.pump1_rpm);
    let b1 = b0 + single_bytes(t.fan1_rpm);
    let b2 = b1 + single_bytes(t.fan2_rpm);
    let b3 = b2 + single_bytes(t.fan3_rpm);
    let b4 = b3 + single_bytes(t.liquid_temp);
    let b5 = b4 + single_bytes(t.ambient_temp);
    lemma_assoc(b5, single_bytes(t.liquid_out_temp), tail);
    lemma_assoc(b4, single_bytes(t.ambient_temp), t6);
    lemma_assoc(b3, single_bytes(t.liquid_temp), t5);
    lemma_assoc(b2, single_bytes(t.fan3_rpm), t4);
    lemma_assoc(b1, single_bytes(t.fan2_rpm), t3);
    lemma_assoc(b0, single_bytes(t.fan1_rpm), t2);
    lemma_single_round_trip(t.pump1_rpm, t1);
    lemma_single_round_trip(t.fan1_rpm, t2);
    lemma_single_round_trip(t.fan2_rpm, t3);
    lemma_single_round_trip(t.fan3_rpm, t4);
    lemma_single_round_trip(t.liquid_temp, t5);
    lemma_single_round_trip(t.ambient_temp, t6);
    lemma_single_round_trip(t.liquid_out_temp, tail);
}

/// A response is read back from its bytes.
pub proof fn lemma_response_round_trip(r: Response, tail: Seq<u8>)
    ensures
        parse_response(response_bytes(r) + tail) == Some((r, tail)),
        1 <= response_bytes(r).len() <= 2,
{
    match r {
        Response::Okay => {
            lemma_tag_round_trip(0, tail);
        },
        Response::Error(e) => {
            let t = varint_bytes(e.tag()) + tail;
            lemma_assoc(varint_bytes(1), varint_bytes(e.tag()), tail);
            lemma_tag_round_trip(1, t);
            Error::lemma_tag_round_trip(e, 0);
            lemma_tag_round_trip(e.tag(), tail);
        },
    }
}

/// Data is read back, as data of its kind, from its bytes.
pub proof fn lemma_payload_round_trip(d: DataView, tail: Seq<u8>)
    requires
        d.wf(),
    ensures
        parse_payload(d.kind(), payload_bytes(d) + tail) == Some(d),
        payload_bytes(d).len() <= 153,
{
    match d {
        DataView::Config(c) => {
            lemma_config_round_trip(c, tail);
        },
        DataView::Stats(t) => {
            lemma_stats_round_trip(t, tail);
        },
        DataView::Result(r) => {
            lemma_response_round_trip(r, tail);
        },
        DataView::Pong(n) => {
            lemma_u32_round_trip(n, tail);
        },
        DataView::Empty => {},
    }
}

proof fn lemma_split(head: Seq<u8>, body: Seq<u8>)
    ensures
        (head + body).take(head.len() as int) == head,
        (head + body).skip(head.len() as int) == body,
{
    assert((head + body).take(head.len() as int) =~= head);
    assert((head + body).skip(head.len() as int) =~= body);
}

/// Every command is found again from its tag.
pub proof fn lemma_msg_tag(msg: Msg)
    ensures
        msg.tag() < 10,
        Msg::of_tag(msg.tag()) == Some(msg),
{
}

/// A frame of a command with data of the command's kind is read back as that
/// command and that data, whatever follows it, and is at most 155 bytes long.
pub proof fn lemma_frame_round_trip(msg: Msg, d: DataView, tail: Seq<u8>)
    requires
        d.kind() == msg.kind(),
        d.wf(),
    ensures
        parse_frame(frame_of(msg, d) + tail) == Some((msg, d)),
        2 <= frame_of(msg, d).len() <= 155,
{
    let s = frame_of(msg, d) + tail;
    let body = payload_bytes(d) + tail;
    let head = varint_bytes(msg.tag()) + varint_bytes(d.kind().tag());
    lemma_tag_round_trip(msg.tag(), varint_bytes(d.kind().tag()));
    lemma_tag_round_trip(d.kind().tag(), body);
    lemma_msg_tag(msg);
    lemma_assoc(head, payload_bytes(d), tail);
    lemma_split(head, body);
    lemma_payload_round_trip(d, tail);
}

} // verus!

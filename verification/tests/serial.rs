use opilio_lib::serial::find_ports;
use opilio_lib::serial::ping_delay_millis;
use opilio_lib::serial::read_config;
use opilio_lib::serial::read_pong;
use opilio_lib::serial::read_reply;
use opilio_lib::serial::read_stats;
use opilio_lib::serial::PortInfo;
use opilio_lib::serial::ReplyError;
use opilio_lib::serial::UsbPortInfo;
use opilio_lib::Config;
use opilio_lib::Data;
use opilio_lib::DataRef;
use opilio_lib::Error;
use opilio_lib::HomeState;
use opilio_lib::Msg;
use opilio_lib::PortWithSerialNumber;
use opilio_lib::Response;
use opilio_lib::Single;
use opilio_lib::Stats;
use opilio_lib::OTW;
use opilio_lib::PID;
use opilio_lib::VID;

fn usb(name: &str, vid: u16, pid: u16, serial: Option<&str>) -> PortInfo {
    PortInfo {
        port_name: name.to_string(),
        usb: Some(UsbPortInfo { vid, pid, serial_number: serial.map(|s| s.to_string()) }),
    }
}

fn other(name: &str) -> PortInfo {
    PortInfo { port_name: name.to_string(), usb: None }
}

fn port(name: &str, serial: Option<&str>) -> PortWithSerialNumber {
    PortWithSerialNumber {
        port_name: name.to_string(),
        serial_number: serial.map(|s| s.to_string()),
    }
}

fn buffer_of(frame: &[u8]) -> Vec<u8> {
    let mut buffer = vec![0u8; 256];
    buffer[..frame.len()].copy_from_slice(frame);
    buffer
}

fn stats() -> Stats {
    let x = Single::from_bits(21.5f32.to_bits());
    Stats {
        pump1_rpm: x,
        fan1_rpm: x,
        fan2_rpm: x,
        fan3_rpm: x,
        liquid_temp: x,
        ambient_temp: x,
        liquid_out_temp: x,
    }
}

#[test]
fn identifiers() {
    assert_eq!(VID, 0x1209);
    assert_eq!(PID, 0x2442);
}

#[test]
fn ports_of_the_device_are_kept_in_order() {
    let listing = vec![
        other("/dev/ttyS0"),
        usb("/dev/ttyACM0", VID, PID, Some("0.2.0")),
        usb("/dev/ttyACM1", VID, 0x0001, Some("x")),
        usb("/dev/ttyACM2", 0x0001, PID, None),
        usb("/dev/ttyACM3", VID, PID, None),
        other("/dev/ttyS1"),
    ];
    let found = find_ports(&listing, VID, PID);
    assert_eq!(found, vec![port("/dev/ttyACM0", Some("0.2.0")), port("/dev/ttyACM3", None)]);
    assert_eq!(found[0].to_string(), "/dev/ttyACM0");
    assert_eq!(find_ports(&listing, 0x0001, 0x0001), vec![]);
    assert_eq!(find_ports(&Vec::new(), VID, PID), vec![]);
}

#[test]
fn the_only_port_is_picked() {
    let state = HomeState::new(vec![port("a", None)]);
    assert_eq!(state.selected_port, Some(port("a", None)));
    assert_eq!(state.error_text, None);
    let state = HomeState::new(vec![]);
    assert_eq!(state.selected_port, None);
    let mut state = HomeState::new(vec![port("a", None), port("b", Some("1"))]);
    assert_eq!(state.selected_port, None);
    state.error_text = Some("no answer".to_string());
    state.select_port(port("b", Some("1")));
    assert_eq!(state.selected_port, Some(port("b", Some("1"))));
    assert_eq!(state.error_text, Some("no answer".to_string()));
    state.close_modal();
    assert_eq!(state.selected_port, Some(port("b", Some("1"))));
    assert_eq!(state.error_text, None);
}

#[test]
fn ping_again_after_nine_tenths() {
    assert_eq!(ping_delay_millis(0), 0);
    assert_eq!(ping_delay_millis(1), 900);
    assert_eq!(ping_delay_millis(3600), 3_240_000);
    assert_eq!(ping_delay_millis(u32::MAX), 3_865_470_565_500);
}

#[test]
fn nothing_read_is_no_reply() {
    let frame = OTW::serialised_vec(Msg::Pong, DataRef::Pong(&7)).unwrap();
    let buffer = buffer_of(&frame);
    assert_eq!(read_reply(0, &buffer), Err(ReplyError::NoBytes));
    assert_eq!(read_pong(0, &buffer), Err(ReplyError::NoBytes));
    assert_eq!(read_stats(0, &buffer), Err(ReplyError::NoBytes));
    assert_eq!(read_config(0, &buffer), Err(ReplyError::NoBytes));
}

#[test]
fn replies_give_their_data() {
    let frame = OTW::serialised_vec(Msg::Pong, DataRef::Pong(&3600)).unwrap();
    let buffer = buffer_of(&frame);
    assert_eq!(read_pong(frame.len(), &buffer), Ok(3600));
    assert_eq!(read_pong(1, &buffer), Ok(3600));
    assert_eq!(
        read_reply(frame.len(), &buffer),
        Ok(OTW { msg: Msg::Pong, data: Data::Pong(3600) })
    );

    let frame = OTW::serialised_vec(Msg::Stats, DataRef::Stats(&stats())).unwrap();
    assert_eq!(read_stats(frame.len(), &buffer_of(&frame)), Ok(stats()));

    let config = Config::default();
    let frame = OTW::serialised_vec(Msg::Config, DataRef::Config(&config)).unwrap();
    assert_eq!(read_config(frame.len(), &buffer_of(&frame)), Ok(config));
}

#[test]
fn reply_of_another_kind_is_refused() {
    let pong = buffer_of(&OTW::serialised_vec(Msg::Pong, DataRef::Pong(&1)).unwrap());
    let done = buffer_of(OTW::serialised_ok());
    let stat = buffer_of(&OTW::serialised_vec(Msg::Stats, DataRef::Stats(&stats())).unwrap());
    assert_eq!(read_stats(4, &pong), Err(ReplyError::WrongData));
    assert_eq!(read_config(4, &pong), Err(ReplyError::WrongData));
    assert_eq!(read_pong(3, &done), Err(ReplyError::WrongData));
    assert_eq!(read_pong(30, &stat), Err(ReplyError::WrongData));
    assert_eq!(read_config(30, &stat), Err(ReplyError::WrongData));
    assert_eq!(
        read_reply(3, &done),
        Ok(OTW { msg: Msg::Result, data: Data::Result(Response::Okay) })
    );
}

#[test]
fn bytes_that_are_no_frame_are_a_codec_error() {
    let noise = [0xffu8; 256];
    assert_eq!(read_reply(256, &noise), Err(ReplyError::Codec(Error::Deserialize)));
    assert_eq!(read_pong(256, &noise), Err(ReplyError::Codec(Error::Deserialize)));
    assert_eq!(read_stats(256, &noise), Err(ReplyError::Codec(Error::Deserialize)));
    assert_eq!(read_config(256, &noise), Err(ReplyError::Codec(Error::Deserialize)));
    assert_eq!(read_pong(1, &[1]), Err(ReplyError::Codec(Error::Deserialize)));
}

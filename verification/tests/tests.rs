use opilio_lib::Config;
use opilio_lib::Data;
use opilio_lib::DataRef;
use opilio_lib::Msg;
use opilio_lib::Response;
use opilio_lib::Single;
use opilio_lib::Stats;
use opilio_lib::OTW;

fn single(x: f32) -> Single {
    Single::from_bits(x.to_bits())
}

#[test]
fn should_fail_with_invalid_pair() {
    let default_config = Config::default();
    let empty = DataRef::Empty;
    let config = DataRef::Config(&default_config);

    let stats = DataRef::Stats(&Stats {
        pump1_rpm: single(f32::MAX),
        fan1_rpm: single(f32::MAX),
        fan2_rpm: single(f32::MAX),
        fan3_rpm: single(f32::MAX),
        liquid_temp: single(f32::MAX),
        liquid_out_temp: single(f32::MAX),
        ambient_temp: single(f32::MAX),
    });

    let response = DataRef::Result(&Response::Okay);

    OTW::serialised_vec(Msg::SaveConfig, empty.clone()).unwrap();
    OTW::serialised_vec(Msg::SaveConfig, config.clone()).unwrap_err();
    OTW::serialised_vec(Msg::SaveConfig, stats.clone()).unwrap_err();
    OTW::serialised_vec(Msg::SaveConfig, response.clone()).unwrap_err();

    OTW::serialised_vec(Msg::GetStats, empty.clone()).unwrap();
    OTW::serialised_vec(Msg::GetStats, config.clone()).unwrap_err();
    OTW::serialised_vec(Msg::GetStats, stats.clone()).unwrap_err();
    OTW::serialised_vec(Msg::GetStats, response.clone()).unwrap_err();

    OTW::serialised_vec(Msg::Config, empty.clone()).unwrap_err();
    OTW::serialised_vec(Msg::Config, config.clone()).unwrap();
    OTW::serialised_vec(Msg::Config, stats.clone()).unwrap_err();
    OTW::serialised_vec(Msg::Config, response.clone()).unwrap_err();

    OTW::serialised_vec(Msg::Ping, empty.clone()).unwrap();
    OTW::serialised_vec(Msg::Ping, stats.clone()).unwrap_err();
    OTW::serialised_vec(Msg::Ping, response.clone()).unwrap_err();

    OTW::serialised_vec(Msg::Stats, empty.clone()).unwrap_err();
    OTW::serialised_vec(Msg::Stats, config.clone()).unwrap_err();
    OTW::serialised_vec(Msg::Stats, stats.clone()).unwrap();
    OTW::serialised_vec(Msg::Stats, response.clone()).unwrap_err();

    OTW::serialised_vec(Msg::GetConfig, empty.clone()).unwrap();
    OTW::serialised_vec(Msg::GetConfig, config.clone()).unwrap_err();
    OTW::serialised_vec(Msg::GetConfig, stats.clone()).unwrap_err();
    OTW::serialised_vec(Msg::GetConfig, response.clone()).unwrap_err();

    OTW::serialised_vec(Msg::Result, empty.clone()).unwrap_err();
    OTW::serialised_vec(Msg::Result, config.clone()).unwrap_err();
    OTW::serialised_vec(Msg::Result, stats.clone()).unwrap_err();
    OTW::serialised_vec(Msg::Result, response.clone()).unwrap();
}

#[test]
fn should_serde_stats_data() {
    let stats = Stats {
        pump1_rpm: single(2.0),
        fan1_rpm: single(0.0),
        fan2_rpm: single(1.0),
        fan3_rpm: single(20.0),
        liquid_temp: single(23.0),
        liquid_out_temp: single(23.0),
        ambient_temp: single(20.0),
    };

    let vec = OTW::serialised_vec(Msg::Stats, DataRef::Stats(&stats)).unwrap();
    println!("{:?}", vec);
    let otw = OTW::from_bytes(&vec).unwrap();
    assert_eq!(
        otw,
        OTW {
            msg: Msg::Stats,
            data: Data::Stats(stats)
        }
    );
}

#[test]
fn should_serde_configs() {
    let mut configs = Config::default();
    println!("{:#?}", configs);
    let vec = configs.to_vec().unwrap();
    println!("{}\n {:?}", vec.len(), vec);
    let res = Config::from_bytes(&vec).unwrap();
    assert_eq!(res, configs);

    let vec = configs.to_vec().unwrap();

    let res = Config::from_bytes(&vec).unwrap();
    assert_eq!(res, configs);

    configs.smart_mode = None;
    println!("{:#?}", configs);
    let vec = configs.to_vec().unwrap();
    println!("{}\n {:?}", vec.len(), vec);
    let res = Config::from_bytes(&vec).unwrap();
    assert_eq!(res, configs);

    let vec = configs.to_vec().unwrap();

    let res = Config::from_bytes(&vec).unwrap();
    assert_eq!(res, configs);
}

#[test]
fn should_create_default_ok() {
    let bytes = OTW::serialised_ok();

    println!("{bytes:?}");

    let otw = OTW::from_bytes(bytes).unwrap();
    println!("{otw:?}");

    assert_eq!(
        otw,
        OTW {
            msg: Msg::Result,
            data: Data::Result(Response::Okay)
        }
    )
}

#[test]
fn should_serde_empty_data() {
    let vec = OTW::serialised_vec(Msg::GetStats, DataRef::Empty).unwrap();
    println!("{:?}", vec);
    let otwb = OTW::from_bytes(&vec).unwrap();
    assert_eq!(
        OTW {
            msg: Msg::GetStats,
            data: Data::Empty
        },
        otwb
    );

    let vec = OTW::serialised_vec(Msg::SaveConfig, DataRef::Empty).unwrap();
    println!("{:?}", vec);
    let otwb = OTW::from_bytes(&vec).unwrap();
    assert_eq!(
        OTW {
            msg: Msg::SaveConfig,
            data: Data::Empty
        },
        otwb
    );
}

#[test]
fn test_empty_data() {
    for msg in [Msg::GetStats, Msg::SaveConfig] {
        let vec = OTW::serialised_vec(msg, DataRef::Empty).unwrap();
        println!("{:?}", vec);
        let otwb = OTW::from_bytes(&vec).unwrap();
        assert_eq!(
            OTW {
                msg,
                data: Data::Empty
            },
            otwb
        );
    }
}

use opilio_lib::config::MIN_SLEEP_AFTER;
use opilio_lib::Config;
use opilio_lib::FanSetting;
use opilio_lib::GeneralConfig;
use opilio_lib::Id;
use opilio_lib::Single;
use opilio_lib::SmartMode;
use opilio_lib::SwitchMode;
use opilio_lib::TempDuty;

fn single(x: f32) -> Single {
    Single::from_bits(x.to_bits())
}

fn curve(points: [(f32, f32); 4]) -> [TempDuty; 4] {
    [
        (single(points[0].0), single(points[0].1)),
        (single(points[1].0), single(points[1].1)),
        (single(points[2].0), single(points[2].1)),
        (single(points[3].0), single(points[3].1)),
    ]
}

fn setting(id: Id, points: [(f32, f32); 4]) -> FanSetting {
    FanSetting { id, curve: curve(points) }
}

const LINE: [(f32, f32); 4] = [(0.0, 0.0), (25.0, 25.0), (50.0, 50.0), (100.0, 100.0)];

#[test]
fn factory_settings() {
    let pump = FanSetting::new(Id::P1);
    assert_eq!(pump, setting(Id::P1, [(25.0, 50.0), (30.0, 60.0), (35.0, 80.0), (40.0, 100.0)]));
    for id in [Id::F1, Id::F2, Id::F3] {
        let fan = FanSetting::new(id);
        assert_eq!(fan, setting(id, [(25.0, 0.0), (30.0, 30.0), (35.0, 50.0), (40.0, 100.0)]));
        assert!(fan.is_fan());
        assert!(fan.is_valid());
    }
    assert!(!pump.is_fan());
    assert!(pump.is_valid());
}

#[test]
fn factory_config() {
    let config = Config::default();
    assert_eq!(
        config.general,
        GeneralConfig { sleep_after: 3600, led: SwitchMode::Off, buzzer: SwitchMode::Off }
    );
    assert_eq!(config.general, GeneralConfig::default());
    assert_eq!(
        config.smart_mode,
        Some(SmartMode {
            trigger_above_ambient: single(5.0),
            upper_temp: single(40.0),
            pump_duty: single(95.0),
        })
    );
    assert_eq!(config.smart_mode, Some(SmartMode::default()));
    assert_eq!(config.settings.len(), 4);
    for (i, id) in [Id::P1, Id::F1, Id::F2, Id::F3].into_iter().enumerate() {
        assert_eq!(config.settings[i], FanSetting::new(id));
    }
    assert!(config.is_valid());
}

#[test]
fn switch_mode() {
    assert!(SwitchMode::On.is_on());
    assert!(!SwitchMode::Off.is_on());
    assert_eq!(SwitchMode::default(), SwitchMode::On);
}

#[test]
fn curve_is_valid_only_where_it_rises() {
    assert!(setting(Id::F1, LINE).is_valid());
    assert!(setting(Id::F1, [(-5.0, 0.0), (-0.0, 0.5), (0.5, 1.0), (f32::INFINITY, f32::MAX)])
        .is_valid());
    for i in 0..3 {
        let mut flat_temp = LINE;
        flat_temp[i + 1].0 = flat_temp[i].0;
        assert!(!setting(Id::F1, flat_temp).is_valid());

        let mut falling_temp = LINE;
        falling_temp[i + 1].0 = falling_temp[i].0 - 1.0;
        assert!(!setting(Id::F1, falling_temp).is_valid());

        let mut flat_duty = LINE;
        flat_duty[i + 1].1 = flat_duty[i].1;
        assert!(!setting(Id::F1, flat_duty).is_valid());

        let mut falling_duty = LINE;
        falling_duty[i + 1].1 = falling_duty[i].1 - 0.5;
        assert!(!setting(Id::F1, falling_duty).is_valid());
    }
    assert!(!setting(Id::F1, [(0.0, 0.0), (-0.0, 1.0), (1.0, 2.0), (2.0, 3.0)]).is_valid());
}

#[test]
fn curve_with_a_nan_is_not_valid() {
    for i in 0..4 {
        let mut points = LINE;
        points[i].0 = f32::NAN;
        assert!(!setting(Id::F1, points).is_valid());
        let mut points = LINE;
        points[i].1 = f32::NAN;
        assert!(!setting(Id::F1, points).is_valid());
    }
}

#[test]
fn smart_mode_needs_forty_percent_for_the_pump() {
    let mut config = Config::default();
    config.smart_mode = Some(SmartMode { pump_duty: single(39.9), ..SmartMode::default() });
    assert!(!config.is_valid());
    config.smart_mode = Some(SmartMode { pump_duty: single(40.0), ..SmartMode::default() });
    assert!(config.is_valid());
    config.smart_mode = Some(SmartMode { pump_duty: single(39.999996), ..SmartMode::default() });
    assert!(!config.is_valid());
    config.smart_mode = Some(SmartMode { pump_duty: single(100.0), ..SmartMode::default() });
    assert!(config.is_valid());
    config.smart_mode = Some(SmartMode { pump_duty: single(f32::NAN), ..SmartMode::default() });
    assert!(!config.is_valid());
    config.smart_mode = Some(SmartMode { pump_duty: single(-95.0), ..SmartMode::default() });
    assert!(!config.is_valid());
}

#[test]
fn smart_mode_hides_the_curves() {
    let mut config = Config::default();
    config.set(setting(Id::F1, [(0.0, 0.0), (0.0, 0.0), (0.0, 0.0), (0.0, 0.0)]));
    assert!(config.is_valid());
    config.smart_mode = None;
    assert!(!config.is_valid());
}

#[test]
fn curves_count_without_smart_mode() {
    let mut config = Config::default();
    config.smart_mode = None;
    assert!(config.is_valid());
    for id in [Id::P1, Id::F1, Id::F2, Id::F3] {
        let mut broken = Config::default();
        broken.smart_mode = None;
        let mut points = LINE;
        points[2].1 = points[1].1;
        broken.set(setting(id, points));
        assert!(!broken.is_valid());
    }
}

#[test]
fn sleep_after_is_five_seconds_at_least() {
    assert_eq!(MIN_SLEEP_AFTER, 5);
    for smart in [Some(SmartMode::default()), None] {
        let mut config = Config::default();
        config.smart_mode = smart;
        config.general.sleep_after = 4;
        assert!(!config.is_valid());
        config.general.sleep_after = 0;
        assert!(!config.is_valid());
        config.general.sleep_after = 5;
        assert!(config.is_valid());
        config.general.sleep_after = u32::MAX;
        assert!(config.is_valid());
    }
}

#[test]
fn config_without_settings_is_valid_without_smart_mode() {
    let mut config = Config::default();
    config.smart_mode = None;
    config.settings.clear();
    assert!(config.is_valid());
}

#[test]
fn set_replaces_the_setting_of_the_same_id() {
    let mut config = Config::default();
    let new = setting(Id::F2, LINE);
    config.set(new);
    assert_eq!(config.settings.len(), 4);
    assert_eq!(config.settings[0], FanSetting::new(Id::P1));
    assert_eq!(config.settings[1], FanSetting::new(Id::F1));
    assert_eq!(config.settings[2], new);
    assert_eq!(config.settings[3], FanSetting::new(Id::F3));
    assert_eq!(config.get(Id::F2), Some(&new));
    assert_eq!(config.get(Id::F1), Some(&FanSetting::new(Id::F1)));
    assert_eq!(config.general, GeneralConfig::default());
    assert_eq!(config.smart_mode, Some(SmartMode::default()));
}

#[test]
fn set_ignores_an_unknown_id() {
    let mut config = Config::default();
    config.settings.clear();
    config.settings.push(FanSetting::new(Id::P1)).unwrap();
    config.settings.push(FanSetting::new(Id::F3)).unwrap();
    let before = config.clone();
    config.set(setting(Id::F1, LINE));
    assert_eq!(config, before);
    assert_eq!(config.get(Id::F1), None);
    assert_eq!(config.get(Id::F2), None);
    assert_eq!(config.get(Id::F3), Some(&FanSetting::new(Id::F3)));
}

#[test]
fn set_and_get_take_the_first_of_two() {
    let mut config = Config::default();
    config.settings.clear();
    let first = setting(Id::F1, LINE);
    let second = FanSetting::new(Id::F1);
    config.settings.push(FanSetting::new(Id::P1)).unwrap();
    config.settings.push(first).unwrap();
    config.settings.push(second).unwrap();
    assert_eq!(config.get(Id::F1), Some(&first));
    let third = setting(Id::F1, [(1.0, 1.0), (2.0, 2.0), (3.0, 3.0), (4.0, 4.0)]);
    config.set(third);
    assert_eq!(config.settings[1], third);
    assert_eq!(config.settings[2], second);
}

#[test]
fn clone_keeps_the_configuration() {
    let mut config = Config::default();
    config.set(setting(Id::F3, LINE));
    config.smart_mode = None;
    config.general.sleep_after = 7;
    let copy = config.clone();
    assert_eq!(copy, config);
    assert_eq!(copy.settings[3], setting(Id::F3, LINE));
}

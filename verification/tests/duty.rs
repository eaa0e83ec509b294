use opilio_lib::duty::AMBIENT_DEFAULT_BITS;
use opilio_lib::duty::AMBIENT_FLOOR_BITS;
use opilio_lib::duty::SMART_FLOOR_DUTY_BITS;
use opilio_lib::duty::SMART_FULL_DUTY_BITS;
use opilio_lib::duty::SWITCH_TEMP_BUFFER_BITS;
use opilio_lib::sane_ambient;
use opilio_lib::smart_duty_plan;
use opilio_lib::DutyPlan;
use opilio_lib::FanSetting;
use opilio_lib::Id;
use opilio_lib::Single;

fn single(x: f32) -> Single {
    Single::from_bits(x.to_bits())
}

fn number(x: Single) -> f32 {
    f32::from_bits(x.bits)
}

/// The arithmetic that turns a plan into a duty value, as the program does it.
fn duty_of(plan: DutyPlan, temp: f32, max_duty_value: u16) -> u16 {
    let percent = match plan {
        DutyPlan::Off => return 0,
        DutyPlan::Full => return max_duty_value,
        DutyPlan::Percent(p) => number(p),
        DutyPlan::Between(low, high) => {
            let (min_temp, min_duty) = (number(low.0), number(low.1));
            let (max_temp, max_duty) = (number(high.0), number(high.1));
            ((max_duty - min_duty) * (temp - min_temp) / (max_temp - min_temp)) + min_duty
        }
    };
    (max_duty_value as f32 / 100.0 * percent) as u16
}

fn get_duty(setting: &FanSetting, temp: f32, max_duty_value: u16) -> u16 {
    duty_of(setting.duty_plan(single(temp)), temp, max_duty_value)
}

fn get_smart_duty(
    temp: f32,
    ambient_temp: f32,
    min_delta: f32,
    max_temp: f32,
    max_duty_value: u16,
    is_running: bool,
) -> u16 {
    let ambient_temp = number(sane_ambient(single(ambient_temp)));
    let trigger_temp = ambient_temp + min_delta;
    let release_temp = trigger_temp - f32::from_bits(SWITCH_TEMP_BUFFER_BITS);
    let plan = smart_duty_plan(
        single(temp),
        single(trigger_temp),
        single(release_temp),
        single(max_temp),
        is_running,
    );
    duty_of(plan, temp, max_duty_value)
}

fn line() -> FanSetting {
    let mut setting = FanSetting::new(Id::P1);
    setting.curve = [
        (single(0.0), single(0.0)),
        (single(25.0), single(25.0)),
        (single(50.0), single(50.0)),
        (single(100.0), single(100.0)),
    ];
    setting
}

#[test]
fn should_calculate_duty() {
    let setting = line();
    println!("{:#?}", setting);

    let temps = (0u16..=100).into_iter().collect::<Vec<_>>();

    let duties = temps
        .iter()
        .map(|t| get_duty(&setting, *t as f32, 100))
        .collect::<Vec<_>>();

    assert_eq!(temps, duties);

    let double_duties = temps
        .iter()
        .map(|t| get_duty(&setting, *t as f32, 200))
        .collect::<Vec<_>>();

    assert_eq!(
        double_duties,
        duties.iter().map(|d| *d * 2).collect::<Vec<_>>()
    );
}

#[test]
fn should_calculate_smart_duty() {
    let duty = get_smart_duty(40.0, 20.0, 5.0, 100.0, 100, true);
    println!("duty: {duty}");
    assert_eq!(duty, 36);

    let duty = get_smart_duty(40.0, 20.0, 5.0, 40.0, 100, true);
    println!("duty: {duty}");
    assert_eq!(duty, 100);

    let duty = get_smart_duty(35.0, 20.0, 5.0, 100.0, 100, true);
    println!("duty: {duty}");
    assert_eq!(duty, 30);

    let duty = get_smart_duty(30.0, 20.0, 5.0, 100.0, 100, true);
    println!("duty: {duty}");
    assert_eq!(duty, 25);

    let duty = get_smart_duty(30.0, 20.0, 5.0, 40.0, 100, true);
    println!("duty: {duty}");
    assert_eq!(duty, 46);

    let duty = get_smart_duty(35.0, 20.0, 5.0, 40.0, 100, true);
    println!("duty: {duty}");
    assert_eq!(duty, 73);

    let duty = get_smart_duty(40.0, 20.0, 5.0, 100.0, 100, true);
    println!("duty: {duty}");
    assert_eq!(duty, 36);

    let duty = get_smart_duty(40.0, 20.0, 5.0, 40.0, 100, true);
    println!("duty: {duty}");
    assert_eq!(duty, 100);

    let duty = get_smart_duty(25.0, 20.0, 5.0, 100.0, 100, true);
    println!("duty: {duty}");
    assert_eq!(duty, 20);

    let duty = get_smart_duty(25.0, 20.0, 5.0, 100.0, 100, false);
    println!("duty: {duty}");
    assert_eq!(duty, 0);

    let duty = get_smart_duty(25.1, 20.0, 5.0, 100.0, 100, false);
    println!("duty: {duty}");
    assert_eq!(duty, 20);

    let duty = get_smart_duty(24.0, 20.0, 5.0, 100.0, 100, false);
    println!("duty: {duty}");
    assert_eq!(duty, 0);

    let duty = get_smart_duty(20.0, 20.0, 5.0, 100.0, 100, true);
    println!("duty: {duty}");
    assert_eq!(duty, 0);

    let duty = get_smart_duty(22.0, 20.0, 5.0, 100.0, 100, true);
    println!("duty: {duty}");
    assert_eq!(duty, 0);

    let duty = get_smart_duty(23.0, 20.0, 5.0, 100.0, 100, true);
    println!("duty: {duty}");
    assert_eq!(duty, 0);

    let duty = get_smart_duty(20.0, 20.0, 5.0, 100.0, 100, false);
    println!("duty: {duty}");
    assert_eq!(duty, 0);
}

#[test]
fn curve_plan_is_the_bracketing_segment() {
    let setting = line();
    let c = setting.curve;
    assert_eq!(setting.duty_plan(single(-1.0)), DutyPlan::Percent(c[0].1));
    assert_eq!(setting.duty_plan(single(-0.0)), DutyPlan::Between(c[0], c[1]));
    assert_eq!(setting.duty_plan(single(0.0)), DutyPlan::Between(c[0], c[1]));
    assert_eq!(setting.duty_plan(single(24.999998)), DutyPlan::Between(c[0], c[1]));
    assert_eq!(setting.duty_plan(single(25.0)), DutyPlan::Between(c[1], c[2]));
    assert_eq!(setting.duty_plan(single(49.0)), DutyPlan::Between(c[1], c[2]));
    assert_eq!(setting.duty_plan(single(50.0)), DutyPlan::Between(c[2], c[3]));
    assert_eq!(setting.duty_plan(single(99.99999)), DutyPlan::Between(c[2], c[3]));
    assert_eq!(setting.duty_plan(single(100.0)), DutyPlan::Percent(c[3].1));
    assert_eq!(setting.duty_plan(single(f32::MAX)), DutyPlan::Percent(c[3].1));
    assert_eq!(setting.duty_plan(single(f32::INFINITY)), DutyPlan::Percent(c[3].1));
    assert_eq!(setting.duty_plan(single(f32::NAN)), DutyPlan::Percent(c[3].1));
    assert_eq!(setting.duty_plan(single(f32::NEG_INFINITY)), DutyPlan::Percent(c[0].1));
}

#[test]
fn curve_is_clamped_at_both_ends() {
    let pump = FanSetting::new(Id::P1);
    assert_eq!(get_duty(&pump, 10.0, 100), 50);
    assert_eq!(get_duty(&pump, 24.9, 1000), 500);
    assert_eq!(get_duty(&pump, 25.0, 100), 50);
    assert_eq!(get_duty(&pump, 27.5, 100), 55);
    assert_eq!(get_duty(&pump, 40.0, 100), 100);
    assert_eq!(get_duty(&pump, 90.0, 256), 256);
    let fan = FanSetting::new(Id::F1);
    assert_eq!(get_duty(&fan, 0.0, 100), 0);
    assert_eq!(get_duty(&fan, 32.5, 100), 40);
    assert_eq!(get_duty(&fan, 32.5, 1000), 400);
}

#[test]
fn ambient_below_minus_twenty_is_replaced() {
    assert_eq!(AMBIENT_FLOOR_BITS, (-20.0f32).to_bits());
    assert_eq!(AMBIENT_DEFAULT_BITS, 22.0f32.to_bits());
    assert_eq!(sane_ambient(single(-20.000002)), single(22.0));
    assert_eq!(sane_ambient(single(-273.15)), single(22.0));
    assert_eq!(sane_ambient(single(f32::NEG_INFINITY)), single(22.0));
    assert_eq!(sane_ambient(single(-20.0)), single(-20.0));
    assert_eq!(sane_ambient(single(-19.0)), single(-19.0));
    assert_eq!(sane_ambient(single(20.0)), single(20.0));
    let nan = single(f32::NAN);
    assert_eq!(sane_ambient(nan), nan);
    assert_eq!(get_smart_duty(30.0, -50.0, 5.0, 100.0, 100, true), 23);
    assert_eq!(get_smart_duty(30.0, 22.0, 5.0, 100.0, 100, true), 23);
    assert_eq!(get_smart_duty(27.0, -50.0, 5.0, 100.0, 100, false), 0);
}

#[test]
fn smart_plan_has_a_band_of_one_degree() {
    assert_eq!(SWITCH_TEMP_BUFFER_BITS, 1.0f32.to_bits());
    assert_eq!(SMART_FLOOR_DUTY_BITS, 20.0f32.to_bits());
    assert_eq!(SMART_FULL_DUTY_BITS, 100.0f32.to_bits());
    let trigger = single(25.0);
    let release = single(24.0);
    let max = single(40.0);
    let ramp = DutyPlan::Between((trigger, single(20.0)), (max, single(100.0)));
    assert_eq!(smart_duty_plan(single(24.0), trigger, release, max, true), DutyPlan::Off);
    assert_eq!(smart_duty_plan(single(24.000002), trigger, release, max, true), ramp);
    assert_eq!(smart_duty_plan(single(25.0), trigger, release, max, true), ramp);
    assert_eq!(smart_duty_plan(single(24.5), trigger, release, max, false), DutyPlan::Off);
    assert_eq!(smart_duty_plan(single(25.0), trigger, release, max, false), DutyPlan::Off);
    assert_eq!(smart_duty_plan(single(25.000002), trigger, release, max, false), ramp);
    assert_eq!(smart_duty_plan(single(39.9), trigger, release, max, false), ramp);
    assert_eq!(smart_duty_plan(single(40.0), trigger, release, max, false), DutyPlan::Full);
    assert_eq!(smart_duty_plan(single(40.0), trigger, release, max, true), DutyPlan::Full);
    assert_eq!(smart_duty_plan(single(80.0), trigger, release, max, true), DutyPlan::Full);
    assert_eq!(smart_duty_plan(single(f32::NAN), trigger, release, max, true), ramp);
}

#[test]
fn smart_duty_saturates_at_the_upper_temperature() {
    assert_eq!(get_smart_duty(40.0, 20.0, 5.0, 40.0, 1000, false), 1000);
    assert_eq!(get_smart_duty(41.0, 20.0, 5.0, 40.0, 65535, true), 65535);
    assert_eq!(get_smart_duty(39.0, 20.0, 5.0, 40.0, 200, true), 189);
    assert_eq!(get_smart_duty(32.5, 20.0, 5.0, 40.0, 200, true), 120);
}

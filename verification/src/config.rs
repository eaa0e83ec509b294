//! Factory values, validity, and the accessors of the configuration.
use crate::bounded::frame_bytes;
use crate::bounded::frame_new;
use crate::bounded::settings_new;
use crate::bounded::settings_push;
use crate::bounded::settings_replace;
use crate::bounded::settings_slice;
use crate::bounded::stored_settings;
use crate::bounded::Frame;
use crate::decode::take_config;
use crate::encode::put_config;
use crate::error::Error;
use crate::model::Config;
use crate::model::ConfigView;
use crate::model::FanSetting;
use crate::model::GeneralConfig;
use crate::model::Id;
use crate::model::SmartMode;
use crate::model::SwitchMode;
use crate::model::TempDuty;
use crate::single::Single;
use crate::single::EIGHTY_BITS;
use crate::single::FIFTY_BITS;
use crate::single::FIVE_BITS;
use crate::single::FORTY_BITS;
use crate::single::HUNDRED_BITS;
use crate::single::NINETY_FIVE_BITS;
use crate::single::SIXTY_BITS;
use crate::single::THIRTY_BITS;
use crate::single::THIRTY_FIVE_BITS;
use crate::single::TWENTY_FIVE_BITS;
use crate::single::ZERO_BITS;
use crate::wire::config_bytes;
use crate::wire::parse_config;
use vstd::prelude::*;

verus! {

/// Shortest time, in seconds, that a valid configuration lets the device wait
/// before it goes to standby.
pub const MIN_SLEEP_AFTER: u32 = 5;

/// Least duty of the pump, in percent, that a valid smart mode asks for.
pub const MIN_PUMP_DUTY_BITS: u32 = FORTY_BITS;

/// The control point at a whole temperature with a whole duty.
pub open spec fn whole_point(temp: int, duty: int) -> TempDuty {
    (Single::whole(temp), Single::whole(duty))
}

/// The factory curve of the pump.
pub open spec fn pump_curve() -> [TempDuty; 4] {
    [whole_point(25, 50), whole_point(30, 60), whole_point(35, 80), whole_point(40, 100)]
}

/// The factory curve of a fan.
pub open spec fn fan_curve() -> [TempDuty; 4] {
    [whole_point(25, 0), whole_point(30, 30), whole_point(35, 50), whole_point(40, 100)]
}

/// Whether the step from `low` to `high` rises in temperature and in duty.
pub open spec fn step_rises(low: TempDuty, high: TempDuty) -> bool {
    low.0.below(high.0) && low.1.below(high.1)
}

/// Whether every point of the curve lies above the one before it, in
/// temperature and in duty.
pub open spec fn curve_rises(curve: [TempDuty; 4]) -> bool {
    forall|i: int| 0 <= i < 3 ==> step_rises(#[trigger] curve[i], curve[i + 1])
}

impl FanSetting {
    /// The factory setting of the pump or of a fan.
    pub open spec fn factory(id: Id) -> FanSetting {
        FanSetting {
            id,
            curve: if id == Id::P1 {
                pump_curve()
            } else {
                fan_curve()
            },
        }
    }

    /// Whether the curve rises strictly from each point to the next.
    pub open spec fn valid(self) -> bool {
        curve_rises(self.curve)
    }

    /// The factory setting of the pump or of a fan.
    pub fn new(id: Id) -> (r: FanSetting)
        ensures
            r == FanSetting::factory(id),
    {
        let t25 = Single::from_bits(TWENTY_FIVE_BITS);
        let t30 = Single::from_bits(THIRTY_BITS);
        let t35 = Single::from_bits(THIRTY_FIVE_BITS);
        let t40 = Single::from_bits(FORTY_BITS);
        let full = Single::from_bits(HUNDRED_BITS);
        let curve = if id == Id::P1 {
            [
                (t25, Single::from_bits(FIFTY_BITS)),
                (t30, Single::from_bits(SIXTY_BITS)),
                (t35, Single::from_bits(EIGHTY_BITS)),
                (t40, full),
            ]
        } else {
            [
                (t25, Single::from_bits(ZERO_BITS)),
                (t30, Single::from_bits(THIRTY_BITS)),
                (t35, Single::from_bits(FIFTY_BITS)),
                (t40, full),
            ]
        };
        proof {
            Single::lemma_named_patterns();
            assert(curve =~= FanSetting::factory(id).curve);
        }
        FanSetting { id, curve }
    }

    /// Whether the setting is that of a fan, not of the pump.
    pub fn is_fan(&self) -> (r: bool)
        ensures
            r == (self.id != Id::P1),
    {
        !matches!(self.id, Id::P1)
    }

    /// Whether the curve rises strictly, in temperature and in duty, from each
    /// point to the next. A curve with a NaN in it is not valid.
    pub fn is_valid(&self) -> (r: bool)
        ensures
            r == self.valid(),
    {
        let mut previous = self.curve[0];
        let mut i: usize = 1;
        while i < 4
            invariant
                1 <= i <= 4,
                previous == self.curve[i - 1],
                forall|j: int| 0 <= j < i - 1 ==> step_rises(#[trigger] self.curve[j], self.curve[j + 1]),
            decreases 4 - i,
        {
            let current = self.curve[i];
            if !(previous.0.lt(&current.0) && previous.1.lt(&current.1)) {
                assert(!step_rises(self.curve[i - 1], self.curve[i - 1 + 1]));
                return false;
            }
            previous = current;
            i += 1;
        }
        true
    }
}

/// A curve with a step that does not rise, in temperature or in duty, is not
/// valid.
pub proof fn lemma_flat_step_is_invalid(setting: FanSetting, i: int)
    requires
        0 <= i < 3,
        !setting.curve[i].0.below(setting.curve[i + 1].0) || !setting.curve[i].1.below(
            setting.curve[i + 1].1,
        ),
    ensures
        !setting.valid(),
{
    assert(!step_rises(setting.curve[i], setting.curve[i + 1]));
}

impl SmartMode {
    /// The factory values: the fans start 5 degrees above ambient and run at
    /// full speed from 40 degrees on, the pump runs at 95 percent.
    pub open spec fn factory() -> SmartMode {
        SmartMode {
            trigger_above_ambient: Single::whole(5),
            upper_temp: Single::whole(40),
            pump_duty: Single::whole(95),
        }
    }

    /// Whether the pump is kept at 40 percent or more.
    pub open spec fn valid(self) -> bool {
        Single::whole(40).at_most(self.pump_duty)
    }
}

impl Default for SmartMode {
    fn default() -> (r: SmartMode)
        ensures
            r == SmartMode::factory(),
    {
        proof {
            Single::lemma_named_patterns();
        }
        SmartMode {
            trigger_above_ambient: Single::from_bits(FIVE_BITS),
            upper_temp: Single::from_bits(FORTY_BITS),
            pump_duty: Single::from_bits(NINETY_FIVE_BITS),
        }
    }
}

impl SwitchMode {
    pub fn is_on(&self) -> (r: bool)
        ensures
            r == (*self == SwitchMode::On),
    {
        matches!(self, SwitchMode::On)
    }
}

impl Default for SwitchMode {
    fn default() -> (r: SwitchMode)
        ensures
            r == SwitchMode::On,
    {
        SwitchMode::On
    }
}

impl GeneralConfig {
    /// The factory values: standby after an hour without a ping, light and
    /// buzzer switched off.
    pub open spec fn factory() -> GeneralConfig {
        GeneralConfig { sleep_after: 3600, led: SwitchMode::Off, buzzer: SwitchMode::Off }
    }
}

impl Default for GeneralConfig {
    fn default() -> (r: GeneralConfig)
        ensures
            r == GeneralConfig::factory(),
    {
        GeneralConfig { sleep_after: 3600, led: SwitchMode::Off, buzzer: SwitchMode::Off }
    }
}

/// Index of the first setting with the given identifier.
pub open spec fn position_of(settings: Seq<FanSetting>, id: Id) -> Option<int>
    decreases settings.len(),
{
    if settings.len() == 0 {
        None
    } else if settings[0].id == id {
        Some(0)
    } else {
        match position_of(settings.skip(1), id) {
            Some(i) => Some(i + 1),
            None => None,
        }
    }
}

/// The index that `position_of` gives is that of a setting with the
/// identifier, before which none has it; it gives none only where no setting
/// has the identifier.
pub proof fn lemma_position_of(settings: Seq<FanSetting>, id: Id)
    ensures
        match position_of(settings, id) {
            Some(i) => 0 <= i < settings.len() && settings[i].id == id && forall|j: int|
                0 <= j < i ==> (#[trigger] settings[j]).id != id,
            None => forall|j: int| 0 <= j < settings.len() ==> (#[trigger] settings[j]).id != id,
        },
    decreases settings.len(),
{
    if settings.len() > 0 && settings[0].id != id {
        let rest = settings.skip(1);
        lemma_position_of(rest, id);
        match position_of(rest, id) {
            Some(i) => {
                assert forall|j: int| 0 <= j < i + 1 implies (#[trigger] settings[j]).id != id by {
                    if j > 0 {
                        assert(settings[j] == rest[j - 1]);
                    }
                }
                assert(settings[i + 1] == rest[i]);
            },
            None => {
                assert forall|j: int| 0 <= j < settings.len() implies (#[trigger] settings[j]).id
                    != id by {
                    if j > 0 {
                        assert(settings[j] == rest[j - 1]);
                    }
                }
            },
        }
    }
}

/// Where `i` is the least index of a setting with the identifier, it is what
/// `position_of` gives; where no setting has the identifier, it gives none.
pub proof fn lemma_position_is(settings: Seq<FanSetting>, id: Id, i: int)
    requires
        0 <= i <= settings.len(),
        forall|j: int| 0 <= j < i ==> (#[trigger] settings[j]).id != id,
        i < settings.len() ==> settings[i].id == id,
    ensures
        position_of(settings, id) == if i < settings.len() {
            Some(i)
        } else {
            None
        },
{
    lemma_position_of(settings, id);
}

impl ConfigView {
    /// The factory configuration: the general factory values, the smart mode
    /// with its factory values, and the factory settings of the pump and of
    /// the three fans, in this order.
    pub open spec fn factory() -> ConfigView {
        ConfigView {
            general: GeneralConfig::factory(),
            smart_mode: Some(SmartMode::factory()),
            settings: seq![
                FanSetting::factory(Id::P1),
                FanSetting::factory(Id::F1),
                FanSetting::factory(Id::F2),
                FanSetting::factory(Id::F3),
            ],
        }
    }

    /// Whether the configuration may take effect: the device waits at least
    /// five seconds before standby, and the smart mode, where it is set, keeps
    /// the pump at 40 percent or more; where it is not set, every curve rises.
    pub open spec fn valid(self) -> bool {
        &&& self.general.sleep_after >= MIN_SLEEP_AFTER
        &&& match self.smart_mode {
            Some(mode) => mode.valid(),
            None => forall|i: int| 0 <= i < self.settings.len() ==> (#[trigger] self.settings[i]).valid(),
        }
    }

    /// The settings with the first one of `setting`'s identifier replaced by
    /// `setting`; unchanged where none has it.
    pub open spec fn with_setting(self, setting: FanSetting) -> ConfigView {
        match position_of(self.settings, setting.id) {
            Some(i) => ConfigView { settings: self.settings.update(i, setting), ..self },
            None => self,
        }
    }

    /// The first setting of the given identifier.
    pub open spec fn setting_of(self, id: Id) -> Option<FanSetting> {
        match position_of(self.settings, id) {
            Some(i) => Some(self.settings[i]),
            None => None,
        }
    }
}

/// With the smart mode set, the curves do not count: the configuration is
/// valid exactly where the device waits at least five seconds and the pump is
/// kept at 40 percent or more.
pub proof fn lemma_smart_mode_governs(c: ConfigView)
    requires
        c.smart_mode is Some,
    ensures
        c.valid() <==> c.general.sleep_after >= 5 && Single::whole(40).at_most(
            c.smart_mode->Some_0.pump_duty,
        ),
{
}

/// Without the smart mode, one stored curve that is not valid makes the
/// configuration invalid.
pub proof fn lemma_curves_govern(c: ConfigView, i: int)
    requires
        c.smart_mode is None,
        0 <= i < c.settings.len(),
        !c.settings[i].valid(),
    ensures
        !c.valid(),
{
}

/// The factory configuration is valid, and so is each of its curves.
pub proof fn lemma_factory_is_valid()
    ensures
        ConfigView::factory().valid(),
        forall|i: int| 0 <= i < 4 ==> (#[trigger] ConfigView::factory().settings[i]).valid(),
{
    Single::lemma_whole_order(40, 95);
    assert(FanSetting::factory(Id::P1).valid()) by {
        lemma_factory_curve_rises(Id::P1);
    }
    assert(FanSetting::factory(Id::F1).valid()) by {
        lemma_factory_curve_rises(Id::F1);
    }
    assert(FanSetting::factory(Id::F2).valid()) by {
        lemma_factory_curve_rises(Id::F2);
    }
    assert(FanSetting::factory(Id::F3).valid()) by {
        lemma_factory_curve_rises(Id::F3);
    }
}

proof fn lemma_factory_curve_rises(id: Id)
    ensures
        FanSetting::factory(id).valid(),
{
    let c = FanSetting::factory(id).curve;
    Single::lemma_whole_order(25, 30);
    Single::lemma_whole_order(30, 35);
    Single::lemma_whole_order(35, 40);
    Single::lemma_whole_order(50, 60);
    Single::lemma_whole_order(60, 80);
    Single::lemma_whole_order(80, 100);
    Single::lemma_whole_order(0, 30);
    Single::lemma_whole_order(30, 50);
    Single::lemma_whole_order(50, 100);
    assert(step_rises(c[0int], c[1int]));
    assert(step_rises(c[1int], c[2int]));
    assert(step_rises(c[2int], c[3int]));
    assert forall|i: int| 0 <= i < 3 implies step_rises(#[trigger] c[i], c[i + 1]) by {
        if i == 0 {
        } else if i == 1 {
        } else {
        }
    }
}

impl Default for Config {
    fn default() -> (r: Config)
        ensures
            r@ == ConfigView::factory(),
    {
        let mut settings = settings_new();
        let ids = [Id::P1, Id::F1, Id::F2, Id::F3];
        let mut i: usize = 0;
        while i < 4
            invariant
                i <= 4,
                ids@ == seq![Id::P1, Id::F1, Id::F2, Id::F3],
                stored_settings(settings).len() == i,
                forall|j: int| 0 <= j < i ==> #[trigger] stored_settings(settings)[j] == FanSetting::factory(ids@[j]),
            decreases 4 - i,
        {
            match settings_push(&mut settings, FanSetting::new(ids[i])) {
                Ok(()) => {},
                Err(_) => {
                    assert(false);
                },
            }
            i += 1;
        }
        let r = Config {
            general: GeneralConfig::default(),
            smart_mode: Some(SmartMode::default()),
            settings,
        };
        proof {
            assert(r@.settings =~= ConfigView::factory().settings);
        }
        r
    }
}

impl Config {
    /// Whether the configuration may take effect.
    pub fn is_valid(&self) -> (r: bool)
        ensures
            r == self@.valid(),
    {
        if self.general.sleep_after < MIN_SLEEP_AFTER {
            return false;
        }
        if let Some(ref smart_mode) = self.smart_mode {
            proof {
                Single::lemma_named_patterns();
            }
            return smart_mode.pump_duty.ge(&Single::from_bits(MIN_PUMP_DUTY_BITS));
        }
        let settings = settings_slice(&self.settings);
        let mut i: usize = 0;
        while i < settings.len()
            invariant
                i <= settings@.len(),
                settings@ == self@.settings,
                self.smart_mode is None,
                self.general.sleep_after >= MIN_SLEEP_AFTER,
                forall|j: int| 0 <= j < i ==> (#[trigger] settings@[j]).valid(),
            decreases settings@.len() - i,
        {
            if !settings[i].is_valid() {
                return false;
            }
            i += 1;
        }
        true
    }

    /// Replaces the first stored setting that has `config`'s identifier;
    /// does nothing where none has it.
    pub fn set(&mut self, config: FanSetting)
        ensures
            final(self)@ == old(self)@.with_setting(config),
    {
        let found = self.find(config.id);
        match found {
            Some(i) => {
                settings_replace(&mut self.settings, i, config);
            },
            None => {},
        }
    }

    /// The first stored setting of the given identifier.
    pub fn get(&self, fan_id: Id) -> (r: Option<&FanSetting>)
        ensures
            match r {
                Some(f) => self@.setting_of(fan_id) == Some(*f),
                None => self@.setting_of(fan_id) is None,
            },
    {
        match self.find(fan_id) {
            Some(i) => Some(&settings_slice(&self.settings)[i]),
            None => None,
        }
    }

    fn find(&self, id: Id) -> (r: Option<usize>)
        ensures
            match r {
                Some(i) => position_of(self@.settings, id) == Some(i as int) && i < self@.settings.len(),
                None => position_of(self@.settings, id) is None,
            },
    {
        let settings = settings_slice(&self.settings);
        let mut i: usize = 0;
        while i < settings.len()
            invariant
                i <= settings@.len(),
                settings@ == self@.settings,
                forall|j: int| 0 <= j < i ==> (#[trigger] settings@[j]).id != id,
            decreases settings@.len() - i,
        {
            if settings[i].id == id {
                proof {
                    lemma_position_is(settings@, id, i as int);
                }
                return Some(i);
            }
            i += 1;
        }
        proof {
            lemma_position_is(settings@, id, i as int);
        }
        None
    }

    /// The bytes of the configuration, as they stand in a frame that carries it.
    pub fn to_vec(&self) -> (r: Result<Frame, Error>)
        ensures
            r is Ok,
            frame_bytes(r->Ok_0) == config_bytes(self@),
    {
        let mut frame = frame_new();
        put_config(&mut frame, self);
        proof {
            assert(Seq::<u8>::empty() + config_bytes(self@) =~= config_bytes(self@));
        }
        Ok(frame)
    }

    /// The configuration at the front of `slice`; bytes after it are ignored.
    /// Fails with `Deserialize` where the bytes are not those of a configuration.
    pub fn from_bytes(slice: &[u8]) -> (r: Result<Config, Error>)
        ensures
            match r {
                Ok(c) => parse_config(slice@) is Some && parse_config(slice@)->Some_0.0 == c@,
                Err(e) => parse_config(slice@) is None && e == Error::Deserialize,
            },
    {
        let (config, _) = take_config(slice)?;
        Ok(config)
    }
}

} // verus!

//! The rules by which the state of an indoor unit is kept and shown to a
//! home-automation hub, and by which the commands of the hub become
//! messages.

use vstd::prelude::*;
use vstd::std_specs::convert::FromSpecImpl;
use vstd::string::StringExecFns;
use crate::client::Error;
use crate::client::message::{MessageSet, first_typed};
use crate::message::convert::{IsMessage, ValueRepr, ValueType};
use crate::message::types::{Celsius, FanSetting, OperationMode, PowerSetting};
use crate::message::{
    CoolHighTempLimit, CoolLowTempLimit, CurrentTemp, FanMode as FanModeMessage, HeatHighTempLimit,
    HeatLowTempLimit, Mode, Power, SetTemp, new as new_message,
};
use crate::packet::{Message, Value};
use crate::text::str_eq;

verus! {

/// Text that names no value of an enumeration: the name of the enumeration
/// and the text.
#[derive(Debug)]
pub struct InvalidEnumString(pub &'static str, pub String);

/// The mode of the unit as the hub knows it.
#[derive(Debug, Clone, Copy, PartialEq, Eq, Structural)]
pub enum HvacMode {
    Off,
    Auto,
    Cool,
    Heat,
    Dry,
    FanOnly,
    Unknown,
}

impl HvacMode {
    /// The mode that the text `s` names; `Unknown` has no name to be read.
    pub open spec fn of_name(s: Seq<char>) -> Option<HvacMode> {
        if s == "off"@ {
            Some(HvacMode::Off)
        } else if s == "auto"@ {
            Some(HvacMode::Auto)
        } else if s == "cool"@ {
            Some(HvacMode::Cool)
        } else if s == "heat"@ {
            Some(HvacMode::Heat)
        } else if s == "dry"@ {
            Some(HvacMode::Dry)
        } else if s == "fan_only"@ {
            Some(HvacMode::FanOnly)
        } else {
            None
        }
    }

    /// The text that is shown for the mode.
    pub open spec fn spec_name(&self) -> Seq<char> {
        match self {
            HvacMode::Off => "off"@,
            HvacMode::Auto => "auto"@,
            HvacMode::Cool => "cool"@,
            HvacMode::Heat => "heat"@,
            HvacMode::Dry => "dry"@,
            HvacMode::FanOnly => "fan_only"@,
            HvacMode::Unknown => "None"@,
        }
    }

    pub fn name(&self) -> (name: &'static str)
        ensures
            name@ == self.spec_name(),
    {
        match self {
            HvacMode::Off => "off",
            HvacMode::Auto => "auto",
            HvacMode::Cool => "cool",
            HvacMode::Heat => "heat",
            HvacMode::Dry => "dry",
            HvacMode::FanOnly => "fan_only",
            HvacMode::Unknown => "None",
        }
    }

    pub fn from_str(s: &str) -> (r: Result<Self, InvalidEnumString>)
        ensures
            match r {
                Ok(mode) => HvacMode::of_name(s@) == Some(mode),
                Err(err) => HvacMode::of_name(s@) is None && err.0@ == "HvacMode"@ && err.1@ == s@,
            },
    {
        if str_eq(s, "off") {
            Ok(HvacMode::Off)
        } else if str_eq(s, "auto") {
            Ok(HvacMode::Auto)
        } else if str_eq(s, "cool") {
            Ok(HvacMode::Cool)
        } else if str_eq(s, "heat") {
            Ok(HvacMode::Heat)
        } else if str_eq(s, "dry") {
            Ok(HvacMode::Dry)
        } else if str_eq(s, "fan_only") {
            Ok(HvacMode::FanOnly)
        } else {
            Err(InvalidEnumString("HvacMode", String::from_str(s)))
        }
    }

    /// The operation mode that a command for this mode asks for; none for
    /// `Off` and `Unknown`.
    pub open spec fn spec_operation(self) -> Option<OperationMode> {
        match self {
            HvacMode::Off => None,
            HvacMode::Auto => Some(OperationMode::Auto),
            HvacMode::Cool => Some(OperationMode::Cool),
            HvacMode::Heat => Some(OperationMode::Heat),
            HvacMode::Dry => Some(OperationMode::Dry),
            HvacMode::FanOnly => Some(OperationMode::Fan),
            HvacMode::Unknown => None,
        }
    }

    pub fn operation(self) -> (mode: Option<OperationMode>)
        ensures
            mode == self.spec_operation(),
    {
        match self {
            HvacMode::Off => None,
            HvacMode::Auto => Some(OperationMode::Auto),
            HvacMode::Cool => Some(OperationMode::Cool),
            HvacMode::Heat => Some(OperationMode::Heat),
            HvacMode::Dry => Some(OperationMode::Dry),
            HvacMode::FanOnly => Some(OperationMode::Fan),
            HvacMode::Unknown => None,
        }
    }
}

/// The fan mode of the unit as the hub knows it.
#[derive(Debug, Clone, Copy, PartialEq, Eq, Structural)]
pub enum FanMode {
    Auto,
    Low,
    Medium,
    High,
}

impl FanMode {
    /// The fan mode that the text `s` names.
    pub open spec fn of_name(s: Seq<char>) -> Option<FanMode> {
        if s == "auto"@ {
            Some(FanMode::Auto)
        } else if s == "low"@ {
            Some(FanMode::Low)
        } else if s == "medium"@ {
            Some(FanMode::Medium)
        } else if s == "high"@ {
            Some(FanMode::High)
        } else {
            None
        }
    }

    /// The text that is shown for the fan mode.
    pub open spec fn spec_name(&self) -> Seq<char> {
        match self {
            FanMode::Auto => "auto"@,
            FanMode::Low => "low"@,
            FanMode::Medium => "medium"@,
            FanMode::High => "high"@,
        }
    }

    pub fn name(&self) -> (name: &'static str)
        ensures
            name@ == self.spec_name(),
    {
        match self {
            FanMode::Auto => "auto",
            FanMode::Low => "low",
            FanMode::Medium => "medium",
            FanMode::High => "high",
        }
    }

    pub fn from_str(s: &str) -> (r: Result<Self, InvalidEnumString>)
        ensures
            match r {
                Ok(mode) => FanMode::of_name(s@) == Some(mode),
                Err(err) => FanMode::of_name(s@) is None && err.0@ == "FanMode"@ && err.1@ == s@,
            },
    {
        if str_eq(s, "auto") {
            Ok(FanMode::Auto)
        } else if str_eq(s, "low") {
            Ok(FanMode::Low)
        } else if str_eq(s, "medium") {
            Ok(FanMode::Medium)
        } else if str_eq(s, "high") {
            Ok(FanMode::High)
        } else {
            Err(InvalidEnumString("FanMode", String::from_str(s)))
        }
    }

    /// The fan mode for a fan setting of the unit.
    pub open spec fn of_setting(setting: FanSetting) -> FanMode {
        match setting {
            FanSetting::Auto => FanMode::Auto,
            FanSetting::Low => FanMode::Low,
            FanSetting::Medium => FanMode::Medium,
            FanSetting::High => FanMode::High,
        }
    }

    /// The fan setting of the unit for this fan mode.
    pub open spec fn spec_setting(self) -> FanSetting {
        match self {
            FanMode::Auto => FanSetting::Auto,
            FanMode::Low => FanSetting::Low,
            FanMode::Medium => FanSetting::Medium,
            FanMode::High => FanSetting::High,
        }
    }

}

impl From<FanSetting> for FanMode {
    fn from(value: FanSetting) -> (mode: FanMode) {
        match value {
            FanSetting::Auto => FanMode::Auto,
            FanSetting::Low => FanMode::Low,
            FanSetting::Medium => FanMode::Medium,
            FanSetting::High => FanMode::High,
        }
    }
}

impl FromSpecImpl<FanSetting> for FanMode {
    open spec fn obeys_from_spec() -> bool {
        true
    }

    open spec fn from_spec(value: FanSetting) -> FanMode {
        FanMode::of_setting(value)
    }
}

impl From<FanMode> for FanSetting {
    fn from(value: FanMode) -> (setting: FanSetting) {
        match value {
            FanMode::Auto => FanSetting::Auto,
            FanMode::Low => FanSetting::Low,
            FanMode::Medium => FanSetting::Medium,
            FanMode::High => FanSetting::High,
        }
    }
}

impl FromSpecImpl<FanMode> for FanSetting {
    open spec fn obeys_from_spec() -> bool {
        true
    }

    open spec fn from_spec(value: FanMode) -> FanSetting {
        value.spec_setting()
    }
}

impl core::str::FromStr for HvacMode {
    type Err = InvalidEnumString;

    /// Reads a mode from its name, as [`HvacMode::from_str`] does.
    fn from_str(s: &str) -> (r: Result<Self, Self::Err>)
        ensures
            match r {
                Ok(mode) => HvacMode::of_name(s@) == Some(mode),
                Err(err) => HvacMode::of_name(s@) is None && err.0@ == "HvacMode"@ && err.1@ == s@,
            },
    {
        HvacMode::from_str(s)
    }
}

impl core::str::FromStr for FanMode {
    type Err = InvalidEnumString;

    /// Reads a fan mode from its name, as [`FanMode::from_str`] does.
    fn from_str(s: &str) -> (r: Result<Self, Self::Err>)
        ensures
            match r {
                Ok(mode) => FanMode::of_name(s@) == Some(mode),
                Err(err) => FanMode::of_name(s@) is None && err.0@ == "FanMode"@ && err.1@ == s@,
            },
    {
        FanMode::from_str(s)
    }
}

/// Fan mode and fan setting stand for each other, one for one.
pub proof fn lemma_fan_mode_round_trip(mode: FanMode, setting: FanSetting)
    ensures
        FanMode::of_setting(mode.spec_setting()) == mode,
        FanMode::of_setting(setting).spec_setting() == setting,
{
}

/// What is known of the unit.
#[derive(Debug, Clone, Copy, PartialEq, Eq, Structural)]
pub struct State {
    pub power: Option<PowerSetting>,
    pub mode: Option<OperationMode>,
    pub fan: Option<FanSetting>,
    pub set_temp: Option<Celsius>,
    pub current_temp: Option<Celsius>,
}

impl Default for State {
    fn default() -> (state: Self)
        ensures
            state == (State {
                power: None,
                mode: None,
                fan: None,
                set_temp: None,
                current_temp: None,
            }),
    {
        State { power: None, mode: None, fan: None, set_temp: None, current_temp: None }
    }
}

/// The lowest and the highest temperature that can be set.
#[derive(Debug, Clone, Copy, PartialEq, Eq, Structural)]
pub struct TempRange {
    pub low: Celsius,
    pub high: Celsius,
}

/// The ranges of temperature that the unit takes when it cools and when it
/// heats.
#[derive(Debug, Clone, Copy, PartialEq, Eq, Structural)]
pub struct Params {
    pub cooling_range: TempRange,
    pub heating_range: TempRange,
}

impl TempRange {
    /// The range from the lower of the two low ends to the higher of the two
    /// high ends.
    pub open spec fn spec_nonspecific(params: &Params) -> TempRange {
        TempRange {
            low: if params.cooling_range.low.0 <= params.heating_range.low.0 {
                params.cooling_range.low
            } else {
                params.heating_range.low
            },
            high: if params.heating_range.high.0 <= params.cooling_range.high.0 {
                params.cooling_range.high
            } else {
                params.heating_range.high
            },
        }
    }

    /// If a specific mode is not selected, take the greatest bound
    /// of temperature ranges:
    pub fn nonspecific(params: &Params) -> (range: Self)
        ensures
            range == TempRange::spec_nonspecific(params),
    {
        let low = if params.cooling_range.low.0 <= params.heating_range.low.0 {
            params.cooling_range.low
        } else {
            params.heating_range.low
        };
        let high = if params.heating_range.high.0 <= params.cooling_range.high.0 {
            params.cooling_range.high
        } else {
            params.heating_range.high
        };
        TempRange { low, high }
    }

    /// The temperature of the range that is nearest to `temp`.
    pub fn clamp(&self, temp: Celsius) -> (clamped: Celsius)
        requires
            self.low.0 <= self.high.0,
        ensures
            clamped == if temp.0 < self.low.0 {
                self.low
            } else if temp.0 > self.high.0 {
                self.high
            } else {
                temp
            },
    {
        if temp.0 < self.low.0 {
            self.low
        } else if temp.0 > self.high.0 {
            self.high
        } else {
            temp
        }
    }
}

impl Params {
    /// The range that holds in `mode`: that of heating or of cooling, and in
    /// any other mode the range that spans both.
    pub open spec fn spec_range(&self, mode: Option<OperationMode>) -> TempRange {
        match mode {
            Some(OperationMode::Heat) => self.heating_range,
            Some(OperationMode::Cool) => self.cooling_range,
            _ => TempRange::spec_nonspecific(self),
        }
    }

    pub fn range(&self, mode: Option<OperationMode>) -> (range: TempRange)
        ensures
            range == self.spec_range(mode),
    {
        match mode {
            Some(OperationMode::Heat) => self.heating_range,
            Some(OperationMode::Cool) => self.cooling_range,
            _ => TempRange::nonspecific(self),
        }
    }

    /// The ranges that a reply to a read of the four limits holds.
    pub open spec fn of_reply(reply: Seq<Message>) -> Option<Params> {
        match (
            first_typed::<CoolLowTempLimit>(reply),
            first_typed::<CoolHighTempLimit>(reply),
            first_typed::<HeatLowTempLimit>(reply),
            first_typed::<HeatHighTempLimit>(reply),
        ) {
            (Some(cool_low), Some(cool_high), Some(heat_low), Some(heat_high)) => Some(
                Params {
                    cooling_range: TempRange {
                        low: Celsius(cool_low.0),
                        high: Celsius(cool_high.0),
                    },
                    heating_range: TempRange {
                        low: Celsius(heat_low.0),
                        high: Celsius(heat_high.0),
                    },
                },
            ),
            _ => None,
        }
    }

    /// Takes the ranges from the reply to a read of the four limits. That a
    /// limit is missing is an error.
    pub fn from_reply(reply: &MessageSet) -> (r: Result<Params, Error>)
        ensures
            match r {
                Ok(params) => Params::of_reply(reply@) == Some(params),
                Err(Error::MissingMessage(_)) => Params::of_reply(reply@) is None,
                Err(_) => false,
            },
    {
        let cool_low = reply.try_get::<CoolLowTempLimit>()?;
        let cool_high = reply.try_get::<CoolHighTempLimit>()?;
        let heat_low = reply.try_get::<HeatLowTempLimit>()?;
        let heat_high = reply.try_get::<HeatHighTempLimit>()?;
        Ok(
            Params {
                cooling_range: TempRange {
                    low: Celsius::from(cool_low),
                    high: Celsius::from(cool_high),
                },
                heating_range: TempRange {
                    low: Celsius::from(heat_low),
                    high: Celsius::from(heat_high),
                },
            },
        )
    }
}

/// Whether the set temperature means anything: when the unit is off or only
/// fans, or its mode is not known, it reports a set temperature all the same.
pub open spec fn spec_has_temperature(state: &State) -> bool {
    state.power != Some(PowerSetting::Off) && state.mode is Some && state.mode != Some(
        OperationMode::Fan,
    )
}

#[verifier::when_used_as_spec(spec_has_temperature)]
pub fn has_temperature(state: &State) -> (has: bool)
    ensures
        has == spec_has_temperature(state),
{
    match state.power {
        Some(PowerSetting::Off) => {
            return false;
        },
        _ => {},
    }
    match state.mode {
        None => false,
        Some(OperationMode::Fan) => false,
        _ => true,
    }
}

/// `new` where there is one, and `old` where there is not.
pub open spec fn or_keep<T>(new: Option<T>, old: Option<T>) -> Option<T> {
    match new {
        Some(value) => Some(value),
        None => old,
    }
}

/// The state after the messages `data` were taken in. Each of power, mode,
/// fan and current temperature takes the value that `data` holds for it, if
/// it holds one. The set temperature does too, but where it means nothing
/// under the new power and mode it is forgotten.
pub open spec fn updated(state: State, data: Seq<Message>) -> State {
    let power = or_keep(first_typed::<Power>(data), state.power);
    let mode = or_keep(first_typed::<Mode>(data), state.mode);
    let fan = or_keep(first_typed::<FanModeMessage>(data), state.fan);
    let seen = State { power, mode, fan, ..state };
    State {
        power,
        mode,
        fan,
        set_temp: match first_typed::<SetTemp>(data) {
            Some(temp) => if spec_has_temperature(&seen) {
                Some(temp)
            } else {
                None
            },
            None => state.set_temp,
        },
        current_temp: or_keep(first_typed::<CurrentTemp>(data), state.current_temp),
    }
}

pub fn update_state(state: &mut State, data: &MessageSet)
    ensures
        *final(state) == updated(*old(state), data@),
{
    if let Some(power) = data.get::<Power>() {
        state.power = Some(power);
    }
    if let Some(mode) = data.get::<Mode>() {
        state.mode = Some(mode);
    }
    if let Some(fan) = data.get::<FanModeMessage>() {
        state.fan = Some(fan);
    }
    if let Some(temp) = data.get::<SetTemp>() {
        if has_temperature(state) {
            state.set_temp = Some(temp);
        } else {
            state.set_temp = None;
        }
    }
    if let Some(temp) = data.get::<CurrentTemp>() {
        state.current_temp = Some(temp);
    }
}

/// The mode that the hub is shown for a state: none while power or mode is
/// not known, `Off` while the unit is off, and else what its mode comes to.
pub open spec fn spec_hvac_mode(state: &State) -> Option<HvacMode> {
    match (state.power, state.mode) {
        (Some(power), Some(mode)) => Some(
            if power == PowerSetting::Off {
                HvacMode::Off
            } else {
                match mode {
                    OperationMode::Auto => HvacMode::Auto,
                    OperationMode::Cool => HvacMode::Cool,
                    OperationMode::Heat => HvacMode::Heat,
                    OperationMode::Dry => HvacMode::Dry,
                    OperationMode::Fan => HvacMode::FanOnly,
                    _ => HvacMode::Unknown,
                }
            },
        ),
        _ => None,
    }
}

#[verifier::when_used_as_spec(spec_hvac_mode)]
pub fn hvac_mode(state: &State) -> (mode: Option<HvacMode>)
    ensures
        mode == spec_hvac_mode(state),
{
    let power = match state.power {
        Some(power) => power,
        None => {
            return None;
        },
    };
    let mode = match state.mode {
        Some(mode) => mode,
        None => {
            return None;
        },
    };
    let mode = match (power, mode) {
        (PowerSetting::Off, _) => HvacMode::Off,
        (_, OperationMode::Auto) => HvacMode::Auto,
        (_, OperationMode::Cool) => HvacMode::Cool,
        (_, OperationMode::Heat) => HvacMode::Heat,
        (_, OperationMode::Dry) => HvacMode::Dry,
        (_, OperationMode::Fan) => HvacMode::FanOnly,
        _ => HvacMode::Unknown,
    };
    Some(mode)
}

/// Where the hub finds the unit.
#[derive(Debug)]
pub struct DiscoveryConfig {
    pub prefix: String,
    pub object_id: String,
    pub unique_id: String,
}

/// The topics of the climate component, all under one base topic.
#[derive(Debug)]
pub struct ClimateComponentTopics {
    pub availability: String,
    pub current_temperature: String,
    pub fan_mode_command: String,
    pub fan_mode_state: String,
    pub mode_command: String,
    pub mode_state: String,
    pub power_command: String,
    pub temperature_command: String,
    pub temperature_state: String,
}

fn under(base: &str, rest: &str) -> (topic: String)
    ensures
        topic@ == base@ + rest@,
{
    let mut topic = String::from_str(base);
    topic.append(rest);
    topic
}

impl ClimateComponentTopics {
    pub fn new(base: &str) -> (topics: Self)
        ensures
            topics.availability@ == base@ + "/availability"@,
            topics.current_temperature@ == base@ + "/current_temperature"@,
            topics.fan_mode_command@ == base@ + "/fan/set"@,
            topics.fan_mode_state@ == base@ + "/fan/state"@,
            topics.mode_command@ == base@ + "/mode/set"@,
            topics.mode_state@ == base@ + "/mode/state"@,
            topics.power_command@ == base@ + "/power/set"@,
            topics.temperature_command@ == base@ + "/temperature/set"@,
            topics.temperature_state@ == base@ + "/temperature/state"@,
    {
        ClimateComponentTopics {
            availability: under(base, "/availability"),
            current_temperature: under(base, "/current_temperature"),
            fan_mode_command: under(base, "/fan/set"),
            fan_mode_state: under(base, "/fan/state"),
            mode_command: under(base, "/mode/set"),
            mode_state: under(base, "/mode/state"),
            power_command: under(base, "/power/set"),
            temperature_command: under(base, "/temperature/set"),
            temperature_state: under(base, "/temperature/state"),
        }
    }
}

/// All topics that the bridge listens on or publishes to.
#[derive(Debug)]
pub struct Topics {
    pub homeassistant_status: String,
    pub climate: ClimateComponentTopics,
    pub device_config: String,
}

impl Topics {
    /// The base topic of the climate component.
    pub open spec fn component(config: &DiscoveryConfig) -> Seq<char> {
        config.prefix@ + "/climate/"@ + config.object_id@
    }

    pub fn new(config: &DiscoveryConfig) -> (topics: Self)
        ensures
            topics.homeassistant_status@ == config.prefix@ + "/status"@,
            topics.device_config@ == config.prefix@ + "/device/"@ + config.object_id@ + "/config"@,
            topics.climate.availability@ == Topics::component(config) + "/availability"@,
            topics.climate.current_temperature@ == Topics::component(config)
                + "/current_temperature"@,
            topics.climate.fan_mode_command@ == Topics::component(config) + "/fan/set"@,
            topics.climate.fan_mode_state@ == Topics::component(config) + "/fan/state"@,
            topics.climate.mode_command@ == Topics::component(config) + "/mode/set"@,
            topics.climate.mode_state@ == Topics::component(config) + "/mode/state"@,
            topics.climate.power_command@ == Topics::component(config) + "/power/set"@,
            topics.climate.temperature_command@ == Topics::component(config) + "/temperature/set"@,
            topics.climate.temperature_state@ == Topics::component(config) + "/temperature/state"@,
    {
        let prefix = config.prefix.as_str();
        let object_id = config.object_id.as_str();

        let mut component = under(prefix, "/climate/");
        component.append(object_id);
        let climate = ClimateComponentTopics::new(component.as_str());

        let mut device_config = under(prefix, "/device/");
        device_config.append(object_id);
        device_config.append("/config");

        Topics { homeassistant_status: under(prefix, "/status"), device_config, climate }
    }
}

/// The message of the typed message `M` that carries `value`.
pub open spec fn typed_message<M: IsMessage>(value: M::Value) -> Message {
    Message { number: M::spec_number(), value: value.repr_of().value_of() }
}

/// The messages for a power command: `OFF` turns the unit off, `ON` turns it
/// on, and anything else does nothing.
pub open spec fn power_messages(message: Seq<char>) -> Seq<Message> {
    if message == "OFF"@ {
        seq![typed_message::<Power>(PowerSetting::Off)]
    } else if message == "ON"@ {
        seq![typed_message::<Power>(PowerSetting::On)]
    } else {
        Seq::empty()
    }
}

/// The operation mode that a mode command asks for, if it asks for one.
pub open spec fn commanded_mode(message: Seq<char>) -> Option<OperationMode> {
    match HvacMode::of_name(message) {
        Some(mode) => mode.spec_operation(),
        None => None,
    }
}

/// The messages for a mode command: a mode turns the unit on in that mode,
/// and anything else turns it off.
pub open spec fn mode_messages(message: Seq<char>) -> Seq<Message> {
    match commanded_mode(message) {
        Some(mode) => seq![typed_message::<Power>(PowerSetting::On), typed_message::<Mode>(mode)],
        None => seq![typed_message::<Power>(PowerSetting::Off)],
    }
}

/// The messages for a temperature command, whose text was read as
/// `temperature`.
pub open spec fn temperature_messages(temperature: Option<Celsius>) -> Seq<Message> {
    match temperature {
        Some(temp) => seq![typed_message::<SetTemp>(temp)],
        None => Seq::empty(),
    }
}

/// The messages for a fan-mode command.
pub open spec fn fan_messages(message: Seq<char>) -> Seq<Message> {
    match FanMode::of_name(message) {
        Some(mode) => seq![typed_message::<FanModeMessage>(mode.spec_setting())],
        None => Seq::empty(),
    }
}

/// `messages` where `topic` is the topic `on`, and nothing where it is not.
pub open spec fn when_on(topic: Seq<char>, on: Seq<char>, messages: Seq<Message>) -> Seq<Message> {
    if topic == on {
        messages
    } else {
        Seq::empty()
    }
}

/// The messages that go to the unit for what arrived on `topic`.
pub open spec fn command_messages(
    topics: &Topics,
    topic: Seq<char>,
    message: Seq<char>,
    temperature: Option<Celsius>,
) -> Seq<Message> {
    when_on(topic, topics.climate.power_command@, power_messages(message)) + when_on(
        topic,
        topics.climate.mode_command@,
        mode_messages(message),
    ) + when_on(topic, topics.climate.temperature_command@, temperature_messages(temperature))
        + when_on(topic, topics.climate.fan_mode_command@, fan_messages(message))
}

/// What is done about a message of the hub.
#[derive(Debug)]
pub struct Command {
    /// The hub has come up: the unit is announced to it again.
    pub announce: bool,
    /// The messages that are sent to the unit as one request.
    pub messages: Vec<Message>,
}

fn push_power(messages: &mut Vec<Message>, message: &str)
    ensures
        final(messages)@ == old(messages)@ + power_messages(message@),
{
    let power = if str_eq(message, "OFF") {
        Some(PowerSetting::Off)
    } else if str_eq(message, "ON") {
        Some(PowerSetting::On)
    } else {
        None
    };
    if let Some(power) = power {
        messages.push(new_message::<Power>(power));
    }
    assert(messages@ =~= old(messages)@ + power_messages(message@));
}

fn push_mode(messages: &mut Vec<Message>, message: &str)
    ensures
        final(messages)@ == old(messages)@ + mode_messages(message@),
{
    let mode = match HvacMode::from_str(message) {
        Ok(mode) => mode.operation(),
        Err(_) => None,
    };
    if let Some(mode) = mode {
        messages.push(new_message::<Power>(PowerSetting::On));
        messages.push(new_message::<Mode>(mode));
    } else {
        messages.push(new_message::<Power>(PowerSetting::Off));
    }
    assert(messages@ =~= old(messages)@ + mode_messages(message@));
}

fn push_fan(messages: &mut Vec<Message>, message: &str)
    ensures
        final(messages)@ == old(messages)@ + fan_messages(message@),
{
    match FanMode::from_str(message) {
        Ok(mode) => {
            messages.push(new_message::<FanModeMessage>(FanSetting::from(mode)));
        },
        Err(_) => {},
    }
    assert(messages@ =~= old(messages)@ + fan_messages(message@));
}

/// Decides what to do about `message`, which arrived on `topic`. The text
/// of a temperature command is read by the caller, who hands in what it
/// read as `temperature`.
pub fn on_message(
    topics: &Topics,
    topic: &str,
    message: &str,
    temperature: Option<Celsius>,
) -> (command: Command)
    ensures
        command.announce == (topic@ == topics.homeassistant_status@),
        command.messages@ == command_messages(topics, topic@, message@, temperature),
{
    let mut messages: Vec<Message> = Vec::new();
    let ghost empty = Seq::<Message>::empty();

    let announce = str_eq(topics.homeassistant_status.as_str(), topic);

    let ghost a = empty;
    if str_eq(topics.climate.power_command.as_str(), topic) {
        push_power(&mut messages, message);
        proof {
            a = power_messages(message@);
        }
    }
    assert(messages@ =~= a);

    let ghost b = empty;
    if str_eq(topics.climate.mode_command.as_str(), topic) {
        push_mode(&mut messages, message);
        proof {
            b = mode_messages(message@);
        }
    }
    assert(messages@ =~= a + b);

    let ghost c = empty;
    if str_eq(topics.climate.temperature_command.as_str(), topic) {
        if let Some(temp) = temperature {
            messages.push(new_message::<SetTemp>(temp));
        }
        proof {
            c = temperature_messages(temperature);
        }
    }
    assert(messages@ =~= a + b + c);

    let ghost d = empty;
    if str_eq(topics.climate.fan_mode_command.as_str(), topic) {
        push_fan(&mut messages, message);
        proof {
            d = fan_messages(message@);
        }
    }
    assert(messages@ =~= a + b + c + d);

    Command { announce, messages }
}

} // verus!

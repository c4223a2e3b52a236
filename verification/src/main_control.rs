//! The main control: from the sensors' readings it decides what each
//! actuator does, and when the drone ends its task or turns back home.

use vstd::prelude::*;
use crate::sprayers::{
    Sprayers, Dispenser, operation_suspend, maintain_text, water_on_text, water_off_text,
    fertiliser_on_text, fertiliser_off_text, pesticide_on_text, pesticide_off_text,
};
use crate::structs::{GPS, Ultrasonic};
use crate::text::{int_text, int_to_text, parse_int, parse_int_spec};

verus! {

/// Where the field lies: the path runs along longitude 5, from latitude 100
/// (home) to latitude 130.
pub const PATH_LONGITUDE: i32 = 5;
pub const PATH_LATITUDE_START: i32 = 100;
pub const PATH_LATITUDE_END: i32 = 130;

/// The state of the mission, as the main control keeps it.
#[derive(Debug, Clone, Copy, PartialEq, Eq, Structural)]
pub struct MissionFlags {
    /// The drone has not yet covered the whole path.
    pub task_ongoing: bool,
    /// The drone is flying back to its starting point.
    pub back_home: bool,
    /// The drone is coming down at its starting point.
    pub landing: bool,
    /// Spraying goes on (it stops when the drone turns back early, until it
    /// is back where it stopped).
    pub resume_operation: bool,
    /// The furthest latitude that the drone has reached.
    pub latest_latitude: i32,
}

impl MissionFlags {
    /// The flags at take-off.
    pub fn new() -> (f: MissionFlags)
        ensures
            f == (MissionFlags {
                task_ongoing: true,
                back_home: false,
                landing: false,
                resume_operation: true,
                latest_latitude: 100,
            }),
    {
        MissionFlags {
            task_ongoing: true,
            back_home: false,
            landing: false,
            resume_operation: true,
            latest_latitude: PATH_LATITUDE_START,
        }
    }
}

/// The water dispenser's instruction for the soil moisture `soil_moist`:
/// above 299 it should be off, else on; `Maintain` where it already is so.
pub open spec fn soil_moist_instruction(soil_moist: int, operating: bool) -> Seq<char> {
    if soil_moist > 299 {
        if operating { water_off_text() } else { maintain_text() }
    } else {
        if !operating { water_on_text() } else { maintain_text() }
    }
}

/// The fertiliser dispenser's instruction: off where the soil has enough
/// nutrient, else on; `Maintain` where it already is so.
pub open spec fn soil_nutr_instruction(nutrient_adequate: bool, operating: bool) -> Seq<char> {
    if nutrient_adequate {
        if operating { fertiliser_off_text() } else { maintain_text() }
    } else {
        if !operating { fertiliser_on_text() } else { maintain_text() }
    }
}

/// The pesticide dispenser's instruction for the temperature `thermal`:
/// below 31 degrees it should be off, else on; `Maintain` where it already is
/// so.
pub open spec fn thermal_instruction(thermal: int, operating: bool) -> Seq<char> {
    if thermal < 31 {
        if operating { pesticide_off_text() } else { maintain_text() }
    } else {
        if !operating { pesticide_on_text() } else { maintain_text() }
    }
}

/// The motor's instruction for an obstacle at `obstacles_dtc` metres.
pub open spec fn obstacle_instruction(obstacles_dtc: int) -> Seq<char> {
    if obstacles_dtc < 100 {
        "Increase thrust to avoid obstacles"@
    } else {
        "Maintain thrust"@
    }
}

/// The landing gear's instruction at `altitude`.
pub open spec fn gear_instruction(altitude: int, gear_up: bool, landing: bool) -> Seq<char> {
    if !gear_up && altitude > 5 {
        "Retract gear"@
    } else if gear_up && altitude < 20 && landing {
        "Deploy gear"@
    } else {
        "Maintain"@
    }
}

/// The motor's instruction at `altitude`: climb to 50 metres, come down from
/// above it, and come down to land.
pub open spec fn altitude_motor_instruction(altitude: int, landing: bool) -> Seq<char> {
    if !landing && altitude < 50 {
        "Increase thrust for more lift"@
    } else if !landing && altitude > 50 {
        "Reduce thrust to lower"@
    } else if landing {
        "Reduce thrust for landing"@
    } else {
        "Maintain thrust"@
    }
}

/// The flags after the drone reports its position (`longitude`, `latitude`).
/// The furthest latitude grows to `latitude`; spraying resumes once the drone
/// is back at the furthest latitude; at the end of the path the task is done
/// and the drone turns home; home again, it lands.
pub open spec fn gps_flags(f: MissionFlags, longitude: int, latitude: int) -> MissionFlags {
    let latest = if latitude > f.latest_latitude { latitude } else { f.latest_latitude as int };
    let resume = f.resume_operation || latitude >= latest;
    let arrived = f.task_ongoing && !f.back_home && latitude == 130;
    let home = !arrived && f.back_home && latitude == 100;
    MissionFlags {
        task_ongoing: if arrived { false } else { f.task_ongoing },
        back_home: if arrived { true } else { f.back_home },
        landing: if home { true } else { f.landing },
        resume_operation: resume,
        latest_latitude: latest as i32,
    }
}

/// The flags once the drone turns back home early: spraying stops.
pub open spec fn returning_home(f: MissionFlags) -> MissionFlags {
    MissionFlags {
        task_ongoing: f.task_ongoing,
        back_home: true,
        landing: f.landing,
        resume_operation: false,
        latest_latitude: f.latest_latitude,
    }
}

/// The dispensers, all stopped.
pub open spec fn suspended(s: Sprayers) -> Sprayers {
    Sprayers {
        water: Dispenser { operating: false, tank_level: s.water.tank_level },
        fertiliser: Dispenser { operating: false, tank_level: s.fertiliser.tank_level },
        pesticide: Dispenser { operating: false, tank_level: s.pesticide.tank_level },
    }
}

/// The flags and dispensers after an alarm (low battery, empty tank): where
/// `alarm` holds and the drone is not yet on its way home, it turns home and
/// the dispensers stop.
pub open spec fn after_alarm(f: MissionFlags, s: Sprayers, alarm: bool) -> (MissionFlags, Sprayers) {
    if alarm && !f.back_home {
        (returning_home(f), suspended(s))
    } else {
        (f, s)
    }
}

/// Decides the water dispenser's instruction from the soil moisture.
pub fn soil_moist_logic(soil_moist: i32, water_operating: bool) -> (instruc: String)
    ensures
        instruc@ == soil_moist_instruction(soil_moist as int, water_operating),
        soil_moist > 299 && water_operating ==> instruc@ == "Off water dispenser"@,
        soil_moist <= 299 && !water_operating ==> instruc@ == "On water dispenser"@,
        (soil_moist > 299) == !water_operating ==> instruc@ == "Maintain"@,
{
    if soil_moist > 299 {
        if water_operating {
            String::from_str("Off water dispenser")
        } else {
            String::from_str("Maintain")
        }
    } else {
        if !water_operating {
            String::from_str("On water dispenser")
        } else {
            String::from_str("Maintain")
        }
    }
}

/// Decides the fertiliser dispenser's instruction from whether the soil has
/// enough nutrient (a reading above 0.5).
pub fn soil_nutr_logic(nutrient_adequate: bool, fertiliser_operating: bool) -> (instruc: String)
    ensures
        instruc@ == soil_nutr_instruction(nutrient_adequate, fertiliser_operating),
        nutrient_adequate && fertiliser_operating ==> instruc@ == "Off fertiliser dispensing"@,
        !nutrient_adequate && !fertiliser_operating ==> instruc@ == "On fertiliser dispensing"@,
        nutrient_adequate == !fertiliser_operating ==> instruc@ == "Maintain"@,
{
    if nutrient_adequate {
        if fertiliser_operating {
            String::from_str("Off fertiliser dispensing")
        } else {
            String::from_str("Maintain")
        }
    } else {
        if !fertiliser_operating {
            String::from_str("On fertiliser dispensing")
        } else {
            String::from_str("Maintain")
        }
    }
}

/// Decides the pesticide dispenser's instruction from the temperature.
pub fn thermal_logic(thermal: i32, pesticide_operating: bool) -> (instruc: String)
    ensures
        instruc@ == thermal_instruction(thermal as int, pesticide_operating),
        thermal < 31 && pesticide_operating ==> instruc@ == "Off pesticide dispensing"@,
        thermal >= 31 && !pesticide_operating ==> instruc@ == "On pesticide dispensing"@,
        (thermal < 31) == !pesticide_operating ==> instruc@ == "Maintain"@,
{
    if thermal < 31 {
        if pesticide_operating {
            String::from_str("Off pesticide dispensing")
        } else {
            String::from_str("Maintain")
        }
    } else {
        if !pesticide_operating {
            String::from_str("On pesticide dispensing")
        } else {
            String::from_str("Maintain")
        }
    }
}

/// Updates the mission from the drone's position, and gives the motor's
/// instruction: the text of how far the drone is off the path's longitude.
pub fn gps_logic(flags: &mut MissionFlags, longitude: i32, latitude: i32) -> (instruc: String)
    requires
        longitude >= PATH_LONGITUDE - i32::MAX,
    ensures
        *final(flags) == gps_flags(*old(flags), longitude as int, latitude as int),
        instruc@ == int_text(5 - longitude),
        final(flags).latest_latitude == (if latitude > old(flags).latest_latitude { latitude } else { old(flags).latest_latitude }),
        final(flags).resume_operation == (old(flags).resume_operation || latitude >= old(flags).latest_latitude),
        final(flags).task_ongoing == (old(flags).task_ongoing && (old(flags).back_home || latitude != 130)),
        final(flags).back_home == (old(flags).back_home || (old(flags).task_ongoing && latitude == 130)),
        final(flags).landing == (old(flags).landing || (old(flags).back_home && latitude == 100)),
{
    if latitude > flags.latest_latitude {
        flags.latest_latitude = latitude;
    }
    if !flags.resume_operation {
        if latitude >= flags.latest_latitude {
            flags.resume_operation = true;
        }
    }
    if flags.task_ongoing && !flags.back_home && latitude == PATH_LATITUDE_END {
        flags.task_ongoing = false;
        flags.back_home = true;
    } else if flags.back_home && latitude == PATH_LATITUDE_START {
        if !flags.landing {
            flags.landing = true;
        }
    }
    let difference = PATH_LONGITUDE - longitude;
    int_to_text(difference)
}

/// Decides the motor's instruction from the distance to the nearest obstacle.
pub fn obst_dect_logic(obstacles_dtc: i32) -> (instruc: String)
    ensures
        instruc@ == obstacle_instruction(obstacles_dtc as int),
        obstacles_dtc < 100 ==> instruc@ == "Increase thrust to avoid obstacles"@,
        obstacles_dtc >= 100 ==> instruc@ == "Maintain thrust"@,
{
    if obstacles_dtc < 100 {
        String::from_str("Increase thrust to avoid obstacles")
    } else {
        String::from_str("Maintain thrust")
    }
}

/// Decides the landing gear's instruction from the altitude.
pub fn altitude_gear_logic(altitude: i32, gear_up: bool, landing: bool) -> (instruc: String)
    ensures
        instruc@ == gear_instruction(altitude as int, gear_up, landing),
        !gear_up && altitude > 5 ==> instruc@ == "Retract gear"@,
        gear_up && altitude < 20 && landing ==> instruc@ == "Deploy gear"@,
        !(!gear_up && altitude > 5) && !(gear_up && altitude < 20 && landing) ==> instruc@ == "Maintain"@,
{
    if !gear_up && altitude > 5 {
        String::from_str("Retract gear")
    } else if gear_up && altitude < 20 && landing {
        String::from_str("Deploy gear")
    } else {
        String::from_str("Maintain")
    }
}

/// Decides the motor's thrust instruction from the altitude.
pub fn altitude_motor_logic(altitude: i32, landing: bool) -> (instruc: String)
    ensures
        instruc@ == altitude_motor_instruction(altitude as int, landing),
        landing ==> instruc@ == "Reduce thrust for landing"@,
        !landing && altitude < 50 ==> instruc@ == "Increase thrust for more lift"@,
        !landing && altitude > 50 ==> instruc@ == "Reduce thrust to lower"@,
        !landing && altitude == 50 ==> instruc@ == "Maintain thrust"@,
{
    if !landing && altitude < 50 {
        String::from_str("Increase thrust for more lift")
    } else if !landing && altitude > 50 {
        String::from_str("Reduce thrust to lower")
    } else if landing {
        String::from_str("Reduce thrust for landing")
    } else {
        String::from_str("Maintain thrust")
    }
}

/// What an alarm does to the flags `f` and dispensers `s`, giving `f2` and
/// `s2`, field by field: where it sent the drone home (`turned_home`), the
/// drone is on its way home, spraying is held back and every dispenser is
/// stopped; otherwise nothing changes. Either way the task, the landing, the
/// furthest latitude and the tanks stay as they were.
pub open spec fn alarm_outcome(f: MissionFlags, s: Sprayers, f2: MissionFlags, s2: Sprayers, turned_home: bool) -> bool {
    &&& f2.task_ongoing == f.task_ongoing
    &&& f2.landing == f.landing
    &&& f2.latest_latitude == f.latest_latitude
    &&& s2.water.tank_level == s.water.tank_level
    &&& s2.fertiliser.tank_level == s.fertiliser.tank_level
    &&& s2.pesticide.tank_level == s.pesticide.tank_level
    &&& turned_home ==> {
        &&& f2.back_home
        &&& !f2.resume_operation
        &&& !s2.water.operating
        &&& !s2.fertiliser.operating
        &&& !s2.pesticide.operating
    }
    &&& !turned_home ==> f2 == f && s2 == s
}

/// Where `alarm` holds and the drone is not yet going home, sends it home and
/// stops the dispensers.
fn raise_alarm(flags: &mut MissionFlags, sprayers: &mut Sprayers, alarm: bool) -> (turned_home: bool)
    ensures
        (*final(flags), *final(sprayers)) == after_alarm(*old(flags), *old(sprayers), alarm),
        turned_home == (alarm && !old(flags).back_home),
        alarm_outcome(*old(flags), *old(sprayers), *final(flags), *final(sprayers), turned_home),
{
    if alarm && !flags.back_home {
        flags.back_home = true;
        flags.resume_operation = false;
        operation_suspend(sprayers);
        true
    } else {
        false
    }
}

/// Below 21% battery, the drone turns home and stops spraying.
/// Tells whether it turned home now.
pub fn battery_logic(batt: i32, flags: &mut MissionFlags, sprayers: &mut Sprayers) -> (turned_home: bool)
    ensures
        (*final(flags), *final(sprayers)) == after_alarm(*old(flags), *old(sprayers), batt < 21),
        turned_home == (batt < 21 && !old(flags).back_home),
        alarm_outcome(*old(flags), *old(sprayers), *final(flags), *final(sprayers), turned_home),
{
    raise_alarm(flags, sprayers, batt < 21)
}

/// With the water tank empty, the drone turns home and stops spraying.
/// Tells whether it turned home now.
pub fn water_lvl_logic(water_lvl: i32, flags: &mut MissionFlags, sprayers: &mut Sprayers) -> (turned_home: bool)
    ensures
        (*final(flags), *final(sprayers)) == after_alarm(*old(flags), *old(sprayers), water_lvl <= 0),
        turned_home == (water_lvl <= 0 && !old(flags).back_home),
        alarm_outcome(*old(flags), *old(sprayers), *final(flags), *final(sprayers), turned_home),
{
    raise_alarm(flags, sprayers, water_lvl <= 0)
}

/// With the fertiliser tank empty, the drone turns home and stops spraying.
/// Tells whether it turned home now.
pub fn fert_lvl_logic(fert_lvl: i32, flags: &mut MissionFlags, sprayers: &mut Sprayers) -> (turned_home: bool)
    ensures
        (*final(flags), *final(sprayers)) == after_alarm(*old(flags), *old(sprayers), fert_lvl <= 0),
        turned_home == (fert_lvl <= 0 && !old(flags).back_home),
        alarm_outcome(*old(flags), *old(sprayers), *final(flags), *final(sprayers), turned_home),
{
    raise_alarm(flags, sprayers, fert_lvl <= 0)
}

/// With the pesticide tank empty, the drone turns home and stops spraying.
/// Tells whether it turned home now.
pub fn pest_lvl_logic(pest_lvl: i32, flags: &mut MissionFlags, sprayers: &mut Sprayers) -> (turned_home: bool)
    ensures
        (*final(flags), *final(sprayers)) == after_alarm(*old(flags), *old(sprayers), pest_lvl <= 0),
        turned_home == (pest_lvl <= 0 && !old(flags).back_home),
        alarm_outcome(*old(flags), *old(sprayers), *final(flags), *final(sprayers), turned_home),
{
    raise_alarm(flags, sprayers, pest_lvl <= 0)
}

/// The soil as the multispectral camera reports it: the moisture, and
/// whether the nutrient reading is above 0.5.
#[derive(Debug, Clone, Copy, PartialEq, Eq, Structural)]
pub struct SoilReport {
    pub soil_moist: i32,
    pub nutrient_adequate: bool,
}

/// What reached the main control in one round; `None` where nothing came.
/// Readings that come as text are parsed here.
pub struct ProcessorInput {
    pub soil: Option<SoilReport>,
    pub thermal: Option<String>,
    pub gps: Option<GPS>,
    pub ultrasonic: Option<Ultrasonic>,
    pub battery: Option<String>,
    pub water_level: Option<String>,
    pub fertiliser_level: Option<String>,
    pub pesticide_level: Option<String>,
}

/// What the main control sends in one round, one field per actuator queue
/// (`None` where it sends nothing), and the text readings that it could
/// parse.
pub struct ProcessorOutput {
    pub soil_moist_act: Option<String>,
    pub soil_nutr_act: Option<String>,
    pub thermal: Option<i32>,
    pub thermal_act: Option<String>,
    pub gps_act: Option<String>,
    pub obs_detc_act: Option<String>,
    pub altitude_gear_act: Option<String>,
    pub altitude_motor_act: Option<String>,
    pub altitude_refill_act: Option<String>,
    pub battery: Option<i32>,
    pub water_level: Option<i32>,
    pub fertiliser_level: Option<i32>,
    pub pesticide_level: Option<i32>,
    /// The alarm that sent the drone home in this round, if one did.
    pub alarm: Option<Alarm>,
}

/// Why the drone turned home early.
#[derive(Debug, Clone, Copy, PartialEq, Eq, Structural)]
pub enum Alarm {
    LowBattery,
    WaterTankEmpty,
    FertiliserTankEmpty,
    PesticideTankEmpty,
}

/// The alarm that sends the drone home in a round, if any: the first of the
/// battery, water, fertiliser and pesticide alarms that holds, where the
/// drone is not already on its way home after the position was taken in.
pub open spec fn raised_alarm(f: MissionFlags, input: ProcessorInput) -> Option<Alarm> {
    if flags_after_gps(f, input.gps).back_home {
        None
    } else if below(parsed(input.battery), 21) {
        Some(Alarm::LowBattery)
    } else if below(parsed(input.water_level), 1) {
        Some(Alarm::WaterTankEmpty)
    } else if below(parsed(input.fertiliser_level), 1) {
        Some(Alarm::FertiliserTankEmpty)
    } else if below(parsed(input.pesticide_level), 1) {
        Some(Alarm::PesticideTankEmpty)
    } else {
        None
    }
}

/// The number that a text reading holds, if one came and it parses.
pub open spec fn parsed(t: Option<String>) -> Option<int> {
    match t {
        Some(s) => parse_int_spec(s@),
        None => None,
    }
}

/// `parsed` as it comes out: an `i32`.
pub open spec fn parsed_matches(r: Option<i32>, t: Option<String>) -> bool {
    match r {
        Some(v) => parsed(t) == Some(v as int),
        None => parsed(t) is None,
    }
}

/// Does the level `level` (if it came) hold below `threshold`?
pub open spec fn below(level: Option<int>, threshold: int) -> bool {
    match level {
        Some(v) => v < threshold,
        None => false,
    }
}

/// The flags after the position `gps` (if one came).
pub open spec fn flags_after_gps(f: MissionFlags, gps: Option<GPS>) -> MissionFlags {
    match gps {
        Some(g) => gps_flags(f, g.longitude as int, g.latitude as int),
        None => f,
    }
}

/// The flags and dispensers after one round of the main control: the
/// position first, then the battery, water, fertiliser and pesticide alarms
/// in that order.
pub open spec fn processed(f: MissionFlags, s: Sprayers, input: ProcessorInput) -> (MissionFlags, Sprayers) {
    let f1 = flags_after_gps(f, input.gps);
    let a2 = after_alarm(f1, s, below(parsed(input.battery), 21));
    let a3 = after_alarm(a2.0, a2.1, below(parsed(input.water_level), 1));
    let a4 = after_alarm(a3.0, a3.1, below(parsed(input.fertiliser_level), 1));
    after_alarm(a4.0, a4.1, below(parsed(input.pesticide_level), 1))
}

/// A text reading, parsed.
fn parse_reading(t: &Option<String>) -> (r: Option<i32>)
    ensures parsed_matches(r, *t),
{
    match t {
        Some(s) => parse_int(s.as_str()),
        None => None,
    }
}

/// One round of the main control: it decides each actuator's instruction
/// from the readings that came, and updates the mission and the dispensers.
/// The instructions for the dispensers go by the dispensers as they were at
/// the start of the round; those for the landing gear and the altitude motor
/// go by the landing flag after the position was taken in.
pub fn data_processor(
    flags: &mut MissionFlags,
    sprayers: &mut Sprayers,
    gear_up: bool,
    input: &ProcessorInput,
) -> (out: ProcessorOutput)
    requires
        input.gps matches Some(g) ==> g.longitude >= PATH_LONGITUDE - i32::MAX,
    ensures
        (*final(flags), *final(sprayers)) == processed(*old(flags), *old(sprayers), *input),
        input.soil is None ==> out.soil_moist_act is None && out.soil_nutr_act is None,
        input.soil matches Some(r) ==> {
            &&& out.soil_moist_act matches Some(t)
                && t@ == soil_moist_instruction(r.soil_moist as int, old(sprayers).water.operating)
            &&& out.soil_nutr_act matches Some(t)
                && t@ == soil_nutr_instruction(r.nutrient_adequate, old(sprayers).fertiliser.operating)
        },
        parsed_matches(out.thermal, input.thermal),
        out.thermal is None ==> out.thermal_act is None,
        out.thermal matches Some(v) ==> out.thermal_act matches Some(t)
            && t@ == thermal_instruction(v as int, old(sprayers).pesticide.operating),
        input.gps is None ==> out.gps_act is None,
        input.gps matches Some(g) ==> out.gps_act matches Some(t) && t@ == int_text(5 - g.longitude),
        input.ultrasonic is None ==> {
            &&& out.obs_detc_act is None
            &&& out.altitude_gear_act is None
            &&& out.altitude_motor_act is None
            &&& out.altitude_refill_act is None
        },
        input.ultrasonic matches Some(u) ==> {
            let landing = flags_after_gps(*old(flags), input.gps).landing;
            &&& out.obs_detc_act matches Some(t) && t@ == obstacle_instruction(u.obstacles_dtc as int)
            &&& out.altitude_gear_act matches Some(t)
                && t@ == gear_instruction(u.altitude as int, gear_up, landing)
            &&& out.altitude_motor_act matches Some(t)
                && t@ == altitude_motor_instruction(u.altitude as int, landing)
            &&& out.altitude_refill_act matches Some(t) && t@ == int_text(u.altitude as int)
        },
        parsed_matches(out.battery, input.battery),
        parsed_matches(out.water_level, input.water_level),
        parsed_matches(out.fertiliser_level, input.fertiliser_level),
        parsed_matches(out.pesticide_level, input.pesticide_level),
        out.alarm == raised_alarm(*old(flags), *input),
        ({
            let arrives = input.gps matches Some(g) && g.latitude == 130;
            let at_home = input.gps matches Some(g) && g.latitude == 100;
            let heading_home = old(flags).back_home || (old(flags).task_ongoing && arrives);
            let low_battery = parsed(input.battery) matches Some(v) && v < 21;
            let water_empty = parsed(input.water_level) matches Some(v) && v <= 0;
            let fertiliser_empty = parsed(input.fertiliser_level) matches Some(v) && v <= 0;
            let pesticide_empty = parsed(input.pesticide_level) matches Some(v) && v <= 0;
            &&& !heading_home && low_battery ==> out.alarm == Some(Alarm::LowBattery)
            &&& !heading_home && !low_battery && water_empty ==> out.alarm == Some(Alarm::WaterTankEmpty)
            &&& !heading_home && !low_battery && !water_empty && fertiliser_empty
                ==> out.alarm == Some(Alarm::FertiliserTankEmpty)
            &&& !heading_home && !low_battery && !water_empty && !fertiliser_empty && pesticide_empty
                ==> out.alarm == Some(Alarm::PesticideTankEmpty)
            &&& heading_home || !(low_battery || water_empty || fertiliser_empty || pesticide_empty)
                ==> out.alarm is None
            &&& out.alarm is Some ==> {
                &&& final(flags).back_home
                &&& !final(flags).resume_operation
                &&& !final(sprayers).water.operating
                &&& !final(sprayers).fertiliser.operating
                &&& !final(sprayers).pesticide.operating
            }
            &&& out.alarm is None ==> *final(sprayers) == *old(sprayers) && final(flags).back_home == heading_home
            &&& final(flags).task_ongoing == (old(flags).task_ongoing && (old(flags).back_home || !arrives))
            &&& final(flags).landing == (old(flags).landing || (old(flags).back_home && at_home))
            &&& final(flags).latest_latitude == (match input.gps {
                Some(g) => if g.latitude > old(flags).latest_latitude { g.latitude } else { old(flags).latest_latitude },
                None => old(flags).latest_latitude,
            })
            &&& final(sprayers).water.tank_level == old(sprayers).water.tank_level
            &&& final(sprayers).fertiliser.tank_level == old(sprayers).fertiliser.tank_level
            &&& final(sprayers).pesticide.tank_level == old(sprayers).pesticide.tank_level
        }),
{
    let water_operating = sprayers.water.operating;
    let fertiliser_operating = sprayers.fertiliser.operating;
    let pesticide_operating = sprayers.pesticide.operating;

    let (soil_moist_act, soil_nutr_act) = match &input.soil {
        Some(r) => (
            Some(soil_moist_logic(r.soil_moist, water_operating)),
            Some(soil_nutr_logic(r.nutrient_adequate, fertiliser_operating)),
        ),
        None => (None, None),
    };

    let thermal = parse_reading(&input.thermal);
    let thermal_act = match thermal {
        Some(temp) => Some(thermal_logic(temp, pesticide_operating)),
        None => None,
    };

    let gps_act = match &input.gps {
        Some(g) => Some(gps_logic(flags, g.longitude, g.latitude)),
        None => None,
    };

    let (obs_detc_act, altitude_gear_act, altitude_motor_act, altitude_refill_act) =
        match &input.ultrasonic {
        Some(u) => (
            Some(obst_dect_logic(u.obstacles_dtc)),
            Some(altitude_gear_logic(u.altitude, gear_up, flags.landing)),
            Some(altitude_motor_logic(u.altitude, flags.landing)),
            Some(int_to_text(u.altitude)),
        ),
        None => (None, None, None, None),
    };

    let mut alarm: Option<Alarm> = None;
    let battery = parse_reading(&input.battery);
    if let Some(level) = battery {
        if battery_logic(level, flags, sprayers) {
            alarm = Some(Alarm::LowBattery);
        }
    }
    let water_level = parse_reading(&input.water_level);
    if let Some(level) = water_level {
        if water_lvl_logic(level, flags, sprayers) {
            alarm = Some(Alarm::WaterTankEmpty);
        }
    }
    let fertiliser_level = parse_reading(&input.fertiliser_level);
    if let Some(level) = fertiliser_level {
        if fert_lvl_logic(level, flags, sprayers) {
            alarm = Some(Alarm::FertiliserTankEmpty);
        }
    }
    let pesticide_level = parse_reading(&input.pesticide_level);
    if let Some(level) = pesticide_level {
        if pest_lvl_logic(level, flags, sprayers) {
            alarm = Some(Alarm::PesticideTankEmpty);
        }
    }

    ProcessorOutput {
        soil_moist_act,
        soil_nutr_act,
        thermal,
        thermal_act,
        gps_act,
        obs_detc_act,
        altitude_gear_act,
        altitude_motor_act,
        altitude_refill_act,
        battery,
        water_level,
        fertiliser_level,
        pesticide_level,
        alarm,
    }
}

} // verus!

//! What holds of the drone's components together, over all inputs.

use vstd::prelude::*;
use crate::actuators::{gear_after, motor_gps_propeller};
use crate::main_control::{
    MissionFlags, ProcessorInput, processed, raised_alarm, parsed, altitude_motor_instruction, Alarm, gear_instruction, soil_moist_instruction,
    soil_nutr_instruction, thermal_instruction, after_alarm, gps_flags,
    suspended, returning_home,
};
use crate::sensors::{
    ThermalSensor, MoistureSensor, UltrasonicSensor, thermal_inv, moisture_inv, thermal_next, moisture_next, gps_next,
    altitude_next, obstacle_distance, battery_next,
};
use crate::sprayers::{
    Dispenser, Sprayers, dispensed, consumes, maintain_text, water_on_text, water_off_text,
    fertiliser_on_text, fertiliser_off_text, pesticide_on_text, pesticide_off_text,
};
use crate::structs::GPS;
use crate::drone::{DroneState, recharged};
use crate::text::{int_text, parse_int_spec, lemma_parse_int_text, digits_value};

verus! {

proof fn lemma_dispenser_texts()
    ensures
        maintain_text() != water_on_text(),
        maintain_text() != water_off_text(),
        water_on_text() != water_off_text(),
        maintain_text() != fertiliser_on_text(),
        maintain_text() != fertiliser_off_text(),
        fertiliser_on_text() != fertiliser_off_text(),
        maintain_text() != pesticide_on_text(),
        maintain_text() != pesticide_off_text(),
        pesticide_on_text() != pesticide_off_text(),
{
    reveal_strlit("Maintain");
    reveal_strlit("On water dispenser");
    reveal_strlit("Off water dispenser");
    reveal_strlit("On fertiliser dispensing");
    reveal_strlit("Off fertiliser dispensing");
    reveal_strlit("On pesticide dispensing");
    reveal_strlit("Off pesticide dispensing");
    assert(maintain_text().len() != water_on_text().len());
    assert(maintain_text().len() != water_off_text().len());
    assert(water_on_text().len() != water_off_text().len());
    assert(maintain_text().len() != fertiliser_on_text().len());
    assert(maintain_text().len() != fertiliser_off_text().len());
    assert(fertiliser_on_text().len() != fertiliser_off_text().len());
    assert(maintain_text().len() != pesticide_on_text().len());
    assert(maintain_text().len() != pesticide_off_text().len());
    assert(pesticide_on_text().len() != pesticide_off_text().len());
}

/// A dispenser never gains liquid: whatever the instruction, its tank either
/// stays as it was or loses exactly 10%, and it loses 10% exactly when the
/// instruction makes it spray.
pub proof fn law_dispenser_never_refills(d: Dispenser, instruc: Seq<char>, on: Seq<char>, off: Seq<char>)
    requires
        on != off,
        d.tank_level >= i32::MIN + 10,
    ensures
        dispensed(d, instruc, on, off).tank_level == d.tank_level
            || dispensed(d, instruc, on, off).tank_level == d.tank_level - 10,
        dispensed(d, instruc, on, off).tank_level == d.tank_level - 10 <==> consumes(d, instruc, on, off),
        consumes(d, instruc, on, off) ==> dispensed(d, instruc, on, off).operating,
{
}

/// The water dispenser follows the soil: once it has carried out the main
/// control's instruction for the moisture `soil_moist`, it sprays exactly
/// when the soil is dry (299 or less), and it has used 10% of its tank
/// exactly then.
pub proof fn law_water_follows_moisture(soil_moist: i32, d: Dispenser)
    requires
        d.tank_level >= i32::MIN + 10,
    ensures
        ({
            let after = dispensed(d, soil_moist_instruction(soil_moist as int, d.operating), water_on_text(), water_off_text());
            &&& after.operating == (soil_moist <= 299)
            &&& after.tank_level == (if soil_moist <= 299 { d.tank_level - 10 } else { d.tank_level as int })
        }),
{
    lemma_dispenser_texts();
}

/// The fertiliser dispenser follows the soil: once it has carried out the
/// main control's instruction, it sprays exactly when the soil lacks
/// nutrient, and it has used 10% of its tank exactly then.
pub proof fn law_fertiliser_follows_nutrient(nutrient_adequate: bool, d: Dispenser)
    requires
        d.tank_level >= i32::MIN + 10,
    ensures
        ({
            let after = dispensed(d, soil_nutr_instruction(nutrient_adequate, d.operating), fertiliser_on_text(), fertiliser_off_text());
            &&& after.operating == !nutrient_adequate
            &&& after.tank_level == (if !nutrient_adequate { d.tank_level - 10 } else { d.tank_level as int })
        }),
{
    lemma_dispenser_texts();
}

/// The pesticide dispenser follows the temperature: once it has carried out
/// the main control's instruction for `thermal`, it sprays exactly when it is
/// 31 degrees or more, and it has used 10% of its tank exactly then.
pub proof fn law_pesticide_follows_temperature(thermal: i32, d: Dispenser)
    requires
        d.tank_level >= i32::MIN + 10,
    ensures
        ({
            let after = dispensed(d, thermal_instruction(thermal as int, d.operating), pesticide_on_text(), pesticide_off_text());
            &&& after.operating == (thermal >= 31)
            &&& after.tank_level == (if thermal >= 31 { d.tank_level - 10 } else { d.tank_level as int })
        }),
{
    lemma_dispenser_texts();
}

/// Once the dispensers are stopped, keeping them as they are sprays nothing:
/// a stopped dispenser stays stopped, with its tank as it was.
pub proof fn law_suspended_stays_dry(s: Sprayers)
    ensures
        dispensed(suspended(s).water, maintain_text(), water_on_text(), water_off_text()) == suspended(s).water,
        dispensed(suspended(s).fertiliser, maintain_text(), fertiliser_on_text(), fertiliser_off_text())
            == suspended(s).fertiliser,
        dispensed(suspended(s).pesticide, maintain_text(), pesticide_on_text(), pesticide_off_text())
            == suspended(s).pesticide,
{
    lemma_dispenser_texts();
}

/// The landing gear follows the altitude: after it has carried out the main
/// control's instruction, it is up wherever it was down above 5 metres, and
/// down wherever it was up below 20 metres while landing; otherwise it stays.
pub proof fn law_gear_follows_altitude(altitude: i32, gear_up: bool, landing: bool)
    ensures
        gear_after(gear_up, gear_instruction(altitude as int, gear_up, landing))
            == (if !gear_up && altitude > 5 {
                true
            } else if gear_up && altitude < 20 && landing {
                false
            } else {
                gear_up
            }),
{
    reveal_strlit("Retract gear");
    reveal_strlit("Deploy gear");
    reveal_strlit("Maintain");
    assert("Maintain"@.len() != "Retract gear"@.len());
    assert("Maintain"@.len() != "Deploy gear"@.len());
    assert("Deploy gear"@.len() != "Retract gear"@.len());
}

/// The path correction closes the loop: the motor reads the main control's
/// instruction for the longitude `longitude` back as the drift from the
/// path's longitude 5, and has the propellers stay where there is none, roll
/// left by the drift where the drone is east of the path, and roll right
/// where it is west of it.
pub proof fn law_path_correction(longitude: i32)
    requires
        longitude >= 5 - i32::MAX,
    ensures
        parse_int_spec(int_text(5 - longitude)) != Some(i32::MIN as int),
        motor_gps_propeller(int_text(5 - longitude)) == (if longitude == 5 {
            Some("Remain"@)
        } else if longitude > 5 {
            Some("Roll left "@ + int_text(longitude - 5) + " degree"@)
        } else {
            Some("Roll right "@ + int_text(5 - longitude) + " degree"@)
        }),
{
    let d = (5 - longitude) as i32;
    lemma_parse_int_text(d);
    reveal_strlit("0");
    assert("0"@ =~= seq!['0']);
    assert(digits_value(seq!['0']) == 0) by {
        assert(seq!['0'].drop_last() =~= Seq::<char>::empty());
        reveal_with_fuel(digits_value, 2);
    }
    assert(parse_int_spec("0"@) == Some(0int));
    if longitude == 5 {
        assert(int_text(0) =~= "0"@);
    }
}

/// The battery never runs out: from 2% or more, a reading leaves it at 2% or
/// more, and never more charged than it was.
pub proof fn law_battery_floor(level: i32, f: MissionFlags)
    requires
        level >= 2,
    ensures
        2 <= battery_next(level as int, f) <= level,
{
}

/// The thermal camera keeps its invariant, and from it reads 20 to 39 degrees,
/// for every draw in its ranges.
pub proof fn law_thermal_bounds(s: ThermalSensor, prob: int, moderate: int, high: int)
    requires
        thermal_inv(s),
        0 <= prob < 10,
        20 <= moderate < 31,
        31 <= high < 40,
    ensures
        thermal_inv(thermal_next(s, prob, moderate, high)),
        20 <= thermal_next(s, prob, moderate, high).thermal_value <= 39,
{
}

/// The moisture sensor keeps its invariant, and from it reads 200 to 400, for
/// every draw in its ranges.
pub proof fn law_moisture_bounds(s: MoistureSensor, prob: int, moderate: int, dry: int)
    requires
        moisture_inv(s),
        0 <= prob < 10,
        300 <= moderate < 401,
        200 <= dry < 300,
    ensures
        moisture_inv(moisture_next(s, prob, moderate, dry)),
        200 <= moisture_next(s, prob, moderate, dry).soil_moist_value <= 400,
{
}

/// The drone's altitude: landing, it comes down and never below the ground;
/// at working altitude it stays within 5 metres of 50; climbing in steps of 5
/// from the ground, it reaches 50 exactly and then counts as at working
/// altitude. Obstacles are reported 50 to 199 metres away.
pub proof fn law_altitude_bounds(
    s: UltrasonicSensor,
    landing: bool,
    hover_prob: int,
    deviation: int,
    prob: int,
    clear: int,
    detected: int,
)
    requires
        0 <= hover_prob < 10,
        -5 <= deviation <= 5,
        0 <= prob < 10,
        101 <= clear < 200,
        50 <= detected < 101,
    ensures
        ({
            let after = altitude_next(s, landing, hover_prob, deviation);
            &&& landing && s.altitude >= 0 ==> 0 <= after.altitude <= s.altitude
            &&& landing && s.altitude > 0 ==> after.altitude < s.altitude
            &&& !landing && s.reached_max_altitude ==> 45 <= after.altitude <= 55 && after.reached_max_altitude
            &&& !landing && !s.reached_max_altitude && 0 <= s.altitude < 50 && s.altitude % 5 == 0 ==> {
                &&& after.altitude == s.altitude + 5 <= 50
                &&& after.reached_max_altitude == (after.altitude == 50)
            }
        }),
        50 <= obstacle_distance(prob, clear, detected) < 200,
{
}

/// The GPS keeps the drone on its path: the position it keeps never changes
/// longitude, a reading drifts by -3 to 4 units of longitude at most, on the
/// way out the drone never moves back, and on the way home it never goes
/// past latitude 100.
pub proof fn law_gps_track(pos: GPS, f: MissionFlags, prob: int, deviation: int)
    requires
        0 <= prob < 10,
        -3 <= deviation < 5,
        i32::MIN + 3 <= pos.longitude <= i32::MAX - 4,
        i32::MIN + 2 <= pos.latitude <= i32::MAX - 5,
    ensures
        ({
            let (after, reading) = gps_next(pos, f, prob, deviation);
            &&& after.longitude == pos.longitude
            &&& reading matches Some(r) ==> {
                &&& -3 <= r.longitude - pos.longitude <= 4
                &&& r.latitude == after.latitude
            }
            &&& f.task_ongoing && !f.back_home ==> pos.latitude <= after.latitude <= pos.latitude + 5
            &&& f.back_home && pos.latitude >= 100 ==> 100 <= after.latitude <= pos.latitude
        }),
{
}

/// The main control never undoes the mission's progress in a round: a drone
/// on its way home stays so, a finished task stays finished, a landing goes
/// on, the furthest latitude never shrinks; and it never starts a dispenser
/// nor changes a tank.
pub proof fn law_mission_progress(f: MissionFlags, s: Sprayers, input: ProcessorInput)
    ensures
        ({
            let (f2, s2) = processed(f, s, input);
            &&& f.back_home ==> f2.back_home
            &&& f2.task_ongoing ==> f.task_ongoing
            &&& f.landing ==> f2.landing
            &&& f2.latest_latitude >= f.latest_latitude
            &&& s2.water.operating ==> s.water.operating
            &&& s2.fertiliser.operating ==> s.fertiliser.operating
            &&& s2.pesticide.operating ==> s.pesticide.operating
            &&& s2.water.tank_level == s.water.tank_level
            &&& s2.fertiliser.tank_level == s.fertiliser.tank_level
            &&& s2.pesticide.tank_level == s.pesticide.tank_level
        }),
{
}

/// An alarm (low battery, an empty tank) sends the drone home with every
/// dispenser stopped, unless it was already on its way home.
pub proof fn law_alarm_sends_home(f: MissionFlags, s: Sprayers)
    requires
        !f.back_home,
    ensures
        after_alarm(f, s, true) == (returning_home(f), suspended(s)),
        after_alarm(f, s, true).0.back_home,
        !after_alarm(f, s, true).0.resume_operation,
        !after_alarm(f, s, true).1.water.operating,
        !after_alarm(f, s, true).1.fertiliser.operating,
        !after_alarm(f, s, true).1.pesticide.operating,
{
}

/// Reaching the end of the path ends the task and turns the drone home; back
/// at the start of the path on the way home, it lands.
pub proof fn law_mission_turns(f: MissionFlags, longitude: int)
    ensures
        f.task_ongoing && !f.back_home ==> {
            let g = gps_flags(f, longitude, 130);
            !g.task_ongoing && g.back_home
        },
        f.back_home ==> gps_flags(f, longitude, 100).landing,
{
}

/// Within a round of the main control, an alarm sends the drone home: where
/// the drone is not heading home once its position is taken in, the first
/// reading that calls for it (a battery below 21%, then an empty water,
/// fertiliser or pesticide tank) turns it home, holds spraying back, stops
/// every dispenser, and is the alarm the round reports; with no such reading
/// (or already heading home) no alarm is reported and the dispensers stay as
/// they were.
pub proof fn law_alarms_in_a_round(f: MissionFlags, s: Sprayers, input: ProcessorInput)
    ensures
        ({
            let (f2, s2) = processed(f, s, input);
            let alarm = raised_alarm(f, input);
            let arrives = input.gps matches Some(g) && g.latitude == 130;
            let heading_home = f.back_home || (f.task_ongoing && arrives);
            let low_battery = parsed(input.battery) matches Some(v) && v < 21;
            let water_empty = parsed(input.water_level) matches Some(v) && v <= 0;
            let fertiliser_empty = parsed(input.fertiliser_level) matches Some(v) && v <= 0;
            let pesticide_empty = parsed(input.pesticide_level) matches Some(v) && v <= 0;
            let any = low_battery || water_empty || fertiliser_empty || pesticide_empty;
            &&& !heading_home && low_battery ==> alarm == Some(Alarm::LowBattery)
            &&& !heading_home && !low_battery && water_empty ==> alarm == Some(Alarm::WaterTankEmpty)
            &&& !heading_home && !low_battery && !water_empty && fertiliser_empty
                ==> alarm == Some(Alarm::FertiliserTankEmpty)
            &&& !heading_home && !low_battery && !water_empty && !fertiliser_empty && pesticide_empty
                ==> alarm == Some(Alarm::PesticideTankEmpty)
            &&& !heading_home && any ==> {
                &&& f2.back_home
                &&& !f2.resume_operation
                &&& !s2.water.operating
                &&& !s2.fertiliser.operating
                &&& !s2.pesticide.operating
            }
            &&& heading_home || !any ==> alarm is None && s2 == s && f2.back_home == heading_home
        }),
{
}

/// An alarm changes nothing but the way home: the task, the landing and the
/// furthest latitude stay as they were, and so do the tanks; where it fires
/// on a drone not yet going home, the drone turns home, spraying is held
/// back and every dispenser stops; otherwise nothing changes.
pub proof fn law_alarm_keeps_progress(f: MissionFlags, s: Sprayers, alarm: bool)
    ensures
        ({
            let (f2, s2) = after_alarm(f, s, alarm);
            &&& f2.task_ongoing == f.task_ongoing
            &&& f2.landing == f.landing
            &&& f2.latest_latitude == f.latest_latitude
            &&& s2.water.tank_level == s.water.tank_level
            &&& s2.fertiliser.tank_level == s.fertiliser.tank_level
            &&& s2.pesticide.tank_level == s.pesticide.tank_level
            &&& alarm && !f.back_home ==> {
                &&& f2.back_home
                &&& !f2.resume_operation
                &&& !s2.water.operating
                &&& !s2.fertiliser.operating
                &&& !s2.pesticide.operating
            }
            &&& !(alarm && !f.back_home) ==> f2 == f && s2 == s
        }),
{
}

/// A refill keeps the mission's progress: landed (`0`) with the task still
/// going on, the drone gets full tanks and a full battery and is ready to
/// climb again, while the task goes on, spraying stays as it was held, the
/// furthest latitude and the position stay, and nothing else changes.
/// Landed with the task done, only the three systems change: they shut down.
/// In the air nothing changes.
pub proof fn law_refill_keeps_progress(s: DroneState, altitude: Seq<char>)
    ensures
        ({
            let t = recharged(s, altitude);
            &&& altitude == "0"@ && s.flags.task_ongoing ==> {
                &&& t.flags.task_ongoing
                &&& !t.flags.back_home
                &&& !t.flags.landing
                &&& t.flags.resume_operation == s.flags.resume_operation
                &&& t.flags.latest_latitude == s.flags.latest_latitude
                &&& t.sprayers.water.tank_level == 100
                &&& t.sprayers.fertiliser.tank_level == 100
                &&& t.sprayers.pesticide.tank_level == 100
                &&& t.sprayers.water.operating == s.sprayers.water.operating
                &&& t.sprayers.fertiliser.operating == s.sprayers.fertiliser.operating
                &&& t.sprayers.pesticide.operating == s.sprayers.pesticide.operating
                &&& t.battery_level == 100
                &&& !t.ultrasonic.reached_max_altitude
                &&& t.ultrasonic.altitude == s.ultrasonic.altitude
                &&& t.gear_up == s.gear_up
                &&& t.position == s.position
                &&& t.thermal == s.thermal
                &&& t.moisture == s.moisture
                &&& t.systems == s.systems
            }
            &&& altitude == "0"@ && !s.flags.task_ongoing ==> {
                &&& !t.systems.sensor_operating
                &&& !t.systems.actuator_operating
                &&& !t.systems.main_control_operating
                &&& t.flags == s.flags
                &&& t.sprayers == s.sprayers
                &&& t.battery_level == s.battery_level
                &&& t.ultrasonic == s.ultrasonic
                &&& t.gear_up == s.gear_up
                &&& t.position == s.position
            }
            &&& altitude != "0"@ ==> t == s
        }),
{
}

/// The motor's altitude instruction: while landing it is always to come down
/// for landing, whatever the altitude; otherwise it is to climb below 50
/// metres, come down above, and hold at 50.
pub proof fn law_motor_altitude(altitude: int, landing: bool)
    ensures
        landing ==> altitude_motor_instruction(altitude, landing) == "Reduce thrust for landing"@,
        !landing && altitude < 50 ==> altitude_motor_instruction(altitude, landing) == "Increase thrust for more lift"@,
        !landing && altitude > 50 ==> altitude_motor_instruction(altitude, landing) == "Reduce thrust to lower"@,
        !landing && altitude == 50 ==> altitude_motor_instruction(altitude, landing) == "Maintain thrust"@,
{
}

/// Retracting always leaves the landing gear up and deploying always leaves
/// it down, wherever it was; any other instruction leaves it where it is.
pub proof fn law_gear_positions(gear_up: bool, instruc: Seq<char>)
    ensures
        gear_after(gear_up, "Retract gear"@),
        !gear_after(gear_up, "Deploy gear"@),
        instruc != "Retract gear"@ && instruc != "Deploy gear"@ ==> gear_after(gear_up, instruc) == gear_up,
{
    reveal_strlit("Retract gear");
    reveal_strlit("Deploy gear");
    assert("Retract gear"@.len() != "Deploy gear"@.len());
}

/// What each instruction does to a dispenser: stopping keeps the tank and
/// stops it, starting sprays 10% and starts it, keeping it as it is sprays
/// 10% only while it runs, and any other instruction changes nothing.
pub proof fn law_dispenser_instructions(d: Dispenser, instruc: Seq<char>, on: Seq<char>, off: Seq<char>)
    requires
        on != off,
        on != maintain_text(),
        off != maintain_text(),
        d.tank_level >= i32::MIN + 10,
    ensures
        dispensed(d, off, on, off).operating == false,
        dispensed(d, off, on, off).tank_level == d.tank_level,
        dispensed(d, on, on, off).operating == true,
        dispensed(d, on, on, off).tank_level == d.tank_level - 10,
        dispensed(d, maintain_text(), on, off).operating == d.operating,
        dispensed(d, maintain_text(), on, off).tank_level
            == (if d.operating { d.tank_level - 10 } else { d.tank_level as int }),
        instruc != on && instruc != off && instruc != maintain_text() ==> dispensed(d, instruc, on, off) == d,
{
}

} // verus!

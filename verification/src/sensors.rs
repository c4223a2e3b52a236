//! Models of the drone's sensors: each keeps a little state between readings
//! and draws random numbers for what the field and the air do.

use vstd::prelude::*;
use crate::laws::{law_moisture_bounds, law_thermal_bounds};
use crate::main_control::MissionFlags;
use crate::random::random_in;
use crate::structs::{GPS, Ultrasonic};

verus! {

/// The thermal camera: the last temperature, and whether it is in a hot
/// spell (which cools down 2 degrees a reading until below 31).
#[derive(Debug, Clone, Copy, PartialEq, Eq, Structural)]
pub struct ThermalSensor {
    pub high_thermal: bool,
    pub thermal_value: i32,
}

/// The multispectral camera's moisture part: the last soil moisture, and
/// whether the soil is in a dry spell (which gets 20 wetter a reading until
/// above 299).
#[derive(Debug, Clone, Copy, PartialEq, Eq, Structural)]
pub struct MoistureSensor {
    pub dry_moisture: bool,
    pub soil_moist_value: i32,
}

/// The ultrasonic sensor's altitude part: the altitude, and whether the drone
/// has climbed to its working altitude of 50 metres.
#[derive(Debug, Clone, Copy, PartialEq, Eq, Structural)]
pub struct UltrasonicSensor {
    pub altitude: i32,
    pub reached_max_altitude: bool,
}

/// The thermal camera's state is sound: a hot spell's temperature is 31 to
/// 39 degrees.
pub open spec fn thermal_inv(s: ThermalSensor) -> bool {
    s.high_thermal ==> 31 <= s.thermal_value <= 39
}

/// The moisture sensor's state is sound: a dry spell's moisture is 200 to
/// 299.
pub open spec fn moisture_inv(s: MoistureSensor) -> bool {
    s.dry_moisture ==> 200 <= s.soil_moist_value <= 299
}

impl ThermalSensor {
    /// The sensor before its first reading.
    pub fn new() -> (s: ThermalSensor)
        ensures
            s == (ThermalSensor { high_thermal: false, thermal_value: 0 }),
            thermal_inv(s),
    {
        ThermalSensor { high_thermal: false, thermal_value: 0 }
    }
}

impl MoistureSensor {
    /// The sensor before its first reading.
    pub fn new() -> (s: MoistureSensor)
        ensures
            s == (MoistureSensor { dry_moisture: false, soil_moist_value: 0 }),
            moisture_inv(s),
    {
        MoistureSensor { dry_moisture: false, soil_moist_value: 0 }
    }
}

impl UltrasonicSensor {
    /// On the ground, before take-off.
    pub fn new() -> (s: UltrasonicSensor)
        ensures s == (UltrasonicSensor { altitude: 0, reached_max_altitude: false }),
    {
        UltrasonicSensor { altitude: 0, reached_max_altitude: false }
    }
}

// ---------------------------------------------------------------- thermal

/// The thermal camera after one reading, given the draws: `prob` in `0..10`
/// picks a moderate temperature (below 7) or a hot spell; `moderate` and
/// `high` are the temperatures drawn for each. In a hot spell nothing is
/// drawn: the temperature drops by 2.
pub open spec fn thermal_next(s: ThermalSensor, prob: int, moderate: int, high: int) -> ThermalSensor {
    if prob < 7 && !s.high_thermal {
        ThermalSensor { high_thermal: false, thermal_value: moderate as i32 }
    } else if prob > 6 && !s.high_thermal {
        ThermalSensor { high_thermal: true, thermal_value: high as i32 }
    } else if s.high_thermal {
        let v = s.thermal_value - 2;
        ThermalSensor { high_thermal: v >= 31, thermal_value: v as i32 }
    } else {
        s
    }
}

/// One reading of the thermal camera, from the given draws.
pub fn thermal_step(sensor: &mut ThermalSensor, prob: i32, moderate: i32, high: i32) -> (reading: i32)
    requires
        old(sensor).high_thermal ==> old(sensor).thermal_value >= i32::MIN + 2,
    ensures
        *final(sensor) == thermal_next(*old(sensor), prob as int, moderate as int, high as int),
        reading == final(sensor).thermal_value,
        !old(sensor).high_thermal && prob < 7 ==> reading == moderate && !final(sensor).high_thermal,
        !old(sensor).high_thermal && prob >= 7 ==> reading == high && final(sensor).high_thermal,
        old(sensor).high_thermal ==> reading == old(sensor).thermal_value - 2
            && final(sensor).high_thermal == (reading >= 31),
{
    if prob < 7 && !sensor.high_thermal {
        sensor.thermal_value = moderate;
    } else if prob > 6 && !sensor.high_thermal {
        sensor.thermal_value = high;
        sensor.high_thermal = true;
    } else if sensor.high_thermal {
        sensor.thermal_value = sensor.thermal_value - 2;
        if sensor.thermal_value < 31 {
            sensor.high_thermal = false;
        }
    }
    sensor.thermal_value
}

/// One reading of the thermal camera: 70% of the time a moderate
/// temperature (20 to 30 degrees), else the start of a hot spell (31 to 39).
pub fn generate_thermal_data(sensor: &mut ThermalSensor) -> (reading: i32)
    requires
        old(sensor).high_thermal ==> old(sensor).thermal_value >= i32::MIN + 2,
    ensures
        exists|prob: int, moderate: int, high: int|
            0 <= prob < 10 && 20 <= moderate < 31 && 31 <= high < 40
            && *final(sensor) == #[trigger] thermal_next(*old(sensor), prob, moderate, high),
        reading == final(sensor).thermal_value,
        thermal_inv(*old(sensor)) ==> thermal_inv(*final(sensor)) && 20 <= reading <= 39,
{
    let prob = random_in(0, 10);
    let moderate = random_in(20, 31);
    let high = random_in(31, 40);
    let ghost before = *sensor;
    let reading = thermal_step(sensor, prob, moderate, high);
    proof {
        if thermal_inv(before) {
            law_thermal_bounds(before, prob as int, moderate as int, high as int);
        }
    }
    reading
}

/// Takes one reading of the thermal camera, and drops it.
pub fn bm_thermal_sensor(sensor: &mut ThermalSensor)
    requires
        old(sensor).high_thermal ==> old(sensor).thermal_value >= i32::MIN + 2,
    ensures
        exists|prob: int, moderate: int, high: int|
            0 <= prob < 10 && 20 <= moderate < 31 && 31 <= high < 40
            && *final(sensor) == #[trigger] thermal_next(*old(sensor), prob, moderate, high),
        thermal_inv(*old(sensor)) ==> thermal_inv(*final(sensor)),
{
    let _ = generate_thermal_data(sensor);
}

// ---------------------------------------------------------------- moisture

/// The moisture sensor after one reading, given the draws: `prob` in `0..10`
/// picks a moderate moisture (below 7) or a dry spell; `moderate` and `dry`
/// are the moistures drawn for each. In a dry spell nothing is drawn: the
/// soil gets 20 wetter.
pub open spec fn moisture_next(s: MoistureSensor, prob: int, moderate: int, dry: int) -> MoistureSensor {
    if prob < 7 && !s.dry_moisture {
        MoistureSensor { dry_moisture: false, soil_moist_value: moderate as i32 }
    } else if prob > 6 && !s.dry_moisture {
        MoistureSensor { dry_moisture: true, soil_moist_value: dry as i32 }
    } else if s.dry_moisture {
        let v = s.soil_moist_value + 20;
        MoistureSensor { dry_moisture: v <= 299, soil_moist_value: v as i32 }
    } else {
        s
    }
}

/// One moisture reading of the multispectral camera, from the given draws.
pub fn moisture_step(sensor: &mut MoistureSensor, prob: i32, moderate: i32, dry: i32) -> (reading: i32)
    requires
        old(sensor).dry_moisture ==> old(sensor).soil_moist_value <= i32::MAX - 20,
    ensures
        *final(sensor) == moisture_next(*old(sensor), prob as int, moderate as int, dry as int),
        reading == final(sensor).soil_moist_value,
        !old(sensor).dry_moisture && prob < 7 ==> reading == moderate && !final(sensor).dry_moisture,
        !old(sensor).dry_moisture && prob >= 7 ==> reading == dry && final(sensor).dry_moisture,
        old(sensor).dry_moisture ==> reading == old(sensor).soil_moist_value + 20
            && final(sensor).dry_moisture == (reading <= 299),
{
    if prob < 7 && !sensor.dry_moisture {
        sensor.soil_moist_value = moderate;
    } else if prob > 6 && !sensor.dry_moisture {
        sensor.soil_moist_value = dry;
        sensor.dry_moisture = true;
    } else if sensor.dry_moisture {
        sensor.soil_moist_value = sensor.soil_moist_value + 20;
        if sensor.soil_moist_value > 299 {
            sensor.dry_moisture = false;
        }
    }
    sensor.soil_moist_value
}

/// One moisture reading of the multispectral camera: 70% of the time a
/// moderate moisture (300 to 400), else the start of a dry spell (200 to
/// 299). Gives the draw `prob` that chose between them, which the nutrient
/// reading shares, and the moisture.
pub fn generate_soil_moisture(sensor: &mut MoistureSensor) -> (reading: (i32, i32))
    requires
        old(sensor).dry_moisture ==> old(sensor).soil_moist_value <= i32::MAX - 20,
    ensures
        0 <= reading.0 < 10,
        exists|moderate: int, dry: int|
            300 <= moderate < 401 && 200 <= dry < 300
            && *final(sensor) == #[trigger] moisture_next(*old(sensor), reading.0 as int, moderate, dry),
        reading.1 == final(sensor).soil_moist_value,
        moisture_inv(*old(sensor)) ==> moisture_inv(*final(sensor)) && 200 <= reading.1 <= 400,
{
    let prob = random_in(0, 10);
    let moderate = random_in(300, 401);
    let dry = random_in(200, 300);
    let ghost before = *sensor;
    let moisture = moisture_step(sensor, prob, moderate, dry);
    proof {
        if moisture_inv(before) {
            law_moisture_bounds(before, prob as int, moderate as int, dry as int);
        }
    }
    (prob, moisture)
}

// ---------------------------------------------------------------- GPS

/// The drone's latitude after a step back towards home (2 units, not past
/// latitude 100).
pub open spec fn homeward(latitude: int) -> int {
    if latitude - 2 < 100 { 100 } else { latitude - 2 }
}

/// The position after one reading, and the position reported (if any), given
/// the draws: `prob` in `0..10` picks a reading on the path (below 7) or one
/// that has drifted by `deviation` in longitude (the drift is reported, the
/// kept position stays on its longitude). On the way out the drone moves one
/// unit of latitude (five while spraying is held back) until latitude 130; on
/// the way home it moves two units back towards latitude 100; otherwise it
/// reports nothing.
pub open spec fn gps_next(pos: GPS, f: MissionFlags, prob: int, deviation: int) -> (GPS, Option<GPS>) {
    let reported_longitude = if prob < 7 { pos.longitude as int } else { pos.longitude + deviation };
    if f.task_ongoing && !f.back_home {
        let step = if !f.resume_operation { 5int } else { 1int };
        let lat = if pos.latitude != 130 { pos.latitude + step } else { pos.latitude as int };
        (GPS { longitude: pos.longitude, latitude: lat as i32 },
         Some(GPS { longitude: reported_longitude as i32, latitude: lat as i32 }))
    } else if f.back_home {
        let moves = if prob < 7 { pos.latitude > 100 } else { pos.latitude != 100 };
        let lat = if moves { homeward(pos.latitude as int) } else { pos.latitude as int };
        (GPS { longitude: pos.longitude, latitude: lat as i32 },
         Some(GPS { longitude: reported_longitude as i32, latitude: lat as i32 }))
    } else {
        (pos, None)
    }
}

/// Does one GPS reading of `pos` under `f` stay within the range of `i32`,
/// whatever is drawn? On the way out the latitude grows; on the way home it
/// may shrink by 2; and while moving the reading may drift by -3 to 4.
pub open spec fn gps_in_range(pos: GPS, f: MissionFlags) -> bool {
    let outward = f.task_ongoing && !f.back_home;
    &&& outward && pos.latitude != 130 ==> pos.latitude + (if !f.resume_operation { 5int } else { 1int }) <= i32::MAX
    &&& f.back_home ==> pos.latitude >= i32::MIN + 2
    &&& outward || f.back_home ==> i32::MIN + 3 <= pos.longitude <= i32::MAX - 4
}

/// One GPS reading from the given draws.
pub fn gps_step(pos: &mut GPS, flags: &MissionFlags, prob: i32, deviation: i32) -> (reading: Option<GPS>)
    requires
        flags.task_ongoing && !flags.back_home && old(pos).latitude != 130
            ==> old(pos).latitude + (if !flags.resume_operation { 5int } else { 1int }) <= i32::MAX,
        flags.back_home && (if prob < 7 { old(pos).latitude > 100 } else { old(pos).latitude != 100 })
            ==> old(pos).latitude >= i32::MIN + 2,
        (flags.task_ongoing || flags.back_home) && prob >= 7
            ==> i32::MIN <= old(pos).longitude + deviation <= i32::MAX,
    ensures
        (*final(pos), reading) == gps_next(*old(pos), *flags, prob as int, deviation as int),
        final(pos).longitude == old(pos).longitude,
        !flags.task_ongoing && !flags.back_home ==> reading is None && *final(pos) == *old(pos),
        flags.task_ongoing || flags.back_home ==> reading == Some(GPS {
            longitude: if prob < 7 { old(pos).longitude } else { (old(pos).longitude + deviation) as i32 },
            latitude: final(pos).latitude,
        }),
        flags.task_ongoing && !flags.back_home ==> final(pos).latitude == (if old(pos).latitude == 130 {
            old(pos).latitude as int
        } else if flags.resume_operation {
            old(pos).latitude + 1
        } else {
            old(pos).latitude + 5
        }),
        flags.back_home && old(pos).latitude > 100 ==> final(pos).latitude == (if old(pos).latitude - 2 < 100 {
            100
        } else {
            old(pos).latitude - 2
        }),
        flags.back_home && old(pos).latitude == 100 ==> final(pos).latitude == 100,
{
    if flags.task_ongoing && !flags.back_home {
        let reported_longitude = if prob < 7 { pos.longitude } else { pos.longitude + deviation };
        if pos.latitude != 130 {
            if !flags.resume_operation {
                pos.latitude = pos.latitude + 5;
            } else {
                pos.latitude = pos.latitude + 1;
            }
        }
        Some(GPS { longitude: reported_longitude, latitude: pos.latitude })
    } else if flags.back_home {
        let reported_longitude = if prob < 7 { pos.longitude } else { pos.longitude + deviation };
        let moves = if prob < 7 { pos.latitude > 100 } else { pos.latitude != 100 };
        if moves {
            pos.latitude = pos.latitude - 2;
            if pos.latitude < 100 {
                pos.latitude = 100;
            }
        }
        Some(GPS { longitude: reported_longitude, latitude: pos.latitude })
    } else {
        None
    }
}

/// One GPS reading: the drone moves along its path, and 30% of the time the
/// reading has drifted by -3 to 4 units of longitude.
pub fn generate_gps_data(pos: &mut GPS, flags: &MissionFlags) -> (reading: Option<GPS>)
    requires
        gps_in_range(*old(pos), *flags),
    ensures
        exists|prob: int, deviation: int|
            0 <= prob < 10 && -3 <= deviation < 5
            && (*final(pos), reading) == #[trigger] gps_next(*old(pos), *flags, prob, deviation),
        final(pos).longitude == old(pos).longitude,
        reading matches Some(r) ==> -3 <= r.longitude - old(pos).longitude <= 4,
{
    let prob = random_in(0, 10);
    let deviation = random_in(-3, 5);
    gps_step(pos, flags, prob, deviation)
}

/// Takes one GPS reading, and drops it.
pub fn bm_gps(pos: &mut GPS, flags: &MissionFlags)
    requires
        gps_in_range(*old(pos), *flags),
    ensures
        exists|prob: int, deviation: int|
            0 <= prob < 10 && -3 <= deviation < 5
            && *final(pos) == (#[trigger] gps_next(*old(pos), *flags, prob, deviation)).0,
{
    let _ = generate_gps_data(pos, flags);
}

// ---------------------------------------------------------------- ultrasonic

/// The altitude after one reading, given the draws: climbing, the drone rises
/// 5 metres a reading until 50; at 50 it stays there, or (where `hover_prob`
/// is 7 or more) drifts by `deviation`; landing, it comes down 10 metres a
/// reading to the ground.
pub open spec fn altitude_next(s: UltrasonicSensor, landing: bool, hover_prob: int, deviation: int) -> UltrasonicSensor {
    if !landing {
        if !s.reached_max_altitude {
            let a = s.altitude + 5;
            UltrasonicSensor { altitude: a as i32, reached_max_altitude: a == 50 }
        } else {
            let a = if hover_prob < 7 { 50 } else { 50 + deviation };
            UltrasonicSensor { altitude: a as i32, reached_max_altitude: true }
        }
    } else {
        let a = s.altitude - 10;
        UltrasonicSensor { altitude: if a < 0 { 0 } else { a as i32 }, reached_max_altitude: s.reached_max_altitude }
    }
}

/// The distance to an obstacle, given the draws: `prob` in `0..10` picks a
/// clear way (below 7) or an obstacle.
pub open spec fn obstacle_distance(prob: int, clear: int, detected: int) -> int {
    if prob < 7 { clear } else { detected }
}

/// One reading of the ultrasonic sensor from the given draws.
pub fn ultrasonic_step(
    sensor: &mut UltrasonicSensor,
    landing: bool,
    prob: i32,
    clear: i32,
    detected: i32,
    hover_prob: i32,
    deviation: i32,
) -> (reading: Ultrasonic)
    requires
        !landing && !old(sensor).reached_max_altitude ==> old(sensor).altitude <= i32::MAX - 5,
        deviation <= i32::MAX - 50,
        landing ==> old(sensor).altitude >= i32::MIN + 10,
    ensures
        *final(sensor) == altitude_next(*old(sensor), landing, hover_prob as int, deviation as int),
        reading.obstacles_dtc == (if prob < 7 { clear } else { detected }),
        landing ==> final(sensor).altitude == (if old(sensor).altitude - 10 < 0 { 0 } else { old(sensor).altitude - 10 })
            && final(sensor).reached_max_altitude == old(sensor).reached_max_altitude,
        !landing && !old(sensor).reached_max_altitude ==> final(sensor).altitude == old(sensor).altitude + 5
            && final(sensor).reached_max_altitude == (final(sensor).altitude == 50),
        !landing && old(sensor).reached_max_altitude ==> final(sensor).reached_max_altitude
            && final(sensor).altitude == (if hover_prob < 7 { 50 } else { 50 + deviation }),
        reading == (Ultrasonic {
            obstacles_dtc: obstacle_distance(prob as int, clear as int, detected as int) as i32,
            altitude: final(sensor).altitude,
        }),
{
    let distance = if prob < 7 { clear } else { detected };
    if !landing {
        if !sensor.reached_max_altitude {
            sensor.altitude = sensor.altitude + 5;
            if sensor.altitude == 50 {
                sensor.reached_max_altitude = true;
            }
        } else {
            if hover_prob < 7 {
                sensor.altitude = 50;
            } else {
                sensor.altitude = 50 + deviation;
            }
        }
    } else {
        sensor.altitude = sensor.altitude - 10;
        if sensor.altitude < 0 {
            sensor.altitude = 0;
        }
    }
    Ultrasonic { obstacles_dtc: distance, altitude: sensor.altitude }
}

/// One reading of the ultrasonic sensor: 70% of the time the way is clear
/// (an obstacle 101 to 199 metres away), else an obstacle at 50 to 100
/// metres; at working altitude the drone drifts 30% of the time by -5 to 5
/// metres.
pub fn generate_ultrasonic_data(sensor: &mut UltrasonicSensor, landing: bool) -> (reading: Ultrasonic)
    requires
        !landing && !old(sensor).reached_max_altitude ==> old(sensor).altitude <= i32::MAX - 5,
        landing ==> old(sensor).altitude >= i32::MIN + 10,
    ensures
        exists|hover_prob: int, deviation: int|
            0 <= hover_prob < 10 && -5 <= deviation <= 5
            && *final(sensor) == #[trigger] altitude_next(*old(sensor), landing, hover_prob, deviation),
        exists|prob: int, clear: int, detected: int|
            0 <= prob < 10 && 101 <= clear < 200 && 50 <= detected < 101
            && reading.obstacles_dtc == #[trigger] obstacle_distance(prob, clear, detected),
        reading.altitude == final(sensor).altitude,
        50 <= reading.obstacles_dtc < 200,
{
    let prob = random_in(0, 10);
    let clear = random_in(101, 200);
    let detected = random_in(50, 101);
    let hover_prob = random_in(0, 10);
    let deviation = random_in(-5, 6);
    ultrasonic_step(sensor, landing, prob, clear, detected, hover_prob, deviation)
}

/// Takes one reading of the ultrasonic sensor, and drops it.
pub fn bm_ultrasonic_sensor(sensor: &mut UltrasonicSensor, landing: bool)
    requires
        !landing && !old(sensor).reached_max_altitude ==> old(sensor).altitude <= i32::MAX - 5,
        landing ==> old(sensor).altitude >= i32::MIN + 10,
    ensures
        exists|hover_prob: int, deviation: int|
            0 <= hover_prob < 10 && -5 <= deviation <= 5
            && *final(sensor) == #[trigger] altitude_next(*old(sensor), landing, hover_prob, deviation),
{
    let _ = generate_ultrasonic_data(sensor, landing);
}

// ---------------------------------------------------------------- battery

/// The battery level after one reading: below 21% it drains 1% a reading but
/// not below 2%; while spraying is held back on the way out it drains 1%;
/// otherwise 5%.
pub open spec fn battery_next(level: int, f: MissionFlags) -> int {
    if level < 21 {
        if level - 1 <= 2 { 2 } else { level - 1 }
    } else if !f.resume_operation && f.task_ongoing {
        level - 1
    } else {
        level - 5
    }
}

/// One reading of the battery: drains it, and gives the new level.
pub fn generate_battery_level(level: &mut i32, flags: &MissionFlags) -> (reading: i32)
    requires
        *old(level) > i32::MIN,
    ensures
        *final(level) == battery_next(*old(level) as int, *flags),
        reading == *final(level),
        *old(level) < 21 ==> *final(level) == (if *old(level) <= 3 { 2 } else { *old(level) - 1 }),
        *old(level) >= 21 && !flags.resume_operation && flags.task_ongoing ==> *final(level) == *old(level) - 1,
        *old(level) >= 21 && !(!flags.resume_operation && flags.task_ongoing) ==> *final(level) == *old(level) - 5,
{
    if *level < 21 {
        *level = *level - 1;
        if *level <= 2 {
            *level = 2;
        }
    } else if !flags.resume_operation && flags.task_ongoing {
        *level = *level - 1;
    } else {
        *level = *level - 5;
    }
    *level
}

/// Do the multispectral and thermal cameras take readings? Only while the
/// drone is spraying on its way out.
pub fn field_sensing_enabled(flags: &MissionFlags) -> (enabled: bool)
    ensures
        enabled == (!flags.back_home && flags.resume_operation && flags.task_ongoing),
{
    !flags.back_home && flags.resume_operation && flags.task_ongoing
}

} // verus!

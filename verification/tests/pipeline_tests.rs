use agriculture_drone::actuators::{gear, motor_gps_response};
use agriculture_drone::drone::{recharge_or_shutdown, DroneState};
use agriculture_drone::main_control::{data_processor, Alarm, ProcessorInput, SoilReport};
use agriculture_drone::sensors::{generate_battery_level, gps_step, moisture_step, thermal_step, ultrasonic_step};
use agriculture_drone::sprayers::{pesticide_dispenser, water_dispenser};
use agriculture_drone::text::int_to_text;

/// One second of the whole drone, with the draws fixed: the sensors read,
/// the monitor passes the readings on as text, the main control decides,
/// and the actuators act and report back.
#[test]
fn one_round_through_every_component() {
    let mut s = DroneState::new();
    let flags = s.flags;
    let moist = moisture_step(&mut s.moisture, 8, 350, 250);
    let thermal = thermal_step(&mut s.thermal, 9, 25, 36);
    let gps = gps_step(&mut s.position, &flags, 9, 2).unwrap();
    let ultra = ultrasonic_step(&mut s.ultrasonic, flags.landing, 2, 150, 70, 0, 0);
    let batt = generate_battery_level(&mut s.battery_level, &flags);
    assert_eq!((moist, thermal, batt), (250, 36, 100));

    let input = ProcessorInput {
        soil: Some(SoilReport { soil_moist: moist, nutrient_adequate: true }),
        thermal: Some(int_to_text(thermal)),
        gps: Some(gps),
        ultrasonic: Some(ultra),
        battery: Some(int_to_text(batt)),
        water_level: None,
        fertiliser_level: None,
        pesticide_level: None,
    };
    let out = data_processor(&mut s.flags, &mut s.sprayers, s.gear_up, &input);
    assert_eq!(out.thermal, Some(36));
    assert_eq!(out.battery, Some(100));
    assert_eq!(out.alarm, None);

    let water_report = water_dispenser(&mut s.sprayers.water, out.soil_moist_act.as_deref().unwrap());
    let pest_report = pesticide_dispenser(&mut s.sprayers.pesticide, out.thermal_act.as_deref().unwrap());
    assert_eq!((water_report.as_str(), pest_report.as_str()), ("90", "90"));
    assert!(s.sprayers.water.operating && s.sprayers.pesticide.operating);

    let motor = motor_gps_response(out.gps_act.as_deref().unwrap(), 90);
    assert_eq!(motor.propeller.as_deref(), Some("Roll left 2 degree"));
    gear(&mut s.gear_up, out.altitude_gear_act.as_deref().unwrap());
    assert!(!s.gear_up);
    recharge_or_shutdown(&mut s, out.altitude_refill_act.as_deref().unwrap());
    assert_eq!(s.battery_level, 100);

    // The dispensers' reports come back as readings of the next round.
    let next = ProcessorInput {
        soil: None,
        thermal: None,
        gps: None,
        ultrasonic: None,
        battery: None,
        water_level: Some(water_report),
        fertiliser_level: None,
        pesticide_level: Some(pest_report),
    };
    let out = data_processor(&mut s.flags, &mut s.sprayers, s.gear_up, &next);
    assert_eq!((out.water_level, out.pesticide_level), (Some(90), Some(90)));
    assert_eq!(out.alarm, None);
}

/// An empty tank reported back sends the drone home; landed at home with
/// its task still going on, it is refilled.
#[test]
fn empty_tank_then_refill() {
    let mut s = DroneState::new();
    s.sprayers.water.operating = true;
    s.sprayers.water.tank_level = 10;
    let report = water_dispenser(&mut s.sprayers.water, "Maintain");
    assert_eq!(report, "0");
    let input = ProcessorInput {
        soil: None,
        thermal: None,
        gps: None,
        ultrasonic: None,
        battery: None,
        water_level: Some(report),
        fertiliser_level: None,
        pesticide_level: None,
    };
    let out = data_processor(&mut s.flags, &mut s.sprayers, s.gear_up, &input);
    assert_eq!(out.alarm, Some(Alarm::WaterTankEmpty));
    assert!(s.flags.back_home && !s.sprayers.water.operating);
    recharge_or_shutdown(&mut s, "0");
    assert_eq!(s.sprayers.water.tank_level, 100);
    assert!(!s.flags.back_home);
}

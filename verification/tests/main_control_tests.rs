use agriculture_drone::main_control::{
    altitude_gear_logic, altitude_motor_logic, battery_logic, data_processor, fert_lvl_logic, gps_logic,
    obst_dect_logic, pest_lvl_logic, soil_moist_logic, soil_nutr_logic, thermal_logic, water_lvl_logic, Alarm,
    MissionFlags, ProcessorInput, SoilReport,
};
use agriculture_drone::sprayers::{water_dispenser, fertiliser_dispenser, pesticide_dispenser, Dispenser, Sprayers};
use agriculture_drone::structs::{Ultrasonic, GPS};

fn empty_input() -> ProcessorInput {
    ProcessorInput {
        soil: None,
        thermal: None,
        gps: None,
        ultrasonic: None,
        battery: None,
        water_level: None,
        fertiliser_level: None,
        pesticide_level: None,
    }
}

#[test]
fn soil_moist_logic_table() {
    assert_eq!(soil_moist_logic(300, true), "Off water dispenser");
    assert_eq!(soil_moist_logic(300, false), "Maintain");
    assert_eq!(soil_moist_logic(299, false), "On water dispenser");
    assert_eq!(soil_moist_logic(299, true), "Maintain");
}

#[test]
fn soil_nutr_logic_table() {
    assert_eq!(soil_nutr_logic(true, true), "Off fertiliser dispensing");
    assert_eq!(soil_nutr_logic(true, false), "Maintain");
    assert_eq!(soil_nutr_logic(false, false), "On fertiliser dispensing");
    assert_eq!(soil_nutr_logic(false, true), "Maintain");
}

#[test]
fn thermal_logic_table() {
    assert_eq!(thermal_logic(30, true), "Off pesticide dispensing");
    assert_eq!(thermal_logic(30, false), "Maintain");
    assert_eq!(thermal_logic(31, false), "On pesticide dispensing");
    assert_eq!(thermal_logic(31, true), "Maintain");
}

#[test]
fn obstacle_gear_and_motor_logic() {
    assert_eq!(obst_dect_logic(99), "Increase thrust to avoid obstacles");
    assert_eq!(obst_dect_logic(100), "Maintain thrust");
    assert_eq!(altitude_gear_logic(6, false, false), "Retract gear");
    assert_eq!(altitude_gear_logic(5, false, true), "Maintain");
    assert_eq!(altitude_gear_logic(19, true, true), "Deploy gear");
    assert_eq!(altitude_gear_logic(19, true, false), "Maintain");
    assert_eq!(altitude_gear_logic(20, true, true), "Maintain");
    assert_eq!(altitude_motor_logic(49, false), "Increase thrust for more lift");
    assert_eq!(altitude_motor_logic(51, false), "Reduce thrust to lower");
    assert_eq!(altitude_motor_logic(50, false), "Maintain thrust");
    assert_eq!(altitude_motor_logic(10, true), "Reduce thrust for landing");
}

#[test]
fn gps_logic_reports_drift_and_updates_mission() {
    let mut f = MissionFlags::new();
    assert_eq!(gps_logic(&mut f, 5, 101), "0");
    assert_eq!(f.latest_latitude, 101);
    assert_eq!(gps_logic(&mut f, 7, 102), "-2");
    assert_eq!(gps_logic(&mut f, 2, 103), "3");
    assert!(f.task_ongoing && !f.back_home);
    assert_eq!(gps_logic(&mut f, 5, 130), "0");
    assert!(!f.task_ongoing && f.back_home && !f.landing);
    assert_eq!(f.latest_latitude, 130);
    gps_logic(&mut f, 5, 110);
    assert!(!f.landing);
    assert_eq!(f.latest_latitude, 130);
    gps_logic(&mut f, 5, 100);
    assert!(f.landing);
}

#[test]
fn gps_logic_resumes_at_furthest_latitude() {
    let mut f = MissionFlags { task_ongoing: true, back_home: false, landing: false, resume_operation: false, latest_latitude: 120 };
    gps_logic(&mut f, 5, 115);
    assert!(!f.resume_operation);
    gps_logic(&mut f, 5, 120);
    assert!(f.resume_operation);
}

#[test]
fn level_alarms_send_the_drone_home() {
    let mut f = MissionFlags::new();
    let mut s = Sprayers::new();
    s.water.operating = true;
    assert!(!battery_logic(21, &mut f, &mut s));
    assert!(!f.back_home && s.water.operating);
    assert!(battery_logic(20, &mut f, &mut s));
    assert!(f.back_home && !f.resume_operation && !s.water.operating);
    assert!(!water_lvl_logic(0, &mut f, &mut s));
    let mut f2 = MissionFlags::new();
    assert!(!water_lvl_logic(1, &mut f2, &mut s));
    assert!(water_lvl_logic(0, &mut f2, &mut s));
    let mut f3 = MissionFlags::new();
    assert!(fert_lvl_logic(-10, &mut f3, &mut s));
    let mut f4 = MissionFlags::new();
    assert!(pest_lvl_logic(0, &mut f4, &mut s));
    assert!(f4.back_home);
}

#[test]
fn data_processor_one_round() {
    let mut f = MissionFlags::new();
    let mut s = Sprayers::new();
    let input = ProcessorInput {
        soil: Some(SoilReport { soil_moist: 250, nutrient_adequate: true }),
        thermal: Some("35".to_string()),
        gps: Some(GPS { longitude: 7, latitude: 130 }),
        ultrasonic: Some(Ultrasonic { obstacles_dtc: 80, altitude: 50 }),
        battery: Some("15".to_string()),
        water_level: Some("abc".to_string()),
        fertiliser_level: None,
        pesticide_level: Some("0".to_string()),
    };
    let out = data_processor(&mut f, &mut s, true, &input);
    assert_eq!(out.soil_moist_act.as_deref(), Some("On water dispenser"));
    assert_eq!(out.soil_nutr_act.as_deref(), Some("Maintain"));
    assert_eq!(out.thermal, Some(35));
    assert_eq!(out.thermal_act.as_deref(), Some("On pesticide dispensing"));
    assert_eq!(out.gps_act.as_deref(), Some("-2"));
    assert_eq!(out.obs_detc_act.as_deref(), Some("Increase thrust to avoid obstacles"));
    assert_eq!(out.altitude_gear_act.as_deref(), Some("Maintain"));
    assert_eq!(out.altitude_motor_act.as_deref(), Some("Maintain thrust"));
    assert_eq!(out.altitude_refill_act.as_deref(), Some("50"));
    assert_eq!(out.battery, Some(15));
    assert_eq!(out.water_level, None);
    assert_eq!(out.pesticide_level, Some(0));
    // The drone reached the end of the path: it was already going home when
    // the low battery came in.
    assert_eq!(out.alarm, None);
    assert!(!f.task_ongoing && f.back_home && f.resume_operation);
}

#[test]
fn data_processor_low_battery_sends_home() {
    let mut f = MissionFlags::new();
    let mut s = Sprayers::new();
    s.fertiliser.operating = true;
    let mut input = empty_input();
    input.battery = Some("20".to_string());
    input.water_level = Some("0".to_string());
    let out = data_processor(&mut f, &mut s, false, &input);
    assert_eq!(out.alarm, Some(Alarm::LowBattery));
    assert!(f.back_home && !f.resume_operation && f.task_ongoing);
    assert!(!s.fertiliser.operating);
    assert_eq!(out.soil_moist_act, None);
    assert_eq!(out.gps_act, None);
    assert_eq!(out.obs_detc_act, None);
}

#[test]
fn data_processor_landing_deploys_gear() {
    let mut f = MissionFlags { task_ongoing: false, back_home: true, landing: false, resume_operation: true, latest_latitude: 130 };
    let mut s = Sprayers::new();
    let mut input = empty_input();
    input.gps = Some(GPS { longitude: 5, latitude: 100 });
    input.ultrasonic = Some(Ultrasonic { obstacles_dtc: 150, altitude: 10 });
    let out = data_processor(&mut f, &mut s, true, &input);
    assert!(f.landing);
    assert_eq!(out.altitude_gear_act.as_deref(), Some("Deploy gear"));
    assert_eq!(out.altitude_motor_act.as_deref(), Some("Reduce thrust for landing"));
    assert_eq!(out.obs_detc_act.as_deref(), Some("Maintain thrust"));
}

#[test]
fn law_control_loops() {
    for moist in [200, 299, 300, 400] {
        for operating in [false, true] {
            let mut d = Dispenser { operating, tank_level: 70 };
            water_dispenser(&mut d, &soil_moist_logic(moist, operating));
            assert_eq!(d.operating, moist <= 299);
            assert_eq!(d.tank_level, if moist <= 299 { 60 } else { 70 });
        }
    }
    for adequate in [false, true] {
        for operating in [false, true] {
            let mut d = Dispenser { operating, tank_level: 70 };
            fertiliser_dispenser(&mut d, &soil_nutr_logic(adequate, operating));
            assert_eq!(d.operating, !adequate);
        }
    }
    for thermal in [20, 30, 31, 39] {
        for operating in [false, true] {
            let mut d = Dispenser { operating, tank_level: 70 };
            pesticide_dispenser(&mut d, &thermal_logic(thermal, operating));
            assert_eq!(d.operating, thermal >= 31);
        }
    }
}

#[test]
fn law_mission_progress() {
    let mut f = MissionFlags { task_ongoing: false, back_home: true, landing: true, resume_operation: false, latest_latitude: 130 };
    let mut s = Sprayers::new();
    let mut input = empty_input();
    input.gps = Some(GPS { longitude: 5, latitude: 104 });
    input.battery = Some("5".to_string());
    let out = data_processor(&mut f, &mut s, false, &input);
    assert!(f.back_home && !f.task_ongoing && f.landing);
    assert_eq!(f.latest_latitude, 130);
    assert_eq!(out.alarm, None);
    assert_eq!(s, Sprayers::new());
}

#[test]
fn law_mission_turns() {
    let mut f = MissionFlags::new();
    gps_logic(&mut f, 3, 130);
    assert!(!f.task_ongoing && f.back_home);
    gps_logic(&mut f, 3, 100);
    assert!(f.landing);
}

#[test]
fn law_alarm_sends_home() {
    let mut f = MissionFlags::new();
    let mut s = Sprayers::new();
    s.water.operating = true;
    s.fertiliser.operating = true;
    s.pesticide.operating = true;
    assert!(pest_lvl_logic(-1, &mut f, &mut s));
    assert!(f.back_home && !f.resume_operation);
    assert!(!s.water.operating && !s.fertiliser.operating && !s.pesticide.operating);
}

use agriculture_drone::actuators::{
    gear, motor_altitude, motor_altitude_response, motor_gps, motor_gps_response, motor_obs_dtc,
    motor_obs_dtc_response, propeller_altiude, propeller_gps, propeller_obs_dtc,
};
use agriculture_drone::drone::{recharge_or_shutdown, DroneState, Systems};
use agriculture_drone::main_control::{altitude_gear_logic, gps_logic, MissionFlags};

#[test]
fn gear_follows_instructions() {
    let mut up = false;
    gear(&mut up, "Retract gear");
    assert!(up);
    gear(&mut up, "Maintain");
    assert!(up);
    gear(&mut up, "Deploy gear");
    assert!(!up);
}

#[test]
fn law_gear_follows_altitude() {
    for (altitude, up, landing, expected) in [(6, false, false, true), (3, false, true, false), (19, true, true, false), (19, true, false, true), (25, true, true, true)] {
        let mut g = up;
        gear(&mut g, &altitude_gear_logic(altitude, up, landing));
        assert_eq!(g, expected);
    }
}

#[test]
fn motor_gps_responses() {
    let r = motor_gps_response("0", 90);
    assert_eq!(r.report.as_deref(), Some("Motor: Thrust remained at 80% (on-track)"));
    assert_eq!(r.propeller.as_deref(), Some("Remain"));
    let r = motor_gps_response("-3", 90);
    assert_eq!(r.report.as_deref(), Some("Motor: Thrust increased to 90% (off-track)"));
    assert_eq!(r.propeller.as_deref(), Some("Roll left 3 degree"));
    let r = motor_gps_response("4", 85);
    assert_eq!(r.propeller.as_deref(), Some("Roll right 4 degree"));
    let r = motor_gps_response("x", 85);
    assert_eq!(r.report.as_deref(), Some("Motor: Thrust increased to 85% (off-track)"));
    assert_eq!(r.propeller, None);
}

#[test]
fn motor_thrust_is_drawn_in_range() {
    for _ in 0..200 {
        let r = motor_gps("2").report.unwrap();
        let t: i32 = r["Motor: Thrust increased to ".len()..r.len() - "% (off-track)".len()].parse().unwrap();
        assert!((81..=100).contains(&t));
        let r = motor_altitude("Reduce thrust to lower").report.unwrap();
        let t: i32 = r["Motor: Thrust reduced to ".len()..r.len() - "% (altitude high)".len()].parse().unwrap();
        assert!((50..=79).contains(&t));
        let p = motor_obs_dtc("Increase thrust to avoid obstacles").propeller.unwrap();
        assert!(p == "Roll to left" || p == "Roll to right");
    }
}

#[test]
fn motor_obs_dtc_responses() {
    let r = motor_obs_dtc_response("Increase thrust to avoid obstacles", 95, 0);
    assert_eq!(r.report.as_deref(), Some("Motor: Thrust increased to 95% (obstacles detected)"));
    assert_eq!(r.propeller.as_deref(), Some("Roll to left"));
    let r = motor_obs_dtc_response("Increase thrust to avoid obstacles", 95, 1);
    assert_eq!(r.propeller.as_deref(), Some("Roll to right"));
    let r = motor_obs_dtc_response("Maintain thrust", 95, 1);
    assert_eq!(r.report.as_deref(), Some("Motor: Thrust remained at 80% (no obstacles)"));
    assert_eq!(r.propeller.as_deref(), Some("Remain"));
    let r = motor_obs_dtc_response("Maintain", 95, 1);
    assert!(r.report.is_none() && r.propeller.is_none());
}

#[test]
fn motor_altitude_responses() {
    let r = motor_altitude_response("Increase thrust for more lift", 88, 60);
    assert_eq!(r.report.as_deref(), Some("Motor: Thrust increased to 88% (altitude low)"));
    assert_eq!(r.propeller.as_deref(), Some("Lifting the drone"));
    let r = motor_altitude_response("Reduce thrust to lower", 88, 60);
    assert_eq!(r.report.as_deref(), Some("Motor: Thrust reduced to 60% (altitude high)"));
    assert_eq!(r.propeller.as_deref(), Some("Lowering the drone (altitude high)"));
    let r = motor_altitude_response("Maintain thrust", 88, 60);
    assert_eq!(r.report.as_deref(), Some("Motor: Thrust remained at 80% (normal altitude)"));
    assert_eq!(r.propeller.as_deref(), Some("Remain"));
    let r = motor_altitude_response("Reduce thrust for landing", 88, 60);
    assert_eq!(r.report.as_deref(), Some("Motor: Reducing trust (landing)"));
    assert_eq!(r.propeller.as_deref(), Some("Lowering the drone (landing)"));
    assert!(motor_altitude_response("", 88, 60).report.is_none());
}

#[test]
fn propeller_lines() {
    assert_eq!(propeller_gps("Remain"), "Propellers: Remain spinning degree (on track)");
    assert_eq!(propeller_gps("Roll left 3 degree"), "Propellers: Roll left 3 degree (off track)");
    assert_eq!(propeller_obs_dtc("Remain"), "Propellers: Remain spinning degree (no obstacles)");
    assert_eq!(propeller_obs_dtc("Roll to left"), "Propellers: Roll to left (obstacles detected)");
    assert_eq!(propeller_altiude("Remain"), "Propellers: Remain spinning degree (normal altitude)");
    assert_eq!(propeller_altiude("Lifting the drone"), "Propellers: Lifting the drone (altitude low)");
    assert_eq!(propeller_altiude("Lowering the drone (landing)"), "Propellers: Lowering the drone (landing)");
}

#[test]
fn law_path_correction() {
    for (longitude, expected) in [(5, "Remain"), (8, "Roll left 3 degree"), (1, "Roll right 4 degree")] {
        let mut f = MissionFlags::new();
        let instruc = gps_logic(&mut f, longitude, 101);
        assert_eq!(motor_gps(&instruc).propeller.as_deref(), Some(expected));
    }
}

#[test]
fn recharge_when_landed_with_task_ongoing() {
    let mut s = DroneState::new();
    s.sprayers.water.tank_level = 0;
    s.sprayers.water.operating = true;
    s.sprayers.pesticide.tank_level = 40;
    s.battery_level = 15;
    s.flags.back_home = true;
    s.flags.landing = true;
    s.flags.resume_operation = false;
    s.ultrasonic.reached_max_altitude = true;
    recharge_or_shutdown(&mut s, "0");
    assert_eq!(s.sprayers.water.tank_level, 100);
    assert!(s.sprayers.water.operating);
    assert_eq!(s.sprayers.pesticide.tank_level, 100);
    assert_eq!(s.sprayers.fertiliser.tank_level, 100);
    assert_eq!(s.battery_level, 100);
    assert!(!s.flags.back_home && !s.flags.landing && !s.flags.resume_operation);
    assert!(!s.ultrasonic.reached_max_altitude);
    assert_eq!(s.systems, Systems { sensor_operating: true, actuator_operating: true, main_control_operating: true });
}

#[test]
fn shutdown_when_landed_with_task_done() {
    let mut s = DroneState::new();
    s.flags.task_ongoing = false;
    s.battery_level = 30;
    recharge_or_shutdown(&mut s, "0");
    assert_eq!(s.systems, Systems { sensor_operating: false, actuator_operating: false, main_control_operating: false });
    assert_eq!(s.battery_level, 30);
}

#[test]
fn nothing_happens_in_the_air() {
    let mut s = DroneState::new();
    s.battery_level = 30;
    let before = s;
    recharge_or_shutdown(&mut s, "10");
    recharge_or_shutdown(&mut s, "00");
    assert_eq!(s, before);
}

#[test]
fn drone_starts_at_home() {
    let s = DroneState::new();
    assert_eq!(s.battery_level, 105);
    assert_eq!(s.position.longitude, 5);
    assert_eq!(s.position.latitude, 100);
    assert!(s.flags.task_ongoing && s.flags.resume_operation && !s.flags.back_home);
    assert_eq!(s.flags.latest_latitude, 100);
    assert!(!s.gear_up);
}

//! The landing gear, the motor and the propellers.

use vstd::prelude::*;
use crate::random::random_in;
use crate::text::{concat2, concat3, int_text, int_to_text, opt_text, parse_int, parse_int_spec, text_eq};

verus! {

/// The landing gear's position after `instruc`: `Retract gear` raises it,
/// `Deploy gear` lowers it, anything else leaves it.
pub open spec fn gear_after(gear_up: bool, instruc: Seq<char>) -> bool {
    if instruc == "Retract gear"@ {
        true
    } else if instruc == "Deploy gear"@ {
        false
    } else {
        gear_up
    }
}

/// The landing gear carries out `instruc` from the main control.
pub fn gear(gear_up: &mut bool, instruc: &str)
    ensures
        *final(gear_up) == gear_after(*old(gear_up), instruc@),
        instruc@ == "Retract gear"@ ==> *final(gear_up),
        instruc@ == "Deploy gear"@ ==> !*final(gear_up),
        instruc@ != "Retract gear"@ && instruc@ != "Deploy gear"@ ==> *final(gear_up) == *old(gear_up),
{
    proof {
        reveal_strlit("Retract gear");
        reveal_strlit("Deploy gear");
        assert("Retract gear"@.len() != "Deploy gear"@.len());
    }
    if text_eq(instruc, "Retract gear") {
        *gear_up = true;
    } else if text_eq(instruc, "Deploy gear") {
        *gear_up = false;
    }
}

/// What the motor does with an instruction: the line it logs, and the
/// instruction it passes to the propellers (each `None` where it does
/// nothing).
pub struct MotorResponse {
    pub report: Option<String>,
    pub propeller: Option<String>,
}

// ---------------------------------------------------------------- path

/// The motor's log line for the path instruction `instruc` (the drift from the
/// path's longitude), at `thrust` percent where it is off the path.
pub open spec fn motor_gps_report(instruc: Seq<char>, thrust: int) -> Seq<char> {
    if instruc == "0"@ {
        "Motor: Thrust remained at 80% (on-track)"@
    } else {
        "Motor: Thrust increased to "@ + int_text(thrust) + "% (off-track)"@
    }
}

/// The propellers' instruction for the path instruction `instruc`: roll
/// against the drift, where it parses.
pub open spec fn motor_gps_propeller(instruc: Seq<char>) -> Option<Seq<char>> {
    if instruc == "0"@ {
        Some("Remain"@)
    } else {
        match parse_int_spec(instruc) {
            Some(d) => if d < 0 {
                Some("Roll left "@ + int_text(-d) + " degree"@)
            } else {
                Some("Roll right "@ + int_text(d) + " degree"@)
            },
            None => None,
        }
    }
}

/// The motor's response to the path instruction `instruc`, at `thrust` percent
/// where the drone is off the path.
pub fn motor_gps_response(instruc: &str, thrust: i32) -> (resp: MotorResponse)
    requires
        parse_int_spec(instruc@) != Some(i32::MIN as int),
    ensures
        opt_text(resp.report) == Some(motor_gps_report(instruc@, thrust as int)),
        opt_text(resp.propeller) == motor_gps_propeller(instruc@),
{
    if text_eq(instruc, "0") {
        MotorResponse {
            report: Some(String::from_str("Motor: Thrust remained at 80% (on-track)")),
            propeller: Some(String::from_str("Remain")),
        }
    } else {
        let thrust_text = int_to_text(thrust);
        let report = concat3("Motor: Thrust increased to ", thrust_text.as_str(), "% (off-track)");
        let propeller = match parse_int(instruc) {
            Some(temp) => {
                if temp < 0 {
                    let degrees = int_to_text(-temp);
                    Some(concat3("Roll left ", degrees.as_str(), " degree"))
                } else {
                    let degrees = int_to_text(temp);
                    Some(concat3("Roll right ", degrees.as_str(), " degree"))
                }
            },
            None => None,
        };
        MotorResponse { report: Some(report), propeller }
    }
}

/// The motor's response to the path instruction `instruc`: off the path it
/// raises its thrust to 81 to 100 percent.
pub fn motor_gps(instruc: &str) -> (resp: MotorResponse)
    requires
        parse_int_spec(instruc@) != Some(i32::MIN as int),
    ensures
        exists|thrust: int| 81 <= thrust < 101
            && opt_text(resp.report) == Some(#[trigger] motor_gps_report(instruc@, thrust)),
        opt_text(resp.propeller) == motor_gps_propeller(instruc@),
{
    let thrust = random_in(81, 101);
    motor_gps_response(instruc, thrust)
}

// ---------------------------------------------------------------- obstacles

/// The motor's log line for the obstacle instruction `instruc`.
pub open spec fn motor_obs_report(instruc: Seq<char>, thrust: int) -> Option<Seq<char>> {
    if instruc == "Increase thrust to avoid obstacles"@ {
        Some("Motor: Thrust increased to "@ + int_text(thrust) + "% (obstacles detected)"@)
    } else if instruc == "Maintain thrust"@ {
        Some("Motor: Thrust remained at 80% (no obstacles)"@)
    } else {
        None
    }
}

/// The propellers' instruction for the obstacle instruction `instruc`: roll
/// left (where `direction` is 0) or right round an obstacle.
pub open spec fn motor_obs_propeller(instruc: Seq<char>, direction: int) -> Option<Seq<char>> {
    if instruc == "Increase thrust to avoid obstacles"@ {
        if direction == 0 { Some("Roll to left"@) } else { Some("Roll to right"@) }
    } else if instruc == "Maintain thrust"@ {
        Some("Remain"@)
    } else {
        None
    }
}

/// The motor's response to the obstacle instruction `instruc`, given the
/// thrust and the direction to roll.
pub fn motor_obs_dtc_response(instruc: &str, thrust: i32, direction: i32) -> (resp: MotorResponse)
    ensures
        opt_text(resp.report) == motor_obs_report(instruc@, thrust as int),
        opt_text(resp.propeller) == motor_obs_propeller(instruc@, direction as int),
{
    if text_eq(instruc, "Increase thrust to avoid obstacles") {
        let thrust_text = int_to_text(thrust);
        let report = concat3("Motor: Thrust increased to ", thrust_text.as_str(), "% (obstacles detected)");
        let propeller = if direction == 0 {
            String::from_str("Roll to left")
        } else {
            String::from_str("Roll to right")
        };
        MotorResponse { report: Some(report), propeller: Some(propeller) }
    } else if text_eq(instruc, "Maintain thrust") {
        MotorResponse {
            report: Some(String::from_str("Motor: Thrust remained at 80% (no obstacles)")),
            propeller: Some(String::from_str("Remain")),
        }
    } else {
        MotorResponse { report: None, propeller: None }
    }
}

/// The motor's response to the obstacle instruction `instruc`: to avoid an
/// obstacle it raises its thrust to 81 to 100 percent and rolls to a side
/// picked at random.
pub fn motor_obs_dtc(instruc: &str) -> (resp: MotorResponse)
    ensures
        exists|thrust: int, direction: int| 81 <= thrust < 101 && 0 <= direction < 2
            && opt_text(resp.report) == #[trigger] motor_obs_report(instruc@, thrust)
            && opt_text(resp.propeller) == #[trigger] motor_obs_propeller(instruc@, direction),
{
    let thrust = random_in(81, 101);
    let direction = random_in(0, 2);
    motor_obs_dtc_response(instruc, thrust, direction)
}

// ---------------------------------------------------------------- altitude

/// The motor's log line for the altitude instruction `instruc`, at `up` percent
/// where it climbs and `down` percent where it comes down.
pub open spec fn motor_altitude_report(instruc: Seq<char>, up: int, down: int) -> Option<Seq<char>> {
    if instruc == "Increase thrust for more lift"@ {
        Some("Motor: Thrust increased to "@ + int_text(up) + "% (altitude low)"@)
    } else if instruc == "Reduce thrust to lower"@ {
        Some("Motor: Thrust reduced to "@ + int_text(down) + "% (altitude high)"@)
    } else if instruc == "Maintain thrust"@ {
        Some("Motor: Thrust remained at 80% (normal altitude)"@)
    } else if instruc == "Reduce thrust for landing"@ {
        Some("Motor: Reducing trust (landing)"@)
    } else {
        None
    }
}

/// The propellers' instruction for the altitude instruction `instruc`.
pub open spec fn motor_altitude_propeller(instruc: Seq<char>) -> Option<Seq<char>> {
    if instruc == "Increase thrust for more lift"@ {
        Some("Lifting the drone"@)
    } else if instruc == "Reduce thrust to lower"@ {
        Some("Lowering the drone (altitude high)"@)
    } else if instruc == "Maintain thrust"@ {
        Some("Remain"@)
    } else if instruc == "Reduce thrust for landing"@ {
        Some("Lowering the drone (landing)"@)
    } else {
        None
    }
}

/// The motor's response to the altitude instruction `instruc`, given the
/// thrust to climb and the thrust to come down.
pub fn motor_altitude_response(instruc: &str, up: i32, down: i32) -> (resp: MotorResponse)
    ensures
        opt_text(resp.report) == motor_altitude_report(instruc@, up as int, down as int),
        opt_text(resp.propeller) == motor_altitude_propeller(instruc@),
{
    if text_eq(instruc, "Increase thrust for more lift") {
        let thrust_text = int_to_text(up);
        MotorResponse {
            report: Some(concat3("Motor: Thrust increased to ", thrust_text.as_str(), "% (altitude low)")),
            propeller: Some(String::from_str("Lifting the drone")),
        }
    } else if text_eq(instruc, "Reduce thrust to lower") {
        let thrust_text = int_to_text(down);
        MotorResponse {
            report: Some(concat3("Motor: Thrust reduced to ", thrust_text.as_str(), "% (altitude high)")),
            propeller: Some(String::from_str("Lowering the drone (altitude high)")),
        }
    } else if text_eq(instruc, "Maintain thrust") {
        MotorResponse {
            report: Some(String::from_str("Motor: Thrust remained at 80% (normal altitude)")),
            propeller: Some(String::from_str("Remain")),
        }
    } else if text_eq(instruc, "Reduce thrust for landing") {
        MotorResponse {
            report: Some(String::from_str("Motor: Reducing trust (landing)")),
            propeller: Some(String::from_str("Lowering the drone (landing)")),
        }
    } else {
        MotorResponse { report: None, propeller: None }
    }
}

/// The motor's response to the altitude instruction `instruc`: it climbs at 81
/// to 100 percent thrust, and comes down at 50 to 79 percent.
pub fn motor_altitude(instruc: &str) -> (resp: MotorResponse)
    ensures
        exists|up: int, down: int| 81 <= up < 101 && 50 <= down < 80
            && opt_text(resp.report) == #[trigger] motor_altitude_report(instruc@, up, down),
        opt_text(resp.propeller) == motor_altitude_propeller(instruc@),
{
    let up = random_in(81, 101);
    let down = random_in(50, 80);
    motor_altitude_response(instruc, up, down)
}

// ---------------------------------------------------------------- propellers

/// The propellers' log line for an instruction from the path motor.
pub fn propeller_gps(instruc: &str) -> (line: String)
    ensures
        line@ == if instruc@ == "Remain"@ {
            "Propellers: Remain spinning degree (on track)"@
        } else {
            "Propellers: "@ + instruc@ + " (off track)"@
        },
{
    if text_eq(instruc, "Remain") {
        String::from_str("Propellers: Remain spinning degree (on track)")
    } else {
        concat3("Propellers: ", instruc, " (off track)")
    }
}

/// The propellers' log line for an instruction from the obstacle motor.
pub fn propeller_obs_dtc(instruc: &str) -> (line: String)
    ensures
        line@ == if instruc@ == "Remain"@ {
            "Propellers: Remain spinning degree (no obstacles)"@
        } else {
            "Propellers: "@ + instruc@ + " (obstacles detected)"@
        },
{
    if text_eq(instruc, "Remain") {
        String::from_str("Propellers: Remain spinning degree (no obstacles)")
    } else {
        concat3("Propellers: ", instruc, " (obstacles detected)")
    }
}

/// The propellers' log line for an instruction from the altitude motor.
pub fn propeller_altiude(instruc: &str) -> (line: String)
    ensures
        line@ == if instruc@ == "Remain"@ {
            "Propellers: Remain spinning degree (normal altitude)"@
        } else if instruc@ == "Lifting the drone"@ {
            "Propellers: "@ + instruc@ + " (altitude low)"@
        } else {
            "Propellers: "@ + instruc@
        },
{
    if text_eq(instruc, "Remain") {
        String::from_str("Propellers: Remain spinning degree (normal altitude)")
    } else if text_eq(instruc, "Lifting the drone") {
        concat3("Propellers: ", instruc, " (altitude low)")
    } else {
        concat2("Propellers: ", instruc)
    }
}

} // verus!

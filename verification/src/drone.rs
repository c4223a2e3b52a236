//! The whole drone's state, and what happens when it lands at home: it is
//! refilled and recharged, or, with its task done, shut down.

use vstd::prelude::*;
use crate::main_control::MissionFlags;
use crate::sensors::{MoistureSensor, ThermalSensor, UltrasonicSensor};
use crate::sprayers::{Dispenser, Sprayers};
use crate::structs::GPS;
use crate::text::text_eq;

verus! {

/// Which of the three systems (sensors, actuators, main control) still run.
#[derive(Debug, Clone, Copy, PartialEq, Eq, Structural)]
pub struct Systems {
    pub sensor_operating: bool,
    pub actuator_operating: bool,
    pub main_control_operating: bool,
}

/// Everything the drone's components keep between rounds.
#[derive(Debug, Clone, Copy, PartialEq, Eq, Structural)]
pub struct DroneState {
    pub flags: MissionFlags,
    pub sprayers: Sprayers,
    pub gear_up: bool,
    pub battery_level: i32,
    pub ultrasonic: UltrasonicSensor,
    pub position: GPS,
    pub thermal: ThermalSensor,
    pub moisture: MoistureSensor,
    pub systems: Systems,
}

impl DroneState {
    /// The drone on the ground at home, before take-off.
    pub fn new() -> (s: DroneState)
        ensures
            s.flags == (MissionFlags {
                task_ongoing: true,
                back_home: false,
                landing: false,
                resume_operation: true,
                latest_latitude: 100,
            }),
            s.sprayers.water == (Dispenser { operating: false, tank_level: 100 }),
            s.sprayers.fertiliser == (Dispenser { operating: false, tank_level: 100 }),
            s.sprayers.pesticide == (Dispenser { operating: false, tank_level: 100 }),
            !s.gear_up,
            s.battery_level == 105,
            s.ultrasonic == (UltrasonicSensor { altitude: 0, reached_max_altitude: false }),
            s.position == (GPS { longitude: 5, latitude: 100 }),
            s.thermal == (ThermalSensor { high_thermal: false, thermal_value: 0 }),
            s.moisture == (MoistureSensor { dry_moisture: false, soil_moist_value: 0 }),
            s.systems == (Systems { sensor_operating: true, actuator_operating: true, main_control_operating: true }),
    {
        DroneState {
            flags: MissionFlags::new(),
            sprayers: Sprayers::new(),
            gear_up: false,
            battery_level: 105,
            ultrasonic: UltrasonicSensor::new(),
            position: GPS { longitude: 5, latitude: 100 },
            thermal: ThermalSensor::new(),
            moisture: MoistureSensor::new(),
            systems: Systems { sensor_operating: true, actuator_operating: true, main_control_operating: true },
        }
    }
}

/// The drone after the main control reports the altitude `altitude` to the
/// refill station: on the ground (`0`) with its task still going on, the
/// tanks are filled and the battery replaced, and the drone is ready to climb
/// back to where it was; on the ground with its task done, all three systems
/// shut down; otherwise nothing changes.
pub open spec fn recharged(s: DroneState, altitude: Seq<char>) -> DroneState {
    if altitude == "0"@ && s.flags.task_ongoing {
        DroneState {
            flags: MissionFlags { back_home: false, landing: false, ..s.flags },
            sprayers: Sprayers {
                water: Dispenser { tank_level: 100, ..s.sprayers.water },
                fertiliser: Dispenser { tank_level: 100, ..s.sprayers.fertiliser },
                pesticide: Dispenser { tank_level: 100, ..s.sprayers.pesticide },
            },
            battery_level: 100,
            ultrasonic: UltrasonicSensor { reached_max_altitude: false, ..s.ultrasonic },
            ..s
        }
    } else if altitude == "0"@ {
        DroneState {
            systems: Systems { sensor_operating: false, actuator_operating: false, main_control_operating: false },
            ..s
        }
    } else {
        s
    }
}

/// Refills and recharges the drone once it has landed with its task still
/// going on, or shuts it down once it has landed with its task done.
pub fn recharge_or_shutdown(state: &mut DroneState, altitude: &str)
    ensures
        *final(state) == recharged(*old(state), altitude@),
        altitude@ == "0"@ && old(state).flags.task_ongoing ==> {
            &&& final(state).flags.task_ongoing
            &&& !final(state).flags.back_home
            &&& !final(state).flags.landing
            &&& final(state).flags.resume_operation == old(state).flags.resume_operation
            &&& final(state).flags.latest_latitude == old(state).flags.latest_latitude
            &&& final(state).sprayers.water.tank_level == 100
            &&& final(state).sprayers.fertiliser.tank_level == 100
            &&& final(state).sprayers.pesticide.tank_level == 100
            &&& final(state).sprayers.water.operating == old(state).sprayers.water.operating
            &&& final(state).sprayers.fertiliser.operating == old(state).sprayers.fertiliser.operating
            &&& final(state).sprayers.pesticide.operating == old(state).sprayers.pesticide.operating
            &&& final(state).battery_level == 100
            &&& !final(state).ultrasonic.reached_max_altitude
            &&& final(state).ultrasonic.altitude == old(state).ultrasonic.altitude
            &&& final(state).gear_up == old(state).gear_up
            &&& final(state).position == old(state).position
            &&& final(state).thermal == old(state).thermal
            &&& final(state).moisture == old(state).moisture
            &&& final(state).systems == old(state).systems
        },
        altitude@ == "0"@ && !old(state).flags.task_ongoing ==> {
            &&& !final(state).systems.sensor_operating
            &&& !final(state).systems.actuator_operating
            &&& !final(state).systems.main_control_operating
            &&& final(state).flags == old(state).flags
            &&& final(state).sprayers == old(state).sprayers
            &&& final(state).battery_level == old(state).battery_level
            &&& final(state).ultrasonic == old(state).ultrasonic
            &&& final(state).gear_up == old(state).gear_up
            &&& final(state).position == old(state).position
            &&& final(state).thermal == old(state).thermal
            &&& final(state).moisture == old(state).moisture
        },
        altitude@ != "0"@ ==> *final(state) == *old(state),
{
    let landed = text_eq(altitude, "0");
    if landed && state.flags.task_ongoing {
        state.sprayers.water.tank_level = 100;
        state.sprayers.fertiliser.tank_level = 100;
        state.sprayers.pesticide.tank_level = 100;
        state.battery_level = 100;
        state.flags.back_home = false;
        state.flags.landing = false;
        state.ultrasonic.reached_max_altitude = false;
    } else if landed && !state.flags.task_ongoing {
        state.systems.sensor_operating = false;
        state.systems.actuator_operating = false;
        state.systems.main_control_operating = false;
    }
}

} // verus!

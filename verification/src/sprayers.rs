//! The water, fertiliser and pesticide dispensers.

use vstd::prelude::*;
use crate::text::{int_text, int_to_text, text_eq};

verus! {

/// One dispenser: whether it is spraying, and how full its tank is (percent).
#[derive(Debug, Clone, Copy, PartialEq, Eq, Structural)]
pub struct Dispenser {
    pub operating: bool,
    pub tank_level: i32,
}

/// The drone's three dispensers.
#[derive(Debug, Clone, Copy, PartialEq, Eq, Structural)]
pub struct Sprayers {
    pub water: Dispenser,
    pub fertiliser: Dispenser,
    pub pesticide: Dispenser,
}

/// The instruction that keeps a dispenser as it is.
pub open spec fn maintain_text() -> Seq<char> {
    "Maintain"@
}

/// Instructions of the water dispenser.
pub open spec fn water_on_text() -> Seq<char> {
    "On water dispenser"@
}

pub open spec fn water_off_text() -> Seq<char> {
    "Off water dispenser"@
}

/// Instructions of the fertiliser dispenser.
pub open spec fn fertiliser_on_text() -> Seq<char> {
    "On fertiliser dispensing"@
}

pub open spec fn fertiliser_off_text() -> Seq<char> {
    "Off fertiliser dispensing"@
}

/// Instructions of the pesticide dispenser.
pub open spec fn pesticide_on_text() -> Seq<char> {
    "On pesticide dispensing"@
}

pub open spec fn pesticide_off_text() -> Seq<char> {
    "Off pesticide dispensing"@
}

/// Does `instruc` make the dispenser `d` spray, and so use 10% of its tank?
/// Turning it on does, and so does keeping a running dispenser running.
pub open spec fn consumes(d: Dispenser, instruc: Seq<char>, on: Seq<char>, off: Seq<char>) -> bool {
    instruc != off && (instruc == on || (instruc == maintain_text() && d.operating))
}

/// The dispenser `d` after the instruction `instruc`, where `on` and `off` are
/// its instructions to start and to stop: stopping keeps the tank; starting,
/// or keeping it running, sprays 10% of the tank; anything else changes
/// nothing.
pub open spec fn dispensed(d: Dispenser, instruc: Seq<char>, on: Seq<char>, off: Seq<char>) -> Dispenser {
    if instruc == off {
        Dispenser { operating: false, tank_level: d.tank_level }
    } else if consumes(d, instruc, on, off) {
        Dispenser { operating: true, tank_level: (d.tank_level - 10) as i32 }
    } else {
        d
    }
}

impl Dispenser {
    /// A dispenser that is off, with a full tank.
    pub fn new() -> (d: Dispenser)
        ensures
            !d.operating,
            d.tank_level == 100,
    {
        Dispenser { operating: false, tank_level: 100 }
    }
}

impl Sprayers {
    /// Three dispensers, off, with full tanks.
    pub fn new() -> (s: Sprayers)
        ensures
            s.water == (Dispenser { operating: false, tank_level: 100 }),
            s.fertiliser == (Dispenser { operating: false, tank_level: 100 }),
            s.pesticide == (Dispenser { operating: false, tank_level: 100 }),
    {
        Sprayers { water: Dispenser::new(), fertiliser: Dispenser::new(), pesticide: Dispenser::new() }
    }
}

/// Carries out `instruc` on `d`, and gives the text of the tank level after
/// it, which the dispenser reports back to the main control.
fn dispense(d: &mut Dispenser, instruc: &str, on: &str, off: &str) -> (report: String)
    requires
        on@ != off@,
        consumes(*old(d), instruc@, on@, off@) ==> old(d).tank_level >= i32::MIN + 10,
    ensures
        *final(d) == dispensed(*old(d), instruc@, on@, off@),
        report@ == int_text(final(d).tank_level as int),
{
    let mut remaining_lvl = d.tank_level;
    if text_eq(instruc, off) {
        d.operating = false;
    } else if text_eq(instruc, on) {
        d.operating = true;
        remaining_lvl = d.tank_level - 10;
    } else if text_eq(instruc, "Maintain") && d.operating {
        remaining_lvl = d.tank_level - 10;
    }
    d.tank_level = remaining_lvl;
    int_to_text(remaining_lvl)
}

/// The water dispenser carries out `instruc` from the main control and gives
/// the text of its remaining tank level, to be sent back.
pub fn water_dispenser(d: &mut Dispenser, instruc: &str) -> (report: String)
    requires
        consumes(*old(d), instruc@, water_on_text(), water_off_text())
            ==> old(d).tank_level >= i32::MIN + 10,
    ensures
        *final(d) == dispensed(*old(d), instruc@, water_on_text(), water_off_text()),
        report@ == int_text(final(d).tank_level as int),
        instruc@ == "Off water dispenser"@ ==> !final(d).operating && final(d).tank_level == old(d).tank_level,
        instruc@ == "On water dispenser"@ ==> final(d).operating && final(d).tank_level == old(d).tank_level - 10,
        instruc@ == "Maintain"@ ==> final(d).operating == old(d).operating
            && final(d).tank_level == (if old(d).operating { old(d).tank_level - 10 } else { old(d).tank_level as int }),
        instruc@ != "Off water dispenser"@ && instruc@ != "On water dispenser"@ && instruc@ != "Maintain"@ ==> *final(d) == *old(d),
{
    proof {
        reveal_strlit("On water dispenser");
        reveal_strlit("Off water dispenser");
        reveal_strlit("Maintain");
        assert("On water dispenser"@.len() != "Off water dispenser"@.len());
        assert("Maintain"@.len() != "Off water dispenser"@.len());
        assert("Maintain"@.len() != "On water dispenser"@.len());
    }
    dispense(d, instruc, "On water dispenser", "Off water dispenser")
}

/// The fertiliser dispenser carries out `instruc` from the main control and
/// gives the text of its remaining tank level, to be sent back.
pub fn fertiliser_dispenser(d: &mut Dispenser, instruc: &str) -> (report: String)
    requires
        consumes(*old(d), instruc@, fertiliser_on_text(), fertiliser_off_text())
            ==> old(d).tank_level >= i32::MIN + 10,
    ensures
        *final(d) == dispensed(*old(d), instruc@, fertiliser_on_text(), fertiliser_off_text()),
        report@ == int_text(final(d).tank_level as int),
        instruc@ == "Off fertiliser dispensing"@ ==> !final(d).operating && final(d).tank_level == old(d).tank_level,
        instruc@ == "On fertiliser dispensing"@ ==> final(d).operating && final(d).tank_level == old(d).tank_level - 10,
        instruc@ == "Maintain"@ ==> final(d).operating == old(d).operating
            && final(d).tank_level == (if old(d).operating { old(d).tank_level - 10 } else { old(d).tank_level as int }),
        instruc@ != "Off fertiliser dispensing"@ && instruc@ != "On fertiliser dispensing"@ && instruc@ != "Maintain"@ ==> *final(d) == *old(d),
{
    proof {
        reveal_strlit("On fertiliser dispensing");
        reveal_strlit("Off fertiliser dispensing");
        reveal_strlit("Maintain");
        assert("On fertiliser dispensing"@.len() != "Off fertiliser dispensing"@.len());
        assert("Maintain"@.len() != "Off fertiliser dispensing"@.len());
        assert("Maintain"@.len() != "On fertiliser dispensing"@.len());
    }
    dispense(d, instruc, "On fertiliser dispensing", "Off fertiliser dispensing")
}

/// The pesticide dispenser carries out `instruc` from the main control and
/// gives the text of its remaining tank level, to be sent back.
pub fn pesticide_dispenser(d: &mut Dispenser, instruc: &str) -> (report: String)
    requires
        consumes(*old(d), instruc@, pesticide_on_text(), pesticide_off_text())
            ==> old(d).tank_level >= i32::MIN + 10,
    ensures
        *final(d) == dispensed(*old(d), instruc@, pesticide_on_text(), pesticide_off_text()),
        report@ == int_text(final(d).tank_level as int),
        instruc@ == "Off pesticide dispensing"@ ==> !final(d).operating && final(d).tank_level == old(d).tank_level,
        instruc@ == "On pesticide dispensing"@ ==> final(d).operating && final(d).tank_level == old(d).tank_level - 10,
        instruc@ == "Maintain"@ ==> final(d).operating == old(d).operating
            && final(d).tank_level == (if old(d).operating { old(d).tank_level - 10 } else { old(d).tank_level as int }),
        instruc@ != "Off pesticide dispensing"@ && instruc@ != "On pesticide dispensing"@ && instruc@ != "Maintain"@ ==> *final(d) == *old(d),
{
    proof {
        reveal_strlit("On pesticide dispensing");
        reveal_strlit("Off pesticide dispensing");
        reveal_strlit("Maintain");
        assert("On pesticide dispensing"@.len() != "Off pesticide dispensing"@.len());
        assert("Maintain"@.len() != "Off pesticide dispensing"@.len());
        assert("Maintain"@.len() != "On pesticide dispensing"@.len());
    }
    dispense(d, instruc, "On pesticide dispensing", "Off pesticide dispensing")
}

/// Stops all three dispensers; their tanks stay as they are.
pub fn operation_suspend(s: &mut Sprayers)
    ensures
        final(s).water == (Dispenser { operating: false, tank_level: old(s).water.tank_level }),
        final(s).fertiliser == (Dispenser { operating: false, tank_level: old(s).fertiliser.tank_level }),
        final(s).pesticide == (Dispenser { operating: false, tank_level: old(s).pesticide.tank_level }),
{
    s.water.operating = false;
    s.fertiliser.operating = false;
    s.pesticide.operating = false;
}

} // verus!

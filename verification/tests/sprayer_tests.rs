use agriculture_drone::sprayers::{
    fertiliser_dispenser, operation_suspend, pesticide_dispenser, water_dispenser, Dispenser, Sprayers,
};

#[test]
fn new_dispensers_are_off_and_full() {
    let s = Sprayers::new();
    for d in [s.water, s.fertiliser, s.pesticide] {
        assert_eq!(d, Dispenser { operating: false, tank_level: 100 });
    }
}

#[test]
fn water_dispenser_follows_instructions() {
    let mut d = Dispenser::new();
    assert_eq!(water_dispenser(&mut d, "On water dispenser"), "90");
    assert_eq!(d, Dispenser { operating: true, tank_level: 90 });
    assert_eq!(water_dispenser(&mut d, "Maintain"), "80");
    assert_eq!(d, Dispenser { operating: true, tank_level: 80 });
    assert_eq!(water_dispenser(&mut d, "Off water dispenser"), "80");
    assert_eq!(d, Dispenser { operating: false, tank_level: 80 });
    assert_eq!(water_dispenser(&mut d, "Maintain"), "80");
    assert_eq!(d, Dispenser { operating: false, tank_level: 80 });
}

#[test]
fn dispenser_ignores_unknown_instructions() {
    let mut d = Dispenser { operating: true, tank_level: 50 };
    assert_eq!(water_dispenser(&mut d, "On pesticide dispensing"), "50");
    assert_eq!(d, Dispenser { operating: true, tank_level: 50 });
    assert_eq!(fertiliser_dispenser(&mut d, "On water dispenser"), "50");
    assert_eq!(d, Dispenser { operating: true, tank_level: 50 });
}

#[test]
fn fertiliser_and_pesticide_dispensers() {
    let mut f = Dispenser::new();
    assert_eq!(fertiliser_dispenser(&mut f, "On fertiliser dispensing"), "90");
    assert!(f.operating);
    assert_eq!(fertiliser_dispenser(&mut f, "Off fertiliser dispensing"), "90");
    assert!(!f.operating);
    let mut p = Dispenser { operating: false, tank_level: 5 };
    assert_eq!(pesticide_dispenser(&mut p, "On pesticide dispensing"), "-5");
    assert_eq!(p, Dispenser { operating: true, tank_level: -5 });
    assert_eq!(pesticide_dispenser(&mut p, "Off pesticide dispensing"), "-5");
    assert!(!p.operating);
}

#[test]
fn operation_suspend_stops_all() {
    let mut s = Sprayers::new();
    s.water.operating = true;
    s.pesticide.operating = true;
    s.fertiliser.tank_level = 30;
    operation_suspend(&mut s);
    assert_eq!(s.water, Dispenser { operating: false, tank_level: 100 });
    assert_eq!(s.fertiliser, Dispenser { operating: false, tank_level: 30 });
    assert_eq!(s.pesticide, Dispenser { operating: false, tank_level: 100 });
}

#[test]
fn law_suspended_stays_dry() {
    let mut s = Sprayers::new();
    s.water.operating = true;
    operation_suspend(&mut s);
    let before = s;
    water_dispenser(&mut s.water, "Maintain");
    fertiliser_dispenser(&mut s.fertiliser, "Maintain");
    pesticide_dispenser(&mut s.pesticide, "Maintain");
    assert_eq!(s, before);
}

#[test]
fn law_dispenser_never_refills() {
    for instruc in ["On water dispenser", "Off water dispenser", "Maintain", "", "Refill"] {
        for operating in [false, true] {
            let mut d = Dispenser { operating, tank_level: 40 };
            water_dispenser(&mut d, instruc);
            assert!(d.tank_level == 40 || d.tank_level == 30);
            if d.tank_level == 30 {
                assert!(d.operating);
            }
        }
    }
}

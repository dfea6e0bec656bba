use weight_units::v1;
use weight_units::v2;
use weight_units::v3;
use weight_units::v4;

#[test]
fn v1_display() {
    let sherlock = v1::Person::new("Sherlock", 90);
    assert_eq!("Name: Sherlock, Weight: 90", sherlock.render())
}

#[test]
fn v2_display() {
    let mut sherlock = v2::Person::new("Sherlock", v2::Weight::Kilogram(90));
    assert_eq!("Name: Sherlock, Weight: 90 kg", sherlock.render());
    sherlock.represent_in_pounds();
    assert_eq!("Name: Sherlock, Weight: 198 pound", sherlock.render());
    sherlock.represent_in_kilograms();
    assert_eq!("Name: Sherlock, Weight: 90 kg", sherlock.render());
}

#[test]
fn v3_display() {
    let sherlock: v3::Person<v3::Kilogram> = v3::Person::new("Sherlock", 90);
    assert_eq!("Name: Sherlock, Weight: 90 kg", sherlock.render());
    let sherlock = sherlock.represent_in_pounds();
    assert_eq!("Name: Sherlock, Weight: 198 pound", sherlock.render());
    let sherlock = sherlock.represent_in_kilograms();
    assert_eq!("Name: Sherlock, Weight: 90 kg", sherlock.render());
}

#[test]
fn v4_display() {
    let sherlock: v4::Person<v4::Kilogram> = v4::Person::new("Sherlock", 90);
    assert_eq!("Name: Sherlock, Weight: 90 kg", sherlock.render());
    let sherlock: v4::Person<v4::Pound> = sherlock.into();
    assert_eq!("Name: Sherlock, Weight: 198 pound", sherlock.render());
    let sherlock: v4::Person<v4::Kilogram> = sherlock.into();
    assert_eq!("Name: Sherlock, Weight: 90 kg", sherlock.render());
}

#[test]
fn v1_keeps_the_bare_magnitude() {
    assert_eq!("Name: , Weight: 0", v1::Person::new("", 0).render());
    assert_eq!("Name: Mycroft Holmes, Weight: 65535", v1::Person::new("Mycroft Holmes", 65535).render());
    assert_eq!("Name: Zo\u{eb}, Weight: 7", v1::Person::new("Zo\u{eb}", 7).render());
}

#[test]
fn v1_clone_renders_alike() {
    let watson = v1::Person::new("Watson", 81);
    assert_eq!(watson.render(), watson.clone().render());
}

#[test]
fn v2_weight_renders_magnitude_and_unit() {
    assert_eq!("90 kg", v2::Weight::Kilogram(90).render());
    assert_eq!("198 pound", v2::Weight::Pound(198).render());
    assert_eq!("0 kg", v2::Weight::Kilogram(0).render());
    assert_eq!("65535 pound", v2::Weight::Pound(65535).render());
}

#[test]
fn v2_round_trip_at_ninety() {
    let pounds = v2::Weight::Kilogram(90).to_pounds();
    assert!(matches!(pounds, v2::Weight::Pound(198)));
    assert!(matches!(pounds.to_kilograms(), v2::Weight::Kilogram(90)));
}

#[test]
fn v2_conversion_to_the_same_unit_changes_nothing() {
    for magnitude in [0u16, 1, 90, 198, 25000, 62500, 65535] {
        match v2::Weight::Kilogram(magnitude).to_kilograms() {
            v2::Weight::Kilogram(kept) => assert_eq!(magnitude, kept),
            v2::Weight::Pound(_) => panic!("kilograms became pounds"),
        }
        match v2::Weight::Pound(magnitude).to_pounds() {
            v2::Weight::Pound(kept) => assert_eq!(magnitude, kept),
            v2::Weight::Kilogram(_) => panic!("pounds became kilograms"),
        }
    }
}

#[test]
fn v2_conversion_done_twice_is_done_once() {
    for magnitude in [0u16, 90, 12345, 40000] {
        let once = v2::Weight::Kilogram(magnitude).to_pounds();
        assert_eq!(once.render(), once.to_pounds().render());
        let once = v2::Weight::Pound(magnitude).to_kilograms();
        assert_eq!(once.render(), once.to_kilograms().render());
    }
}

#[test]
fn v2_person_in_its_own_unit_stays() {
    let mut watson = v2::Person::new("Watson", v2::Weight::Pound(180));
    watson.represent_in_pounds();
    assert_eq!("Name: Watson, Weight: 180 pound", watson.render());
    watson.represent_in_kilograms();
    assert_eq!("Name: Watson, Weight: 82 kg", watson.render());
    watson.represent_in_kilograms();
    assert_eq!("Name: Watson, Weight: 82 kg", watson.render());
}

#[test]
fn v2_clone_renders_alike() {
    let watson = v2::Person::new("Watson", v2::Weight::Pound(180));
    assert_eq!(watson.render(), watson.clone().render());
}

#[test]
fn zero_stays_zero_in_every_module() {
    assert!(matches!(v2::Weight::Kilogram(0).to_pounds(), v2::Weight::Pound(0)));
    assert!(matches!(v2::Weight::Pound(0).to_kilograms(), v2::Weight::Kilogram(0)));
    assert_eq!("0 pound", v3::Weight::<v3::Kilogram>::new(0).to_pounds().render());
    assert_eq!("0 kg", v3::Weight::<v3::Pound>::new(0).to_kilograms().render());
    let nobody: v3::Person<v3::Kilogram> = v3::Person::new("Nobody", 0);
    assert_eq!("Name: Nobody, Weight: 0 pound", nobody.represent_in_pounds().render());
    let pounds: v4::Weight<v4::Pound> = v4::Weight::<v4::Kilogram>::new(0).into();
    assert_eq!("0 pound", pounds.render());
    let kilograms: v4::Weight<v4::Kilogram> = v4::Weight::<v4::Pound>::new(0).into();
    assert_eq!("0 kg", kilograms.render());
    let nobody: v4::Person<v4::Pound> = v4::Person::new("Nobody", 0);
    let nobody: v4::Person<v4::Kilogram> = nobody.into();
    assert_eq!("Name: Nobody, Weight: 0 kg", nobody.render());
}

#[test]
fn v3_weight_converts_and_renders() {
    let kilograms = v3::Weight::<v3::Kilogram>::new(90);
    assert_eq!("90 kg", kilograms.render());
    let pounds = kilograms.to_pounds();
    assert_eq!("198 pound", pounds.render());
    assert_eq!("90 kg", pounds.to_kilograms().render());
}

#[test]
fn v3_person_starts_in_pounds() {
    let watson: v3::Person<v3::Pound> = v3::Person::new("Watson", 180);
    assert_eq!("Name: Watson, Weight: 180 pound", watson.render());
    assert_eq!("Name: Watson, Weight: 82 kg", watson.represent_in_kilograms().render());
}

#[test]
fn v4_weight_converts_and_renders() {
    let kilograms = v4::Weight::<v4::Kilogram>::new(90);
    assert_eq!("90 kg", kilograms.render());
    let pounds = v4::Weight::<v4::Pound>::from(kilograms);
    assert_eq!("198 pound", pounds.render());
    let kilograms: v4::Weight<v4::Kilogram> = pounds.into();
    assert_eq!("90 kg", kilograms.render());
}

#[test]
fn v4_person_starts_in_pounds() {
    let watson: v4::Person<v4::Pound> = v4::Person::new("Watson", 180);
    assert_eq!("Name: Watson, Weight: 180 pound", watson.render());
    let watson = v4::Person::<v4::Kilogram>::from(watson);
    assert_eq!("Name: Watson, Weight: 82 kg", watson.render());
}

#[test]
fn modules_agree_on_every_conversion() {
    for magnitude in [0u16, 1, 2, 45, 90, 198, 24999, 25000, 25001, 29726, 29727, 62500, 65535] {
        let tagged = v2::Weight::Kilogram(magnitude).to_pounds().render();
        assert_eq!(tagged, v3::Weight::<v3::Kilogram>::new(magnitude).to_pounds().render());
        assert_eq!(tagged, v4::Weight::<v4::Pound>::from(v4::Weight::<v4::Kilogram>::new(magnitude)).render());
        let tagged = v2::Weight::Pound(magnitude).to_kilograms().render();
        assert_eq!(tagged, v3::Weight::<v3::Pound>::new(magnitude).to_kilograms().render());
        assert_eq!(tagged, v4::Weight::<v4::Kilogram>::from(v4::Weight::<v4::Pound>::new(magnitude)).render());
    }
}

#[test]
fn v3_conversion_gives_the_other_unit() {
    let kilograms: v3::Weight<v3::Kilogram> = v3::Weight::new(70);
    let pounds: v3::Weight<v3::Pound> = kilograms.to_pounds();
    let kilograms: v3::Weight<v3::Kilogram> = pounds.to_kilograms();
    assert_eq!("70 kg", kilograms.render());
    let watson: v3::Person<v3::Kilogram> = v3::Person::new("Watson", 70);
    let watson: v3::Person<v3::Pound> = watson.represent_in_pounds();
    let watson: v3::Person<v3::Kilogram> = watson.represent_in_kilograms();
    assert_eq!("Name: Watson, Weight: 70 kg", watson.render());
}

#[test]
fn v4_conversion_gives_the_other_unit() {
    let kilograms: v4::Weight<v4::Kilogram> = v4::Weight::new(70);
    let pounds: v4::Weight<v4::Pound> = kilograms.into();
    assert_eq!("154 pound", pounds.render());
    let kilograms: v4::Weight<v4::Kilogram> = pounds.into();
    assert_eq!("70 kg", kilograms.render());
}

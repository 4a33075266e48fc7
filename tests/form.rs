use aquila_perf::form::{FuelKind, Seat, VolumeUnit};

#[test]
fn seat_codes() {
    assert_eq!(Seat::from_code("f"), Seat::Front);
    assert_eq!(Seat::from_code("b"), Seat::Back);
    assert_eq!(Seat::from_code("m"), Seat::Middle);
    assert_eq!(Seat::from_code(""), Seat::Middle);
    assert_eq!(Seat::from_code("front"), Seat::Middle);
    for seat in [Seat::Front, Seat::Middle, Seat::Back] {
        assert_eq!(Seat::from_code(seat.code()), seat);
    }
    assert_eq!(Seat::Back.code(), "b");
}

#[test]
fn fuel_names() {
    assert_eq!(FuelKind::from_name("mogas"), Some(FuelKind::Mogas));
    assert_eq!(FuelKind::from_name("avgas"), Some(FuelKind::Avgas));
    assert_eq!(FuelKind::from_name("Avgas"), None);
    assert_eq!(FuelKind::from_name(""), None);
    assert_eq!(FuelKind::Avgas.name(), "avgas");
}

#[test]
fn volume_unit_names() {
    assert_eq!(VolumeUnit::from_name("liter"), Some(VolumeUnit::Liter));
    assert_eq!(VolumeUnit::from_name("gallon"), Some(VolumeUnit::Gallon));
    assert_eq!(VolumeUnit::from_name("litre"), None);
    assert_eq!(VolumeUnit::Gallon.name(), "gallon");
}

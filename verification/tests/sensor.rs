use compass_lsm303agr::sensor::{end_line, MagDataRate, Reading};

#[test]
fn data_rates_in_hertz() {
    assert_eq!(MagDataRate::Hz10.hertz(), 10);
    assert_eq!(MagDataRate::Hz20.hertz(), 20);
    assert_eq!(MagDataRate::Hz50.hertz(), 50);
    assert_eq!(MagDataRate::Hz100.hertz(), 100);
}

#[test]
fn end_line_adds_one_line_feed() {
    assert_eq!(end_line(String::from("abc")), "abc\n");
    assert_eq!(end_line(String::new()), "\n");
    assert_eq!(end_line(String::from("abc\n")), "abc\n\n");
}

#[test]
fn trace_line_prints_the_three_axes() {
    let reading = Reading { x: 150, y: -300, z: 45000 };
    assert_eq!(reading.trace_line(), "Measurement { x: 150, y: -300, z: 45000 }\n");
}

#[test]
fn trace_line_of_a_zero_field() {
    let reading = Reading { x: 0, y: 0, z: 0 };
    assert_eq!(reading.trace_line(), "Measurement { x: 0, y: 0, z: 0 }\n");
}

#[test]
fn trace_line_at_the_ends_of_the_range() {
    let reading = Reading { x: i32::MIN, y: i32::MAX, z: -1 };
    assert_eq!(
        reading.trace_line(),
        "Measurement { x: -2147483648, y: 2147483647, z: -1 }\n"
    );
}

#[test]
fn trace_line_is_the_drivers_debug_text_and_a_line_feed() {
    let readings = [
        Reading { x: 1, y: 2, z: 3 },
        Reading { x: -4915200, y: 4915050, z: 0 },
        Reading { x: 7, y: -7, z: 70 },
    ];
    for reading in readings.iter() {
        let measurement = lsm303agr::Measurement { x: reading.x, y: reading.y, z: reading.z };
        assert_eq!(reading.trace_line(), format!("{:?}\n", measurement));
    }
}

#[test]
fn trace_line_tells_readings_apart() {
    let a = Reading { x: 1, y: 2, z: 3 };
    let b = Reading { x: 3, y: 2, z: 1 };
    assert_ne!(a.trace_line(), b.trace_line());
}

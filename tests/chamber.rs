use wave_chamber::{command_for, Chamber, ChamberError, Command, KeyPress, Neighbourhood, MIN_CELLS};

fn wave(c2: f64) -> impl Fn(Neighbourhood<f64>) -> f64 {
    move |nb: Neighbourhood<f64>| {
        2.0 * nb.centre - nb.prev + c2 * (nb.right - 2.0 * nb.centre + nb.left)
    }
}

fn plus(a: f64, b: f64) -> f64 {
    a + b
}

fn chamber(cells: usize) -> Chamber<f64> {
    Chamber::new(cells, 0.0).unwrap()
}

#[test]
fn new_chamber_is_at_rest() {
    let c = chamber(128);
    assert_eq!(c.len(), 128);
    assert_eq!(c.rest(), 0.0);
    assert!(c.pressures().iter().all(|&p| p == 0.0));
    assert!(c.previous_pressures().iter().all(|&p| p == 0.0));
}

#[test]
fn new_chamber_rests_at_given_value() {
    let c = Chamber::new(4, 7i64).unwrap();
    assert_eq!(c.pressures(), &[7, 7, 7, 7]);
    assert_eq!(c.previous_pressures(), &[7, 7, 7, 7]);
}

#[test]
fn too_few_cells_are_rejected() {
    for cells in 0..MIN_CELLS {
        assert_eq!(Chamber::new(cells, 0.0).err(), Some(ChamberError::TooFewCells));
    }
}

#[test]
fn three_cells_are_enough() {
    let mut c = chamber(3);
    c.add_pressure(1.0, plus);
    c.update_pressures(wave(0.5));
    assert_eq!(c.pressures(), &[0.0, 0.5, 0.0]);
}

#[test]
fn injection_touches_only_the_source_cell() {
    let mut c = chamber(5);
    c.add_pressure(0.1, plus);
    c.add_pressure(0.1, plus);
    assert_eq!(c.pressures(), &[0.1 + 0.1, 0.0, 0.0, 0.0, 0.0]);
    assert_eq!(c.previous_pressures(), &[0.0; 5]);
}

#[test]
fn negative_injection_is_accepted() {
    let mut c = chamber(5);
    c.add_pressure(-2.5, plus);
    assert_eq!(c.pressures()[0], -2.5);
}

#[test]
fn single_impulse_reaches_only_its_neighbour() {
    let mut c = chamber(5);
    c.add_pressure(1.0, plus);
    c.update_pressures(wave(0.5));
    assert_eq!(c.pressures(), &[0.0, 0.5, 0.0, 0.0, 0.0]);
    assert_eq!(c.previous_pressures(), &[1.0, 0.0, 0.0, 0.0, 0.0]);
}

#[test]
fn second_step_follows_the_stencil() {
    let mut c = chamber(5);
    c.add_pressure(1.0, plus);
    c.update_pressures(wave(0.5));
    c.update_pressures(wave(0.5));
    // cell 1: 2*0.5 - 0 + 0.5*(0 - 1 + 0) = 0.5
    // cell 2: 2*0 - 0 + 0.5*(0 - 0 + 0.5) = 0.25
    assert_eq!(c.pressures(), &[0.0, 0.5, 0.25, 0.0, 0.0]);
}

#[test]
fn boundaries_stay_at_rest_after_every_step() {
    let mut c = chamber(16);
    for step in 0..200 {
        if step % 7 == 0 {
            c.add_pressure(0.3, plus);
        }
        c.update_pressures(wave(0.5));
        let p = c.pressures();
        assert_eq!(p[0], 0.0);
        assert_eq!(p[15], 0.0);
    }
}

#[test]
fn step_rotates_the_buffers() {
    let mut c = chamber(8);
    c.add_pressure(1.0, plus);
    for _ in 0..10 {
        let before = c.pressures().to_vec();
        c.update_pressures(wave(0.5));
        assert_eq!(c.previous_pressures(), before.as_slice());
    }
}

#[test]
fn unit_impulse_stays_bounded_at_the_stability_limit() {
    let mut c = chamber(128);
    c.add_pressure(1.0, plus);
    let mut max = 0.0f64;
    for _ in 0..1000 {
        c.update_pressures(wave(1.0));
        for &p in c.pressures() {
            max = max.max(p.abs());
        }
    }
    assert!(max < 10.0);
}

#[test]
fn identical_chambers_stay_bit_identical() {
    let mut a = chamber(32);
    let mut b = chamber(32);
    for step in 0..300 {
        if step % 5 == 0 {
            a.add_pressure(0.1, plus);
            b.add_pressure(0.1, plus);
        }
        a.update_pressures(wave(0.5));
        b.update_pressures(wave(0.5));
        let same = |x: &[f64], y: &[f64]| x.iter().zip(y).all(|(p, q)| p.to_bits() == q.to_bits());
        assert!(same(a.pressures(), b.pressures()));
        assert!(same(a.previous_pressures(), b.previous_pressures()));
    }
}

#[test]
fn reset_returns_to_rest_whatever_came_before() {
    let mut c = chamber(10);
    for _ in 0..5 {
        c.add_pressure(1.0, plus);
        c.update_pressures(wave(0.5));
    }
    c.reset();
    assert_eq!(c.len(), 10);
    assert_eq!(c.pressures(), &[0.0; 10]);
    assert_eq!(c.previous_pressures(), &[0.0; 10]);
    c.reset();
    assert_eq!(c.pressures(), &[0.0; 10]);
    assert_eq!(c.previous_pressures(), &[0.0; 10]);
}

#[test]
fn reset_keeps_the_resting_value() {
    let mut c = Chamber::new(3, 2i64).unwrap();
    c.add_pressure(5, |a: i64, b: i64| a + b);
    c.update_pressures(|nb: Neighbourhood<i64>| nb.left + nb.right - nb.prev);
    c.reset();
    assert_eq!(c.pressures(), &[2, 2, 2]);
    assert_eq!(c.previous_pressures(), &[2, 2, 2]);
}

#[test]
fn keys_map_to_commands() {
    assert_eq!(command_for(KeyPress::R, false), Command::ResetChamber);
    assert_eq!(command_for(KeyPress::A, true), Command::InjectPressure);
    assert_eq!(command_for(KeyPress::Up, false), Command::RaiseFrequency);
    assert_eq!(command_for(KeyPress::Down, true), Command::LowerFrequency);
    assert_eq!(command_for(KeyPress::Other, true), Command::Ignore);
}

#[test]
fn space_toggles_playback() {
    assert_eq!(command_for(KeyPress::Space, true), Command::PauseAudio);
    assert_eq!(command_for(KeyPress::Space, false), Command::PlayAudio);
}

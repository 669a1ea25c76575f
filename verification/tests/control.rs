use fm_voice::channel::ParameterUpdate;
use fm_voice::control::{ControlSurface, Turn, DIAL_TOP, ENCODERS};

#[test]
fn new_surface_has_every_dial_at_zero() {
    let surface = ControlSurface::new();
    for n in 0..ENCODERS {
        assert_eq!(surface.level(n), 0);
    }
}

#[test]
fn startup_sound() {
    assert_eq!(
        ControlSurface::startup_updates(),
        [
            ParameterUpdate::CarrierFrequency(110 * 65_536),
            ParameterUpdate::ModulatorFrequency(55 * 65_536),
            ParameterUpdate::Attack(100_000),
            ParameterUpdate::Release(900_000),
        ]
    );
}

#[test]
fn first_dial_sets_the_carrier_at_ten_hertz_a_position() {
    let mut surface = ControlSurface::new();
    let turn = surface.encoder_delta(0, 25).unwrap();
    assert_eq!(
        turn,
        Turn { ring: 0, unlit: 0, lit: 2, update: ParameterUpdate::CarrierFrequency(25 * 65_536) }
    );
    assert_eq!(surface.level(0), 25);
    let turn = surface.encoder_delta(0, 85).unwrap();
    assert_eq!(
        turn,
        Turn {
            ring: 0,
            unlit: 2,
            lit: 11,
            update: ParameterUpdate::CarrierFrequency(110 * 65_536),
        }
    );
}

#[test]
fn second_dial_sets_the_modulator() {
    let mut surface = ControlSurface::new();
    let turn = surface.encoder_delta(1, 55).unwrap();
    assert_eq!(
        turn,
        Turn { ring: 1, unlit: 0, lit: 5, update: ParameterUpdate::ModulatorFrequency(55 * 65_536) }
    );
    assert_eq!(surface.level(0), 0);
    assert_eq!(surface.level(1), 55);
}

#[test]
fn third_dial_sets_the_attack_at_a_sixty_fourth_of_a_second_a_position() {
    let mut surface = ControlSurface::new();
    let turn = surface.encoder_delta(2, 10).unwrap();
    assert_eq!(turn, Turn { ring: 2, unlit: 0, lit: 1, update: ParameterUpdate::Attack(15_625) });
    let turn = surface.encoder_delta(2, 1).unwrap();
    assert_eq!(turn, Turn { ring: 2, unlit: 1, lit: 1, update: ParameterUpdate::Attack(17_187) });
    let turn = surface.encoder_delta(2, 53).unwrap();
    assert_eq!(turn, Turn { ring: 2, unlit: 1, lit: 6, update: ParameterUpdate::Attack(100_000) });
}

#[test]
fn fourth_dial_sets_the_release() {
    let mut surface = ControlSurface::new();
    let turn = surface.encoder_delta(3, 576).unwrap();
    let update = ParameterUpdate::Release(900_000);
    assert_eq!(turn, Turn { ring: 3, unlit: 0, lit: 57, update });
}

#[test]
fn dial_stops_at_the_top() {
    let mut surface = ControlSurface::new();
    let turn = surface.encoder_delta(0, 1000).unwrap();
    assert_eq!(
        turn,
        Turn { ring: 0, unlit: 0, lit: 64, update: ParameterUpdate::CarrierFrequency(640 * 65_536) }
    );
    assert_eq!(surface.level(0), DIAL_TOP);
    let turn = surface.encoder_delta(0, i32::MAX).unwrap();
    assert_eq!(turn.unlit, 64);
    assert_eq!(turn.lit, 64);
    let turn = surface.encoder_delta(3, i32::MAX).unwrap();
    assert_eq!(turn.update, ParameterUpdate::Release(1_000_000));
}

#[test]
fn dial_stops_at_zero() {
    let mut surface = ControlSurface::new();
    surface.encoder_delta(1, 30);
    let turn = surface.encoder_delta(1, -31).unwrap();
    assert_eq!(
        turn,
        Turn { ring: 1, unlit: 3, lit: 0, update: ParameterUpdate::ModulatorFrequency(0) }
    );
    let turn = surface.encoder_delta(1, i32::MIN).unwrap();
    assert_eq!(turn.lit, 0);
    assert_eq!(surface.level(1), 0);
    let turn = surface.encoder_delta(2, -1).unwrap();
    assert_eq!(turn.update, ParameterUpdate::Attack(0));
}

#[test]
fn dial_moves_both_ways() {
    let mut surface = ControlSurface::new();
    surface.encoder_delta(0, 100);
    surface.encoder_delta(0, -40);
    assert_eq!(surface.level(0), 60);
    let turn = surface.encoder_delta(0, 0).unwrap();
    assert_eq!(
        turn,
        Turn { ring: 0, unlit: 6, lit: 6, update: ParameterUpdate::CarrierFrequency(60 * 65_536) }
    );
}

#[test]
fn other_encoders_are_ignored() {
    let mut surface = ControlSurface::new();
    surface.encoder_delta(0, 7);
    assert_eq!(surface.encoder_delta(4, 100), None);
    assert_eq!(surface.encoder_delta(usize::MAX, -100), None);
    assert_eq!(surface.level(0), 7);
    assert_eq!(surface.level(1), 0);
    assert_eq!(surface.level(2), 0);
    assert_eq!(surface.level(3), 0);
}

use nvext::entity::{Entity, PlayerController, PlayerPawn};
use nvext::settings::{
    Crosshair, CrosshairConfig, CrosshairConfigs, Misc, StyleColors, Triggerbot, TriggerbotConfig,
    TriggerbotConfigs,
};
use nvext::weapon::WeaponType;

#[test]
fn triggerbot_defaults() {
    let c = TriggerbotConfig::default();
    assert_eq!(c.action, 0);
    assert_eq!(c.tap_interval, 160);
    assert_eq!(c.delay, 70);
    assert_eq!(c.min_distance, 150);
    let p = TriggerbotConfig::press();
    assert_eq!(p.action, 1);
    assert_eq!(p.tap_interval, 160);
    let cs = TriggerbotConfigs::default();
    assert_eq!(cs.rifle, p);
    assert_eq!(cs.submachine, p);
    assert_eq!(cs.machinegun, p);
    assert_eq!(cs.pistol, c);
    assert_eq!(cs.sniper, c);
    let t = Triggerbot::default();
    assert!(!t.enabled);
    assert!(t.only_weapon);
    assert_eq!(t.configs, cs);
}

#[test]
fn crosshair_defaults() {
    let c = CrosshairConfig::default();
    assert_eq!(c.color, (255, 255, 255, 255));
    assert_eq!(c.target_color, (255, 0, 0, 255));
    assert_eq!(c.circle_radius, 5);
    assert_eq!(c.lines_space, 7);
    assert_eq!(CrosshairConfigs::default().knife, c);
    let x = Crosshair::default();
    assert!(x.enabled);
    assert_eq!(x.key, 10);
    assert_eq!(x.mode, 1);
}

#[test]
fn misc_and_style_defaults() {
    let m = Misc::default();
    assert!(m.enabled);
    assert!(!m.bomb_timer_enabled);
    assert_eq!(m.bomb_timer_color_enabled, (255, 0, 0, 255));
    let s = StyleColors::default();
    assert_eq!(s.text, (225, 225, 225, 255));
    assert_eq!(s.border, (51, 128, 245, 255));
    assert_eq!(s.separator, (175, 175, 175, 125));
}

#[test]
fn entity_defaults_are_empty() {
    let e = Entity::default();
    assert_eq!(e.controller.address, 0);
    assert_eq!(e.controller.player_name, "");
    assert_eq!(e.pawn.weapon_type, WeaponType::Unclassified);
    assert_eq!(e.pawn.health, 0);
    let c = PlayerController::default();
    assert_eq!(c.pawn, 0);
    let p = PlayerPawn::default();
    assert_eq!(p.weapon_name, "");
    assert_eq!(p.spotted_by_mask, 0);
}

//! Tests of the monster-taming model.

use exercises::{Battle, Monster, Slime, Tamed, TamedSlime};

#[test]
fn kinds_share_max_hp_and_power() {
    assert_eq!(Slime::max_hp(), 70);
    assert_eq!(Slime::power(), 3);
    assert_eq!(TamedSlime::max_hp(), 70);
    assert_eq!(TamedSlime::power(), 3);
}

#[test]
fn defaults_use_the_default_name_and_full_hp() {
    let slime = Slime::default();
    assert_eq!(slime.name, "スライム");
    assert_eq!(slime.hp, 70);

    let tamed = TamedSlime::default();
    assert_eq!(tamed.name, "スライム");
    assert_eq!(tamed.hp, 70);
}

#[test]
fn constructors_take_a_name() {
    let slime = Slime::new("さすらいのはぐれスライム".to_string());
    assert_eq!(slime.name, "さすらいのはぐれスライム");
    assert_eq!(slime.hp, 70);

    let tamed = TamedSlime::new("従属スライムナイト".to_string());
    assert_eq!(tamed.name, "従属スライムナイト");
    assert_eq!(tamed.hp, 70);
}

#[test]
fn battle_deals_and_takes_damage() {
    let mut slime = Slime::default();
    let mut tamed = TamedSlime::default();

    assert_eq!(slime.attack(), 3);
    assert_eq!(tamed.attack(), 3);

    slime.damage(10);
    assert_eq!(slime.hp, 60);
    tamed.damage(10);
    assert_eq!(tamed.hp, 60);

    // HP never falls below zero.
    slime.damage(100);
    assert_eq!(slime.hp, 0);
    tamed.damage(100);
    assert_eq!(tamed.hp, 0);
}

#[test]
fn tamed_monsters_can_be_renamed() {
    let mut tamed = TamedSlime::default();
    tamed.set_name("スーパースライム3世".to_string());
    assert_eq!(tamed.name, "スーパースライム3世");
    assert_eq!(tamed.hp, 70);
}

#[test]
fn taming_needs_half_hp_or_less() {
    // At full HP a slime cannot be tamed.
    assert!(Slime::default().tame().is_err());

    // Down to half its maximum HP or below, it can.
    let mut slime = Slime::default();
    slime.damage(TamedSlime::max_hp() / 2 + 1);
    let tamed = slime.tame();
    assert!(tamed.is_ok());
    let tamed = tamed.unwrap();
    assert_eq!(tamed.hp, 34);
    assert_eq!(tamed.name, "スライム");
}

#[test]
fn releasing_keeps_hp_and_name() {
    let mut tamed = TamedSlime::new("相棒".to_string());
    tamed.damage(7);
    let slime = Slime::from(tamed);
    assert_eq!(slime.hp, 63);
    assert_eq!(slime.name, "相棒");
}

#[test]
fn clones_act_independently() {
    let mut slime = Slime::default();
    slime.damage(10);

    let mut clone = slime.clone();
    assert_eq!(clone.hp, slime.hp);
    assert_eq!(clone.name, slime.name);

    clone.damage(10);
    assert_eq!(clone.hp, 50);
    assert_eq!(slime.hp, 60);
}

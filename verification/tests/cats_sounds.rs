use haru::cats::{cats_for, random_cat, Pose};
use haru::sounds::{random_sound, sounds_for, Sound};

#[test]
fn every_pose_has_cats() {
    assert!(!cats_for(Pose::Neutral).is_empty());
    assert!(!cats_for(Pose::Pat).is_empty());
    assert!(!cats_for(Pose::Feed).is_empty());
}

#[test]
fn every_sound_set_has_entries() {
    assert!(!sounds_for(Sound::Summon).is_empty());
    assert!(!sounds_for(Sound::Pat).is_empty());
    assert!(!sounds_for(Sound::Feed).is_empty());
}

#[test]
fn random_cat_comes_from_its_pose() {
    for pose in [Pose::Neutral, Pose::Pat, Pose::Feed] {
        let set = cats_for(pose);
        for _ in 0..50 {
            assert!(set.contains(&random_cat(pose)));
        }
    }
}

#[test]
fn random_sound_comes_from_its_set() {
    for sound in [Sound::Summon, Sound::Pat, Sound::Feed] {
        let set = sounds_for(sound);
        for _ in 0..50 {
            assert!(set.contains(&random_sound(sound)));
        }
    }
}

#[test]
fn random_cat_is_not_always_the_first() {
    let first = cats_for(Pose::Neutral)[0];
    let mut other = false;
    for _ in 0..200 {
        if random_cat(Pose::Neutral) != first {
            other = true;
        }
    }
    assert!(other);
}

#[test]
fn set_sizes() {
    assert_eq!(cats_for(Pose::Neutral).len(), 7);
    assert_eq!(cats_for(Pose::Pat).len(), 5);
    assert_eq!(cats_for(Pose::Feed).len(), 5);
    assert_eq!(sounds_for(Sound::Summon).len(), 10);
    assert_eq!(sounds_for(Sound::Pat).len(), 10);
    assert_eq!(sounds_for(Sound::Feed).len(), 10);
}

use number_wizard::temperature::Temperature;

#[test]
fn classify_exact_match() {
    assert_eq!(Temperature::from_distance(0), Temperature::OnFire);
}

#[test]
fn classify_burning_range() {
    assert_eq!(Temperature::from_distance(1), Temperature::Burning);
    assert_eq!(Temperature::from_distance(2), Temperature::Burning);
}

#[test]
fn classify_hot_range() {
    assert_eq!(Temperature::from_distance(3), Temperature::Hot);
    assert_eq!(Temperature::from_distance(4), Temperature::Hot);
    assert_eq!(Temperature::from_distance(5), Temperature::Hot);
}

#[test]
fn classify_warm_range() {
    assert_eq!(Temperature::from_distance(6), Temperature::Warm);
    assert_eq!(Temperature::from_distance(10), Temperature::Warm);
}

#[test]
fn classify_cool_range() {
    assert_eq!(Temperature::from_distance(11), Temperature::Cool);
    assert_eq!(Temperature::from_distance(20), Temperature::Cool);
}

#[test]
fn classify_cold_range() {
    assert_eq!(Temperature::from_distance(21), Temperature::Cold);
    assert_eq!(Temperature::from_distance(50), Temperature::Cold);
}

#[test]
fn classify_freezing_beyond_fifty() {
    assert_eq!(Temperature::from_distance(51), Temperature::Freezing);
    assert_eq!(Temperature::from_distance(1000), Temperature::Freezing);
    assert_eq!(Temperature::from_distance(u32::MAX), Temperature::Freezing);
}

#[test]
fn classify_symmetric_under_swap() {
    let pairs: Vec<(u32, u32)> = vec![(10, 50), (50, 10), (0, 0), (99, 3), (3, 99), (7, 7)];
    for (a, b) in pairs {
        let d_ab = if a >= b { a - b } else { b - a };
        let d_ba = if b >= a { b - a } else { a - b };
        assert_eq!(
            Temperature::from_distance(d_ab),
            Temperature::from_distance(d_ba)
        );
    }
}

#[test]
fn level_messages_are_fixed() {
    assert_eq!(
        Temperature::OnFire.message(),
        "🎆 ON FIRE! The numbers explode in awe!"
    );
    assert_eq!(
        Temperature::Burning.message(),
        "🔥 Aaah! So close I can almost smell victory!"
    );
    assert_eq!(
        Temperature::Freezing.message(),
        "🥶 Brrr! Colder than my breakfast porridge after a night in the blizzard!"
    );
    assert_eq!(
        Temperature::Cold.message(),
        "❄️ Icy! You're sniffing the wrong cauldron, heh-heh!"
    );
    assert_eq!(
        Temperature::Cool.message(),
        "😐 Meh... Lukewarm. You'll need more than luck."
    );
    assert_eq!(
        Temperature::Warm.message(),
        "🙂 Oooh, you're cooking now, Adventurer!"
    );
    assert_eq!(
        Temperature::Hot.message(),
        "🥵 Ha! You're almost there, but not quite!"
    );
}

#[test]
fn level_style_tags_are_fixed() {
    assert_eq!(Temperature::Freezing.style_tag(), "cyan");
    assert_eq!(Temperature::Cold.style_tag(), "blue");
    assert_eq!(Temperature::Cool.style_tag(), "white");
    assert_eq!(Temperature::Warm.style_tag(), "bright yellow");
    assert_eq!(Temperature::Hot.style_tag(), "yellow");
    assert_eq!(Temperature::Burning.style_tag(), "red");
    assert_eq!(Temperature::OnFire.style_tag(), "bright red bold");
}

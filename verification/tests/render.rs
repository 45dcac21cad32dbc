use snake::direction::Dir;
use snake::items::Fruit;
use snake::render::{connector, head_glyph, Draw, Tint};

#[test]
fn connector_glyphs_for_every_legal_pair() {
    assert_eq!(connector(Dir::N, Dir::E), '╯');
    assert_eq!(connector(Dir::W, Dir::S), '╯');
    assert_eq!(connector(Dir::N, Dir::W), '╰');
    assert_eq!(connector(Dir::E, Dir::S), '╰');
    assert_eq!(connector(Dir::S, Dir::E), '╮');
    assert_eq!(connector(Dir::W, Dir::N), '╮');
    assert_eq!(connector(Dir::S, Dir::W), '╭');
    assert_eq!(connector(Dir::E, Dir::N), '╭');
    assert_eq!(connector(Dir::W, Dir::W), '─');
    assert_eq!(connector(Dir::E, Dir::E), '─');
    assert_eq!(connector(Dir::N, Dir::N), '│');
    assert_eq!(connector(Dir::S, Dir::S), '│');
}

#[test]
fn head_glyph_follows_the_axis() {
    assert_eq!(head_glyph(Dir::N), '│');
    assert_eq!(head_glyph(Dir::S), '│');
    assert_eq!(head_glyph(Dir::E), '─');
    assert_eq!(head_glyph(Dir::W), '─');
}

#[test]
fn fruit_glyphs_and_tints() {
    assert_eq!(Fruit::Growth.glyph(), '🍏');
    assert_eq!(Fruit::Death.glyph(), '💀');
    assert_eq!(Fruit::Speed.glyph(), '🍒');
    assert_eq!(Fruit::Slow.glyph(), '🍍');
    assert_eq!(Fruit::Growth.tint(), Tint::Green);
    assert_eq!(Fruit::Death.tint(), Tint::Red);
    assert_eq!(Fruit::Speed.tint(), Tint::LightRed);
    assert_eq!(Fruit::Slow.tint(), Tint::Blue);
    assert_eq!(
        Fruit::Speed.draw_at((3, 4)),
        Draw { pos: (3, 4), glyph: '🍒', tint: Tint::LightRed }
    );
}

#[test]
fn turn_suppression_over_all_pairs() {
    let all = [Dir::N, Dir::S, Dir::E, Dir::W];
    for &facing in &all {
        for &wanted in &all {
            let expected = if wanted == facing.opposite() { facing } else { wanted };
            assert_eq!(facing.turn(wanted), expected);
        }
    }
    assert_eq!(Dir::N.turn(Dir::S), Dir::N);
    assert_eq!(Dir::S.turn(Dir::N), Dir::S);
    assert_eq!(Dir::E.turn(Dir::W), Dir::E);
    assert_eq!(Dir::W.turn(Dir::E), Dir::W);
    assert_eq!(Dir::N.turn(Dir::E), Dir::E);
    assert_eq!(Dir::N.turn(Dir::N), Dir::N);
}

#[test]
fn opposites_and_axes() {
    assert_eq!(Dir::N.opposite(), Dir::S);
    assert_eq!(Dir::S.opposite(), Dir::N);
    assert_eq!(Dir::E.opposite(), Dir::W);
    assert_eq!(Dir::W.opposite(), Dir::E);
    assert!(Dir::N.is_vertical());
    assert!(Dir::S.is_vertical());
    assert!(!Dir::E.is_vertical());
    assert!(!Dir::W.is_vertical());
}

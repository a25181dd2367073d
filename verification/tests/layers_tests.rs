use axum_extra::either::Either;
use gamba::layers::conditional_layer;

#[test]
fn condition_holds_gives_the_layer() {
    match conditional_layer(true, || 7u8) {
        Either::E1(layer) => assert_eq!(layer, 7),
        Either::E2(_) => panic!("expected the layer"),
    }
}

#[test]
fn condition_fails_gives_identity() {
    let mut called = false;
    let result = conditional_layer(false, || {
        called = true;
        7u8
    });
    assert!(matches!(result, Either::E2(_)));
    assert!(!called);
}

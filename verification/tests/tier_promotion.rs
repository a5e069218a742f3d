use clone_behavior::{
    AnySpeed, ConstantTime, IndependentClone, LogTime, MirroredClone, MixedClone, NearInstant,
};

#[test]
fn promoted_independent_tiers_agree_for_u8() {
    let x: u8 = 7;
    let fast = <u8 as IndependentClone<NearInstant>>::independent_clone(&x);
    let constant = <u8 as IndependentClone<ConstantTime>>::independent_clone(&x);
    let logarithmic = <u8 as IndependentClone<LogTime>>::independent_clone(&x);
    let unconstrained = <u8 as IndependentClone<AnySpeed>>::independent_clone(&x);
    assert_eq!(fast, 7);
    assert_eq!(constant, fast);
    assert_eq!(logarithmic, fast);
    assert_eq!(unconstrained, fast);
}

#[test]
fn promoted_independent_tiers_agree_for_char() {
    let x: char = 'ζ';
    assert_eq!(<char as IndependentClone<NearInstant>>::independent_clone(&x), 'ζ');
    assert_eq!(<char as IndependentClone<ConstantTime>>::independent_clone(&x), 'ζ');
    assert_eq!(<char as IndependentClone<LogTime>>::independent_clone(&x), 'ζ');
    assert_eq!(<char as IndependentClone<AnySpeed>>::independent_clone(&x), 'ζ');
}

#[test]
fn promoted_independent_tiers_agree_for_i64() {
    let x: i64 = -123_456_789;
    let fast = <i64 as IndependentClone<NearInstant>>::independent_clone(&x);
    let unconstrained = <i64 as IndependentClone<AnySpeed>>::independent_clone(&x);
    assert_eq!(fast, x);
    assert_eq!(unconstrained, fast);
}

#[test]
fn promoted_mirrored_tiers_agree_for_unit() {
    let x: () = ();
    assert_eq!(<() as MirroredClone<NearInstant>>::mirrored_clone(&x), ());
    assert_eq!(<() as MirroredClone<ConstantTime>>::mirrored_clone(&x), ());
    assert_eq!(<() as MirroredClone<LogTime>>::mirrored_clone(&x), ());
    assert_eq!(<() as MirroredClone<AnySpeed>>::mirrored_clone(&x), ());
}

#[test]
fn promoted_mixed_tiers_agree_for_shared_reference() {
    let text = String::from("shared");
    let r: &str = text.as_str();
    let fast = <&str as MixedClone<NearInstant>>::mixed_clone(&r);
    let constant = <&str as MixedClone<ConstantTime>>::mixed_clone(&r);
    let logarithmic = <&str as MixedClone<LogTime>>::mixed_clone(&r);
    let unconstrained = <&str as MixedClone<AnySpeed>>::mixed_clone(&r);
    assert_eq!(fast, "shared");
    assert_eq!(constant, fast);
    assert_eq!(logarithmic, fast);
    assert_eq!(unconstrained, fast);
}

#[test]
fn promoted_independent_tiers_agree_for_ordering() {
    let x = core::cmp::Ordering::Less;
    let fast = <core::cmp::Ordering as IndependentClone<NearInstant>>::independent_clone(&x);
    let unconstrained = <core::cmp::Ordering as IndependentClone<AnySpeed>>::independent_clone(&x);
    assert_eq!(fast, core::cmp::Ordering::Less);
    assert_eq!(unconstrained, fast);
}

#[test]
fn promoted_independent_tiers_agree_for_duration() {
    let x = core::time::Duration::from_millis(250);
    let fast = <core::time::Duration as IndependentClone<NearInstant>>::independent_clone(&x);
    let unconstrained =
        <core::time::Duration as IndependentClone<AnySpeed>>::independent_clone(&x);
    assert_eq!(fast, x);
    assert_eq!(unconstrained, fast);
}

use cryptoctx::song::Chorus;

#[test]
fn chorus_names() {
    assert_eq!(Chorus::First.as_str(), "first");
    assert_eq!(Chorus::Fifth.as_str(), "fifth");
    assert_eq!(Chorus::Eight.as_str(), "eight");
    assert_eq!(Chorus::Twelfth.as_str(), "twelfth");
}

#[test]
fn chorus_phrases() {
    assert_eq!(Chorus::First.phrase(), "A partridge in a pear tree");
    assert_eq!(Chorus::Fifth.phrase(), "Five golden rings");
    assert_eq!(Chorus::Twelfth.phrase(), "Twelve drummers drumming");
}

#[test]
fn chorus_order() {
    let all = Chorus::all();
    assert_eq!(all.len(), 12);
    assert_eq!(all[0], Chorus::First);
    assert_eq!(all[11], Chorus::Twelfth);
}

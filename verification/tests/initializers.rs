use fe0_ml::initializers::Initializer;

#[test]
fn xavier_by_both_names() {
    assert_eq!(Initializer::from_name("xavier"), Initializer::Xavier);
    assert_eq!(Initializer::from_name("glorot"), Initializer::Xavier);
}

#[test]
fn he_by_both_names() {
    assert_eq!(Initializer::from_name("kaiming"), Initializer::He);
    assert_eq!(Initializer::from_name("he"), Initializer::He);
}

#[test]
fn names_ignore_case() {
    assert_eq!(Initializer::from_name("XAVIER"), Initializer::Xavier);
    assert_eq!(Initializer::from_name("Glorot"), Initializer::Xavier);
    assert_eq!(Initializer::from_name("KaiMing"), Initializer::He);
    assert_eq!(Initializer::from_name("He"), Initializer::He);
    assert_eq!(Initializer::from_name("HE"), Initializer::He);
}

#[test]
fn unknown_names_fall_back_to_uniform() {
    assert_eq!(Initializer::from_name("lecun"), Initializer::Uniform);
    assert_eq!(Initializer::from_name(""), Initializer::Uniform);
    assert_eq!(Initializer::from_name("he "), Initializer::Uniform);
    assert_eq!(Initializer::from_name("xavier_uniform"), Initializer::Uniform);
}

#[test]
fn lowercase_names_are_taken_as_they_stand() {
    assert_eq!(Initializer::from_lowercase(&String::from("he")), Initializer::He);
    assert_eq!(Initializer::from_lowercase(&String::from("kaiming")), Initializer::He);
    assert_eq!(Initializer::from_lowercase(&String::from("xavier")), Initializer::Xavier);
    assert_eq!(Initializer::from_lowercase(&String::from("glorot")), Initializer::Xavier);
    assert_eq!(Initializer::from_lowercase(&String::from("He")), Initializer::Uniform);
    assert_eq!(Initializer::from_lowercase(&String::from("XAVIER")), Initializer::Uniform);
}

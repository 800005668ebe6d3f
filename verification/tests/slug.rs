use perekladach::slug::{Slug, SlugError};

#[test]
fn test_slug() {
    assert!(Slug::try_from("slug".to_owned()).is_ok());
    assert!(Slug::try_from("42".to_owned()).is_ok());
    assert!(Slug::try_from("project-name".to_owned()).is_ok());
    assert!(Slug::try_from("project1-name-test".to_owned()).is_ok());

    assert!(Slug::try_from("-".to_owned()).is_err());
    assert!(Slug::try_from("project--name".to_owned()).is_err());
    assert!(Slug::try_from("-slug".to_owned()).is_err());
    assert!(Slug::try_from("slug-".to_owned()).is_err());
    assert!(Slug::try_from("".to_owned()).is_err());
    assert!(Slug::try_from("project_name".to_owned()).is_err());
    assert!(Slug::try_from("project-(name".to_owned()).is_err());
}

#[test]
fn slug_keeps_its_text() {
    let slug = Slug::try_from("chapter-12-part-b".to_owned()).unwrap();
    assert_eq!(slug.as_ref(), "chapter-12-part-b");
}

#[test]
fn slug_rejects_uppercase_and_non_ascii() {
    assert_eq!(
        Slug::try_from("Project".to_owned()).err(),
        Some(SlugError::IllegalCharacters)
    );
    assert!(Slug::try_from("проєкт".to_owned()).is_err());
    assert!(Slug::try_from("a b".to_owned()).is_err());
}

#[test]
fn slug_single_characters() {
    assert!(Slug::try_from("a".to_owned()).is_ok());
    assert!(Slug::try_from("0".to_owned()).is_ok());
    assert!(Slug::try_from("a-0".to_owned()).is_ok());
    assert!(Slug::try_from("--".to_owned()).is_err());
}

#[test]
fn slug_refusal_text() {
    let e = Slug::try_from("Not A Slug".to_owned()).err().unwrap();
    assert_eq!(e.message(), "Illegal characters");
}

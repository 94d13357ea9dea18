use command_browser::error::Error;

#[test]
fn a_custom_error_shows_its_words() {
    let error = Error::Custom(String::from("failed to get the next event"));
    assert_eq!(error.message(), "Error: failed to get the next event");
    assert_eq!(Error::Custom(String::new()).message(), "Error: ");
}

#[test]
fn an_unknown_error_shows_the_error_of_the_system() {
    let inner = std::io::Error::new(std::io::ErrorKind::NotFound, "no such document");
    let shown = format!("{}", inner);
    let error = Error::Unknown(inner);
    assert_eq!(error.message(), format!("Unknown Error: {}", shown));
    assert_eq!(error.message(), "Unknown Error: no such document");
}

#[test]
fn an_error_of_the_system_becomes_an_unknown_error() {
    let inner = std::io::Error::new(std::io::ErrorKind::Other, "boom");
    let error = Error::from(inner);
    assert!(matches!(error, Error::Unknown(_)));
    assert_eq!(error.message(), "Unknown Error: boom");
    let converted: Error = std::io::Error::new(std::io::ErrorKind::Other, "bang").into();
    assert_eq!(converted.message(), "Unknown Error: bang");
}

use relm::Error;

#[test]
fn toolkit_failure_has_the_fixed_text() {
    assert_eq!(Error::GtkInit.message(), "Cannot init GTK+");
    assert_eq!(Error::GtkInit.description(), "Cannot init GTK+");
    assert!(Error::GtkInit.cause().is_none());
}

#[test]
fn io_failure_shows_its_own_wording_after_the_prefix() {
    let inner = std::io::Error::new(std::io::ErrorKind::Other, "reactor refused");
    let error = Error::Io(inner);
    assert_eq!(error.message(), "IO error: reactor refused");
    let cause = error.cause().expect("an I/O failure has a cause");
    assert_eq!(cause.kind(), std::io::ErrorKind::Other);
    assert_eq!(format!("{}", cause), "reactor refused");
}

#[test]
#[allow(deprecated)]
fn io_failure_describes_itself_as_the_io_error_does() {
    let twin = std::io::Error::from(std::io::ErrorKind::NotFound);
    let expected = std::error::Error::description(&twin).to_string();
    let error = Error::Io(std::io::Error::from(std::io::ErrorKind::NotFound));
    assert_eq!(error.description(), expected);
    assert_eq!(error.message(), format!("IO error: {}", twin));
    assert_eq!(error.message(), "IO error: entity not found");
}

#[test]
fn render_and_describe_follow_the_detail() {
    assert_eq!(Error::render(None), "Cannot init GTK+");
    assert_eq!(Error::render(Some("disk full")), "IO error: disk full");
    assert_eq!(Error::render(Some("")), "IO error: ");
    assert_eq!(Error::describe(None), "Cannot init GTK+");
    assert_eq!(Error::describe(Some("disk full")), "disk full");
}

#[test]
fn unit_converts_to_toolkit_failure() {
    let error: Error = Error::from(());
    assert!(matches!(error, Error::GtkInit));
}

#[test]
fn io_error_converts_to_io_failure() {
    let inner = std::io::Error::new(std::io::ErrorKind::NotFound, "missing");
    let error: Error = Error::from(inner);
    match error {
        Error::Io(e) => assert_eq!(e.kind(), std::io::ErrorKind::NotFound),
        Error::GtkInit => panic!("an I/O error must stay an I/O failure"),
    }
}

#[test]
fn debug_names_the_variant() {
    assert_eq!(format!("{:?}", Error::GtkInit), "GtkInit");
}

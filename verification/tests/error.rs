use updater::error::UpdateError;

#[test]
fn each_error_has_its_name() {
    assert_eq!(UpdateError::Network.name(), "NetworkError");
    assert_eq!(UpdateError::NoAssets.name(), "NoAssetsError");
    assert_eq!(UpdateError::Parse.name(), "ParseError");
    assert_eq!(UpdateError::Io.name(), "IoError");
    assert_eq!(UpdateError::Archive.name(), "ArchiveError");
    assert_eq!(UpdateError::UnrecognizedIdentity.name(), "UnrecognizedIdentityError");
}

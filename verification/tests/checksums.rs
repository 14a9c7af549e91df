use orbit::checksums::{find_checksum, ManifestError};
use orbit::digest::Sha256Hash;

const ABC: &str = "ba7816bf8f01cfea414140de5dae2223b00361a396177a9cb410ff61f20015ad";
const EMPTY: &str = "e3b0c44298fc1c149afbf4c8996fb92427ae41e4649b934ca495991b7852b855";

#[test]
fn checksum_of_the_only_line() {
    let manifest = format!("{} orbit-1.1.0-x86_64-linux.zip\n", ABC);
    assert_eq!(
        find_checksum(&manifest, "orbit-1.1.0-x86_64-linux.zip"),
        Ok(Some(Sha256Hash::from_str(ABC).unwrap()))
    );
}

#[test]
fn checksum_of_a_later_line() {
    let manifest = format!(
        "{} orbit-1.1.0-aarch64-macos.zip\n{} orbit-1.1.0-x86_64-linux.zip\n",
        EMPTY, ABC
    );
    assert_eq!(
        find_checksum(&manifest, "orbit-1.1.0-x86_64-linux.zip"),
        Ok(Some(Sha256Hash::from_str(ABC).unwrap()))
    );
    assert_eq!(
        find_checksum(&manifest, "orbit-1.1.0-aarch64-macos.zip"),
        Ok(Some(Sha256Hash::from_str(EMPTY).unwrap()))
    );
}

#[test]
fn checksum_without_a_final_line_feed() {
    let manifest = format!("{} a.zip\n{} b.zip", EMPTY, ABC);
    assert_eq!(find_checksum(&manifest, "b.zip"), Ok(Some(Sha256Hash::from_str(ABC).unwrap())));
}

#[test]
fn checksum_of_the_first_of_two_lines_for_one_file() {
    let manifest = format!("{} a.zip\n{} a.zip\n", EMPTY, ABC);
    assert_eq!(find_checksum(&manifest, "a.zip"), Ok(Some(Sha256Hash::from_str(EMPTY).unwrap())));
}

#[test]
fn checksum_of_a_file_that_is_not_listed() {
    let manifest = format!("{} a.zip\n{} b.zip\n", EMPTY, ABC);
    assert_eq!(find_checksum(&manifest, "c.zip"), Ok(None));
    assert_eq!(find_checksum(&manifest, "a.zi"), Ok(None));
    assert_eq!(find_checksum(&manifest, "a.zip "), Ok(None));
    assert_eq!(find_checksum(&manifest, "A.ZIP"), Ok(None));
    assert_eq!(find_checksum("", "a.zip"), Ok(None));
}

#[test]
fn checksum_name_may_hold_spaces() {
    let manifest = format!("{} my file.zip\n", ABC);
    assert_eq!(
        find_checksum(&manifest, "my file.zip"),
        Ok(Some(Sha256Hash::from_str(ABC).unwrap()))
    );
    assert_eq!(find_checksum(&manifest, "file.zip"), Ok(None));
}

#[test]
fn checksum_line_without_a_space_is_an_error() {
    assert_eq!(find_checksum("nospace\n", "a.zip"), Err(ManifestError::Line));
    assert_eq!(find_checksum("\n", "a.zip"), Err(ManifestError::Line));
    let manifest = format!("{} a.zip\n\n{} b.zip\n", EMPTY, ABC);
    assert_eq!(find_checksum(&manifest, "b.zip"), Err(ManifestError::Line));
    // the search stops at the wanted line: what follows is not read
    assert_eq!(
        find_checksum(&manifest, "a.zip"),
        Ok(Some(Sha256Hash::from_str(EMPTY).unwrap()))
    );
}

#[test]
fn checksum_that_is_no_digest_is_an_error() {
    assert_eq!(find_checksum("abc123 a.zip\n", "a.zip"), Err(ManifestError::Digest));
    let manifest = format!("{} a.zip\n", ABC.to_uppercase());
    assert_eq!(find_checksum(&manifest, "a.zip"), Err(ManifestError::Digest));
    // a bad digest on a line for another file is passed over
    let manifest = format!("abc123 a.zip\n{} b.zip\n", ABC);
    assert_eq!(find_checksum(&manifest, "b.zip"), Ok(Some(Sha256Hash::from_str(ABC).unwrap())));
}

#[test]
fn checksum_line_ending_in_carriage_return_does_not_match() {
    let manifest = format!("{} a.zip\r\n", ABC);
    assert_eq!(find_checksum(&manifest, "a.zip"), Ok(None));
    assert_eq!(
        find_checksum(&manifest, "a.zip\r"),
        Ok(Some(Sha256Hash::from_str(ABC).unwrap()))
    );
}

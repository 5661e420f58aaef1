use doppler::tle::{create_tle_from_lines, trim, TleError};

fn lines(texts: &[&str]) -> Vec<Vec<u8>> {
    texts.iter().map(|t| t.as_bytes().to_vec()).collect()
}

fn bytes(t: &str) -> Vec<u8> {
    t.as_bytes().to_vec()
}

#[test]
fn trim_removes_breaks_and_trailing_spaces() {
    assert_eq!(trim(&bytes("ESTCUBE 1\r\n")), bytes("ESTCUBE 1"));
    assert_eq!(trim(&bytes("\nESTCUBE 1  \t")), bytes("ESTCUBE 1"));
    assert_eq!(trim(&bytes("ESTCUBE 1")), bytes("ESTCUBE 1"));
    // Leading spaces stay; only leading line breaks are removed.
    assert_eq!(trim(&bytes("  name \r")), bytes("  name"));
    assert_eq!(trim(&bytes("\r\n\r\n")), bytes(""));
    assert_eq!(trim(&bytes("")), bytes(""));
}

const L1: &str = "1 39161U 13021C   15091.47675532  .00001890  00000-0  31643-3 0  9990";
const L2: &str = "2 39161  98.0727 175.0786 0009451 192.0216 168.0788 14.70951130101965";

#[test]
fn lookup_finds_entry() {
    let file = lines(&[
        "FIRSTSAT",
        "1 11111U line one",
        "2 11111 line two",
        "ESTCUBE 1\r",
        &format!("{}\r\n", L1),
        &format!("{}\r", L2),
        "LASTSAT",
    ]);
    let tle = create_tle_from_lines(&file, &bytes("ESTCUBE 1")).unwrap();
    assert_eq!(tle.name, bytes("ESTCUBE 1"));
    assert_eq!(tle.line1, bytes(L1));
    assert_eq!(tle.line2, bytes(L2));
}

#[test]
fn lookup_takes_first_match() {
    let file = lines(&["SAT", "first-1", "first-2", "SAT", "second-1", "second-2"]);
    let tle = create_tle_from_lines(&file, &bytes("SAT")).unwrap();
    assert_eq!(tle.line1, bytes("first-1"));
    assert_eq!(tle.line2, bytes("first-2"));
}

#[test]
fn lookup_reports_absent_name() {
    let file = lines(&["ESTCUBE 1", L1, L2]);
    assert_eq!(
        create_tle_from_lines(&file, &bytes("NOT THERE")),
        Err(TleError::NameNotFound)
    );
    let empty: Vec<Vec<u8>> = Vec::new();
    assert_eq!(
        create_tle_from_lines(&empty, &bytes("ESTCUBE 1")),
        Err(TleError::NameNotFound)
    );
}

#[test]
fn lookup_rejects_empty_name() {
    let file = lines(&["", "one", "two"]);
    assert_eq!(
        create_tle_from_lines(&file, &bytes("")),
        Err(TleError::NameNotFound)
    );
}

#[test]
fn lookup_reports_truncated_file() {
    let file = lines(&["ESTCUBE 1", L1]);
    assert_eq!(
        create_tle_from_lines(&file, &bytes("ESTCUBE 1")),
        Err(TleError::FileTruncated)
    );
    let file2 = lines(&["padding", "ESTCUBE 1"]);
    assert_eq!(
        create_tle_from_lines(&file2, &bytes("ESTCUBE 1")),
        Err(TleError::FileTruncated)
    );
}

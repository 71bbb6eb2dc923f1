use kappa::error::KappaError;
use kappa::log::{decimal_text, Archive, ArchiveStep, LAST_KEPT, LAST_NUMBER};

#[test]
fn decimal_text_of_numbers() {
    assert_eq!(decimal_text(0), "0");
    assert_eq!(decimal_text(7), "7");
    assert_eq!(decimal_text(10), "10");
    assert_eq!(decimal_text(16), "16");
    assert_eq!(decimal_text(409), "409");
    assert_eq!(decimal_text(1_234_567_890), "1234567890");
    assert_eq!(decimal_text(u32::MAX), "4294967295");
}

#[test]
fn decimal_text_agrees_with_std() {
    for n in (0..5000u32).chain([99_999, 100_000, 100_001, u32::MAX - 1]) {
        assert_eq!(decimal_text(n), n.to_string());
    }
}

#[test]
fn archive_limits() {
    assert_eq!(LAST_NUMBER, 16);
    assert_eq!(LAST_KEPT, 14);
}

#[test]
fn archive_starts_with_the_plain_name() {
    let (archive, first) = Archive::start("20240131-235959");
    assert_eq!(first, "logs/20240131-235959.log");
    assert_eq!(archive.name(), "logs/20240131-235959.log");
    assert_eq!(archive.number(), 0);
}

#[test]
fn archive_keeps_the_first_name_that_is_free() {
    let (mut archive, _) = Archive::start("20240131-235959");
    assert_eq!(archive.next(true), ArchiveStep::Keep);
    assert_eq!(archive.number(), 0);
}

#[test]
fn archive_numbers_the_names_that_follow() {
    let (mut archive, _) = Archive::start("20240131-235959");
    assert_eq!(
        archive.next(false),
        ArchiveStep::Create("logs/20240131-235959-1.log".to_string())
    );
    assert_eq!(
        archive.next(false),
        ArchiveStep::Create("logs/20240131-235959-2.log".to_string())
    );
    assert_eq!(archive.number(), 2);
    assert_eq!(archive.name(), "logs/20240131-235959-2.log");
    assert_eq!(archive.next(true), ArchiveStep::Keep);
    assert_eq!(archive.number(), 2);
}

#[test]
fn archive_tries_sixteen_numbers_and_gives_up() {
    let (mut archive, _) = Archive::start("t");
    for number in 1..=16u32 {
        assert_eq!(archive.next(false), ArchiveStep::Create(format!("logs/t-{}.log", number)));
        assert_eq!(archive.number(), number);
    }
    assert_eq!(
        archive.next(false),
        ArchiveStep::GiveUp(KappaError::new("Could not save last log file!"))
    );
    assert_eq!(archive.number(), 16);
}

#[test]
fn archive_keeps_the_log_up_to_number_fourteen() {
    let (mut archive, _) = Archive::start("t");
    for _ in 1..=14 {
        archive.next(false);
    }
    assert_eq!(archive.number(), 14);
    assert_eq!(archive.next(true), ArchiveStep::Keep);
}

#[test]
fn archive_gives_up_from_number_fifteen_even_if_the_file_is_there() {
    for last in [15u32, 16] {
        let (mut archive, _) = Archive::start("t");
        for _ in 1..=last {
            archive.next(false);
        }
        assert_eq!(archive.number(), last);
        assert_eq!(
            archive.next(true),
            ArchiveStep::GiveUp(KappaError::new("Could not save last log file!"))
        );
    }
}

#[test]
fn archive_with_an_empty_stamp() {
    let (mut archive, first) = Archive::start("");
    assert_eq!(first, "logs/.log");
    assert_eq!(archive.next(false), ArchiveStep::Create("logs/-1.log".to_string()));
}

#[test]
fn archive_names_are_all_different() {
    let (mut archive, first) = Archive::start("20240131-235959");
    let mut names = vec![first];
    while let ArchiveStep::Create(name) = archive.next(false) {
        names.push(name);
    }
    assert_eq!(names.len(), 17);
    for i in 0..names.len() {
        for j in 0..i {
            assert_ne!(names[i], names[j]);
        }
    }
}

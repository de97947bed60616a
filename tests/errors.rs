use welder::{
    capture_location, chain_locations, fail, propagate, AnyError, CliError, CliErrorKind,
    CommonErrorData, ConstructError, Error, ErrorExt, ErrorFormatter, ErrorLocation, FromError,
    IoError, IoErrorKind, LookupError, LookupErrorKind,
};

fn loc(file: &str, line: u64, col: u64) -> ErrorLocation {
    ErrorLocation::new(file.to_string(), line, col)
}

fn io_failure(desc: &str, detail: Option<&str>) -> IoError {
    IoError::new(IoErrorKind::NotFound, desc.to_string(), detail.map(|d| d.to_string()))
}

fn missing_item() -> Result<(), LookupError> {
    fail(
        (LookupErrorKind::NotFound, "The intended item does not exist."),
        Some(loc("src/items.rs", 10, 5)),
    )
}

fn bar() -> Result<(), CliError> {
    propagate(missing_item(), Some(loc("src/bar.rs", 20, 9)))?;
    fail((CliErrorKind::NoPermission, "Access not possible"), None)
}

fn read_first_line() -> Result<String, IoError> {
    Err(io_failure("file not found", Some("/missing.txt")))
}

fn an_io_error() -> Result<String, CliError> {
    let line = propagate(read_first_line(), Some(loc("src/io.rs", 3, 1)))?;
    Ok(line)
}

fn sources(lines: &[Option<&str>]) -> Vec<Option<String>> {
    lines.iter().map(|l| l.map(|s| s.to_string())).collect()
}

#[test]
fn location_displays_file_line_and_column() {
    assert_eq!(loc("src/main.rs", 12, 5).display(), "src/main.rs:12:5");
    assert_eq!(loc("a.rs", 0, 0).display(), "a.rs:0:0");
    assert_eq!(loc("b.rs", 10, 9).display(), "b.rs:10:9");
    assert_eq!(
        loc("big.rs", u64::MAX, 1000000).display(),
        "big.rs:18446744073709551615:1000000"
    );
}

#[test]
fn locations_compare_by_all_fields() {
    assert!(loc("a.rs", 1, 2) == loc("a.rs", 1, 2));
    assert!(loc("a.rs", 1, 2) != loc("b.rs", 1, 2));
    assert!(loc("a.rs", 1, 2) != loc("a.rs", 3, 2));
    assert!(loc("a.rs", 1, 2) != loc("a.rs", 1, 3));
    assert!(loc("a.rs", 4, 2).duplicate() == loc("a.rs", 4, 2));
}

#[test]
fn cast_recovers_only_the_originating_type() {
    let e = CliError::construct_error(
        (CliErrorKind::NoPermission, "Access not possible"),
        Some(loc("p.rs", 8, 1)),
    );
    let a = AnyError::of(&e);
    let back = (&a).cast::<CliError>().expect("a CliError");
    assert!(std::ptr::eq(back, &a));
    assert_eq!(back.error_type(), "CliError");
    assert_eq!(back.name(), "CliError");
    assert_eq!(back.description(), "Access not possible");
    assert_eq!(back.detail(), None);
    assert!(back.location() == Some(loc("p.rs", 8, 1)));
    assert!(back.cause().is_none());
    assert!((&a).cast::<IoError>().is_none());
    assert!((&a).cast::<LookupError>().is_none());

    let i = AnyError::of(&io_failure("eof", None));
    assert!((&i).cast::<IoError>().is_some());
    assert!((&i).cast::<CliError>().is_none());
}

#[test]
fn construct_gives_description_and_nothing_else() {
    let e = CliError::construct_error((CliErrorKind::NotFound, "D"), None);
    assert_eq!(e.description(), "D");
    assert!(e.cause().is_none());
    assert_eq!(e.detail(), None);
    assert!(e.location().is_none());
    assert!(e.data.kind == CliErrorKind::NotFound);

    let l = LookupError::construct_error((LookupErrorKind::NoPermission, "locked"), None);
    assert_eq!(l.name(), "LookupError");
    assert_eq!(l.description(), "locked");
    assert!(l.cause().is_none());
    assert_eq!(l.detail(), None);

    let d = CommonErrorData::construct_error((7u8, "seven"), Some(loc("k.rs", 7, 7)));
    assert_eq!(d.kind, 7);
    assert_eq!(d.description, "seven");
    assert_eq!(d.detail, None);
    assert!(d.location == Some(loc("k.rs", 7, 7)));
}

#[test]
fn common_data_detail_is_set_explicitly() {
    let d = CommonErrorData::new(1u32, "one", None).with_detail("more".to_string());
    assert_eq!(d.kind, 1);
    assert_eq!(d.description, "one");
    assert_eq!(d.detail, Some("more".to_string()));
    assert!(d.location.is_none());
}

#[test]
fn convert_keeps_foreign_error_as_cause() {
    let io = io_failure("disk on fire", Some("sda1"));
    let e = CliError::from_error(io.clone(), Some(loc("c.rs", 1, 1)));
    let cause = e.cause().expect("a cause");
    assert_eq!(cause.description(), "disk on fire");
    assert_eq!(cause.detail(), Some("sda1".to_string()));
    assert_eq!(cause.name(), "IoError");
    assert_eq!(e.description(), "an I/O error occurred");
    assert!(e.location() == Some(loc("c.rs", 1, 1)));
    assert!(e.data.kind == CliErrorKind::InternalIoError(io));
}

#[test]
fn identity_conversion_ignores_location() {
    let e = CliError::construct_error((CliErrorKind::NotFound, "gone"), Some(loc("i.rs", 2, 3)));
    let same = <CliError as FromError<CliError>>::from_error(e, Some(loc("other.rs", 9, 9)));
    assert_eq!(same.description(), "gone");
    assert!(same.location() == Some(loc("i.rs", 2, 3)));
    assert!(same.cause().is_none());
    assert!(same.data.kind == CliErrorKind::NotFound);

    let r: Result<u8, LookupError> =
        propagate(missing_item().map(|_| 0u8), Some(loc("x.rs", 1, 1)));
    let e = r.err().expect("an error");
    assert_eq!(e.description(), "The intended item does not exist.");
    assert!(e.location() == Some(loc("src/items.rs", 10, 5)));
    assert!(e.cause().is_none());
}

#[test]
fn propagate_passes_success_on() {
    let r: Result<u32, CliError> = propagate(Ok::<u32, IoError>(5), None);
    assert_eq!(r.ok(), Some(5));
    let f: Result<u32, CliError> =
        fail((CliErrorKind::NoPermission, "no"), Some(loc("f.rs", 4, 4)));
    let e = f.err().expect("an error");
    assert_eq!(e.description(), "no");
    assert!(e.data.kind == CliErrorKind::NoPermission);
}

#[test]
fn fail_with_single_error_converts_it() {
    let r: Result<(), CliError> = fail((io_failure("broken pipe", None),), None);
    let e = r.err().expect("an error");
    assert_eq!(e.description(), "an I/O error occurred");
    assert_eq!(e.cause().expect("a cause").description(), "broken pipe");
}

#[test]
fn location_capture_follows_switch() {
    let on = capture_location(true, "m.rs".to_string(), 3, 4);
    assert!(on == Some(loc("m.rs", 3, 4)));
    assert!(capture_location(false, "m.rs".to_string(), 3, 4).is_none());
}

#[test]
fn missing_item_through_bar() {
    let e = bar().err().expect("bar fails");
    assert_eq!(e.name(), "CliError");
    assert_eq!(e.description(), "a lookup failed");
    assert!(e.data.kind == CliErrorKind::LookupFailed);
    let cause = e.cause().expect("a cause");
    assert_eq!(cause.error_type(), "LookupError");
    assert_eq!(cause.description(), "The intended item does not exist.");
    assert!(cause.location() == Some(loc("src/items.rs", 10, 5)));
    assert!(cause.cause().is_none());
    assert!(cause.cast::<LookupError>().is_some());
    let a = AnyError::of(&e);
    assert!((&a).cast::<CliError>().is_some());
    assert!((&a).cast::<IoError>().is_none());
    assert!((&a).cast::<LookupError>().is_none());
    assert!(e.location() == Some(loc("src/bar.rs", 20, 9)));
}

#[test]
fn foreign_read_failure_is_wrapped() {
    let e = an_io_error().err().expect("an error");
    assert_eq!(e.description(), "an I/O error occurred");
    assert_eq!(e.name(), "CliError");
    let cause = e.cause().expect("a cause");
    let failure = read_first_line().err().unwrap();
    assert_eq!(cause.error_type(), "IoError");
    assert_eq!(cause.name(), failure.name());
    assert_eq!(cause.description(), failure.description());
    assert_eq!(cause.detail(), failure.detail());
    assert!(cause.location().is_none());
    assert!(e.data.kind == CliErrorKind::InternalIoError(failure));
}

#[test]
fn format_cause_renders_one_link() {
    let mut f = ErrorFormatter::new(String::new());
    let e = AnyError::of(&io_failure("bad read", Some("fd 3")));
    f.format_cause(&e, None);
    assert_eq!(f.output(), "  File <unknown>, line ?\n  IoError: bad read (fd 3)\n");

    let mut g = ErrorFormatter::new("> ".to_string());
    let c = AnyError::of(&CliError::construct_error(
        (CliErrorKind::NotFound, "gone"),
        Some(loc("src/x.rs", 42, 7)),
    ));
    g.format_cause(&c, Some("let x = y?;"));
    assert_eq!(
        g.into_output(),
        ">   File \"src/x.rs\", line 42\n    let x = y?;\n  CliError: gone\n"
    );
}

#[test]
fn format_trace_orders_deepest_first() {
    let e = AnyError::of(&bar().err().unwrap());
    let mut f = ErrorFormatter::new(String::new());
    f.format_trace(&e, &sources(&[Some("propagate(missing_item())?;"), None]));
    assert_eq!(
        f.output(),
        "Error causes (most recent error last):\n\
         \x20 File \"src/items.rs\", line 10\n\
         \x20 LookupError: The intended item does not exist.\n\
         \n\
         \x20 File \"src/bar.rs\", line 20\n\
         \x20   propagate(missing_item())?;\n\
         \x20 CliError: a lookup failed\n"
    );
}

#[test]
fn format_trace_of_single_error() {
    let e = AnyError::of(&io_failure("eof", None));
    let mut f = ErrorFormatter::new(String::new());
    f.format_trace(&e, &Vec::new());
    assert_eq!(
        f.output(),
        "Error causes (most recent error last):\n  File <unknown>, line ?\n  IoError: eof\n"
    );
}

#[test]
fn format_trace_keeps_link_without_source_line() {
    let e = AnyError::of(&an_io_error().err().unwrap());
    let mut f = ErrorFormatter::new(String::new());
    f.format_trace(&e, &sources(&[None, Some("not used")]));
    let text = f.into_output();
    assert_eq!(
        text,
        "Error causes (most recent error last):\n\
         \x20 File <unknown>, line ?\n\
         \x20 IoError: file not found (/missing.txt)\n\
         \n\
         \x20 File \"src/io.rs\", line 3\n\
         \x20 CliError: an I/O error occurred\n"
    );
    assert_eq!(text.matches("\n\n").count(), 1);
}

#[test]
fn chain_locations_lists_each_link() {
    let e = AnyError::of(&bar().err().unwrap());
    let locs = chain_locations(&e);
    assert_eq!(locs.len(), 2);
    assert!(locs[0] == Some(loc("src/bar.rs", 20, 9)));
    assert!(locs[1] == Some(loc("src/items.rs", 10, 5)));
    let single = AnyError::of(&io_failure("x", None));
    assert_eq!(chain_locations(&single).len(), 1);
    assert!(chain_locations(&single)[0].is_none());
}

#[test]
fn erased_copy_keeps_every_field() {
    let e = AnyError::of(&an_io_error().err().unwrap());
    let d = e.duplicate();
    assert_eq!(d.error_type(), "CliError");
    assert_eq!(d.description(), "an I/O error occurred");
    assert!(d.location() == Some(loc("src/io.rs", 3, 1)));
    let c = d.cause().expect("a cause");
    assert_eq!(c.detail(), Some("/missing.txt".to_string()));
}

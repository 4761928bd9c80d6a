use mumblelink_reader::error::MumbleLinkHandlerError;
use mumblelink_reader::layout::record_size;
use mumblelink_reader::mumble_link::MumbleLinkReader;
use mumblelink_reader::mumble_link_handler::{
    MumbleLinkHandler, Opening, Progress, Release, Reply, Request, Stage,
};
use mumblelink_reader::platform::{is_usable_name, Platform};
use mumblelink_reader::wide_text::WideEncoding;

const UNIX: Platform = Platform::Unix { uid: 1000 };
const UNIX_LEN: usize = 10580;
const WINDOWS_LEN: usize = 5460;

fn ok(value: isize) -> Reply {
    Reply { value, os_error: 0 }
}

fn failed(value: isize, os_error: i32) -> Reply {
    Reply { value, os_error }
}

fn pending(progress: Progress) -> Opening {
    match progress {
        Progress::Pending(opening) => opening,
        Progress::Done(result) => panic!("the exchange ended: {:?}", result),
    }
}

fn done(progress: Progress) -> Result<MumbleLinkHandler, MumbleLinkHandlerError> {
    match progress {
        Progress::Pending(opening) => panic!("the exchange goes on: {:?}", opening),
        Progress::Done(result) => result,
    }
}

fn mapped_handler(platform: Platform) -> MumbleLinkHandler {
    let opening = MumbleLinkHandler::new(platform);
    let opening = pending(opening.advance(ok(3)));
    done(opening.advance(ok(0x7000_1000))).unwrap()
}

#[test]
fn unix_object_name_holds_the_user_id() {
    assert_eq!(UNIX.object_name("MumbleLink").unwrap(), "/MumbleLink.1000");
    assert_eq!(Platform::Unix { uid: 0 }.object_name("MumbleLink").unwrap(), "/MumbleLink.0");
    assert_eq!(Platform::Unix { uid: 7 }.object_name("a").unwrap(), "/a.7");
    assert_eq!(Platform::Unix { uid: 10 }.object_name("").unwrap(), "/.10");
    assert_eq!(
        Platform::Unix { uid: u32::MAX }.object_name("Gr\u{FC}\u{DF}").unwrap(),
        "/Gr\u{FC}\u{DF}.4294967295"
    );
    assert_eq!(
        Platform::Unix { uid: 1_000_000_007 }.object_name("x").unwrap(),
        "/x.1000000007"
    );
}

#[test]
fn unix_object_name_is_that_of_the_format() {
    for uid in [0u32, 9, 10, 99, 100, 501, 65534, 4_000_000_000] {
        assert_eq!(
            Platform::Unix { uid }.object_name("MumbleLink").unwrap(),
            format!("/{}.{}", "MumbleLink", uid)
        );
    }
}

#[test]
fn windows_object_name_is_the_name() {
    assert_eq!(Platform::Windows.object_name("MumbleLink").unwrap(), "MumbleLink");
    assert_eq!(Platform::Windows.object_name("Local\\Other").unwrap(), "Local\\Other");
}

#[test]
fn platform_decides_the_width_of_wide_characters() {
    assert_eq!(UNIX.wide_encoding(), WideEncoding::Utf32);
    assert_eq!(Platform::Windows.wide_encoding(), WideEncoding::Utf16);
}

#[test]
fn failure_is_told_by_the_platform_s_convention() {
    assert!(UNIX.is_resource_failure(-1));
    assert!(!UNIX.is_resource_failure(0));
    assert!(!UNIX.is_resource_failure(3));
    assert!(Platform::Windows.is_resource_failure(0));
    assert!(!Platform::Windows.is_resource_failure(-1));
    assert!(!Platform::Windows.is_resource_failure(0x1F4));
    assert!(UNIX.is_map_failure(-1));
    assert!(!UNIX.is_map_failure(0));
    assert!(!UNIX.is_map_failure(-4096));
    assert!(Platform::Windows.is_map_failure(0));
    assert!(!Platform::Windows.is_map_failure(-1));
}

#[test]
fn new_starts_by_attaching_under_the_usual_name() {
    let opening = MumbleLinkHandler::new(UNIX);
    assert_eq!(opening.object_name(), "/MumbleLink.1000");
    assert_eq!(opening.platform(), UNIX);
    assert_eq!(opening.stage(), Stage::Attaching);
    assert_eq!(opening.request(), Request::Attach);
    let opening = MumbleLinkHandler::new(Platform::Windows);
    assert_eq!(opening.object_name(), "MumbleLink");
    assert_eq!(opening.request(), Request::Attach);
}

#[test]
fn with_name_overrides_the_usual_name() {
    let opening = MumbleLinkHandler::with_name("Other", Platform::Unix { uid: 42 }).unwrap();
    assert_eq!(opening.object_name(), "/Other.42");
    assert_eq!(opening.request(), Request::Attach);
    let opening = pending(opening.advance(failed(-1, 2)));
    assert_eq!(opening.object_name(), "/Other.42");
    let opening = MumbleLinkHandler::with_name("Other", Platform::Windows).unwrap();
    assert_eq!(opening.object_name(), "Other");
}

#[test]
fn existing_object_is_attached_and_mapped_unix() {
    let opening = MumbleLinkHandler::new(UNIX);
    let opening = pending(opening.advance(ok(5)));
    assert_eq!(opening.stage(), Stage::Mapping { resource: 5 });
    assert_eq!(opening.request(), Request::MapView { resource: 5, len: UNIX_LEN });
    let handler = done(opening.advance(ok(0x7F00_0000_1000))).unwrap();
    assert_eq!(handler.resource(), Some(5));
    assert_eq!(handler.ptr(), 0x7F00_0000_1000);
    assert!(handler.is_mapped());
    assert_eq!(handler.platform(), UNIX);
    assert_eq!(handler.region_len(), UNIX_LEN);
}

#[test]
fn existing_object_is_attached_and_mapped_windows() {
    let opening = MumbleLinkHandler::new(Platform::Windows);
    let opening = pending(opening.advance(ok(0x1F4)));
    assert_eq!(opening.request(), Request::MapView { resource: 0x1F4, len: WINDOWS_LEN });
    let handler = done(opening.advance(ok(0x2_0000))).unwrap();
    assert_eq!(handler.resource(), Some(0x1F4));
    assert_eq!(handler.ptr(), 0x2_0000);
    assert_eq!(handler.region_len(), WINDOWS_LEN);
}

#[test]
fn second_opening_of_the_same_name_attaches() {
    let first = MumbleLinkHandler::with_name("Shared", UNIX).unwrap();
    let first = pending(first.advance(failed(-1, 2)));
    let first = pending(first.advance(ok(3)));
    let first = pending(first.advance(ok(0)));
    let first = done(first.advance(ok(0x1000))).unwrap();
    let second = MumbleLinkHandler::with_name("Shared", UNIX).unwrap();
    assert_eq!(second.object_name(), "/Shared.1000");
    assert_eq!(second.request(), Request::Attach);
    let second = pending(second.advance(ok(4)));
    assert_eq!(second.request(), Request::MapView { resource: 4, len: UNIX_LEN });
    let second = done(second.advance(ok(0x2000))).unwrap();
    assert!(first.is_mapped());
    assert!(second.is_mapped());
    assert_eq!(second.resource(), Some(4));
}

#[test]
fn missing_object_is_created_sized_and_mapped_unix() {
    let opening = MumbleLinkHandler::new(UNIX);
    let opening = pending(opening.advance(failed(-1, 2)));
    assert_eq!(opening.stage(), Stage::Creating);
    assert_eq!(opening.request(), Request::Create);
    let opening = pending(opening.advance(ok(6)));
    assert_eq!(opening.stage(), Stage::Sizing { resource: 6 });
    assert_eq!(opening.request(), Request::Resize { resource: 6, len: UNIX_LEN });
    let opening = pending(opening.advance(ok(0)));
    assert_eq!(opening.request(), Request::MapView { resource: 6, len: UNIX_LEN });
    let handler = done(opening.advance(ok(0x1000))).unwrap();
    assert_eq!(handler.resource(), Some(6));
    assert_eq!(handler.ptr(), 0x1000);
}

#[test]
fn missing_object_is_created_with_its_size_windows() {
    let opening = MumbleLinkHandler::new(Platform::Windows);
    let opening = pending(opening.advance(failed(0, 2)));
    assert_eq!(opening.request(), Request::CreateWithSize { len: WINDOWS_LEN });
    let opening = pending(opening.advance(ok(0x88)));
    assert_eq!(opening.request(), Request::MapView { resource: 0x88, len: WINDOWS_LEN });
    let handler = done(opening.advance(ok(0x4_0000))).unwrap();
    assert_eq!(handler.resource(), Some(0x88));
}

#[test]
fn failed_creation_is_an_os_error() {
    let opening = MumbleLinkHandler::new(UNIX);
    let opening = pending(opening.advance(failed(-1, 2)));
    let result = done(opening.advance(failed(-1, 13)));
    assert_eq!(result.unwrap_err(), MumbleLinkHandlerError::OSError(13));
    let opening = MumbleLinkHandler::new(Platform::Windows);
    let opening = pending(opening.advance(failed(0, 2)));
    let result = done(opening.advance(failed(0, 5)));
    assert_eq!(result.unwrap_err(), MumbleLinkHandlerError::OSError(5));
}

#[test]
fn failed_sizing_closes_before_it_reports() {
    let opening = MumbleLinkHandler::new(UNIX);
    let opening = pending(opening.advance(failed(-1, 2)));
    let opening = pending(opening.advance(ok(6)));
    let opening = pending(opening.advance(failed(-1, 22)));
    assert_eq!(opening.stage(), Stage::Closing { resource: 6, error: 22 });
    assert_eq!(opening.request(), Request::Close { resource: 6 });
    let result = done(opening.advance(failed(-1, 9)));
    assert_eq!(result.unwrap_err(), MumbleLinkHandlerError::OSError(22));
}

#[test]
fn failed_mapping_closes_before_it_reports() {
    let opening = MumbleLinkHandler::new(UNIX);
    let opening = pending(opening.advance(ok(7)));
    let opening = pending(opening.advance(failed(-1, 12)));
    assert_eq!(opening.request(), Request::Close { resource: 7 });
    let result = done(opening.advance(ok(0)));
    assert_eq!(result.unwrap_err(), MumbleLinkHandlerError::OSError(12));

    let opening = MumbleLinkHandler::new(Platform::Windows);
    let opening = pending(opening.advance(ok(0x1F4)));
    let opening = pending(opening.advance(failed(0, 8)));
    assert_eq!(opening.request(), Request::Close { resource: 0x1F4 });
    let result = done(opening.advance(ok(1)));
    assert_eq!(result.unwrap_err(), MumbleLinkHandlerError::OSError(8));
}

#[test]
fn longest_exchange_takes_five_answers() {
    let opening = MumbleLinkHandler::new(UNIX);
    let opening = pending(opening.advance(failed(-1, 2)));
    let opening = pending(opening.advance(ok(3)));
    let opening = pending(opening.advance(ok(0)));
    let opening = pending(opening.advance(failed(-1, 12)));
    assert!(done(opening.advance(ok(0))).is_err());
}

#[test]
fn error_carries_its_code() {
    assert_eq!(MumbleLinkHandlerError::OSError(13).os_code(), Some(13));
    assert_eq!(MumbleLinkHandlerError::OSError(-1).os_code(), Some(-1));
    assert_eq!(MumbleLinkHandlerError::UnableToRead.os_code(), None);
}

#[test]
fn mapped_handler_reads_the_record() {
    let handler = mapped_handler(UNIX);
    let mut region = vec![0u8; handler.region_len()];
    region[0] = 2;
    region[4] = 9;
    region[44] = 0x61;
    region[48] = 0x62;
    region[52] = 0x63;
    let raw = handler.read_c(&region).unwrap();
    assert_eq!(raw.ui_version, 2);
    assert_eq!(raw.ui_tick, 9);
    assert_eq!(raw.wide, WideEncoding::Utf32);
    let data = handler.read(&region).unwrap();
    assert_eq!(data.ui_version, 2);
    assert_eq!(data.ui_tick, 9);
    assert_eq!(data.name, "abc");
    assert_eq!(data, raw.to_mumble_link_data());

    let handler = mapped_handler(Platform::Windows);
    let mut region = vec![0u8; handler.region_len()];
    region[44] = 0x61;
    region[46] = 0x62;
    region[48] = 0x63;
    assert_eq!(handler.read(&region).unwrap().name, "abc");
}

#[test]
fn copy_shorter_than_the_record_cannot_be_read() {
    let handler = mapped_handler(UNIX);
    let region = vec![0u8; record_size(WideEncoding::Utf32) - 1];
    assert_eq!(handler.read(&region).unwrap_err(), MumbleLinkHandlerError::UnableToRead);
    assert_eq!(handler.read_c(&region).unwrap_err(), MumbleLinkHandlerError::UnableToRead);
    assert_eq!(handler.read_c(&[]).unwrap_err(), MumbleLinkHandlerError::UnableToRead);
}

#[test]
fn handler_without_a_mapping_cannot_be_read() {
    let opening = MumbleLinkHandler::new(UNIX);
    let opening = pending(opening.advance(ok(3)));
    let handler = done(opening.advance(ok(0))).unwrap();
    assert!(!handler.is_mapped());
    let region = vec![0u8; handler.region_len()];
    assert_eq!(handler.read(&region).unwrap_err(), MumbleLinkHandlerError::UnableToRead);
    assert_eq!(handler.read_c(&region).unwrap_err(), MumbleLinkHandlerError::UnableToRead);
}

#[test]
fn released_handler_cannot_be_read() {
    let mut handler = mapped_handler(UNIX);
    let region = vec![0u8; handler.region_len()];
    assert!(handler.read(&region).is_ok());
    let release = handler.release();
    assert_eq!(release, Some(Release { resource: 3, address: Some(0x7000_1000), len: UNIX_LEN }));
    assert!(!handler.is_mapped());
    assert_eq!(handler.ptr(), 0);
    assert_eq!(handler.resource(), None);
    assert_eq!(handler.read(&region).unwrap_err(), MumbleLinkHandlerError::UnableToRead);
    assert_eq!(handler.read_c(&region).unwrap_err(), MumbleLinkHandlerError::UnableToRead);
}

#[test]
fn release_gives_back_only_once() {
    let mut handler = mapped_handler(Platform::Windows);
    assert_eq!(
        handler.release(),
        Some(Release { resource: 3, address: Some(0x7000_1000), len: WINDOWS_LEN })
    );
    assert_eq!(handler.release(), None);
    assert_eq!(handler.release(), None);
    assert_eq!(handler.ptr(), 0);
    assert_eq!(handler.resource(), None);
    assert_eq!(handler.platform(), Platform::Windows);
}

#[test]
fn release_without_a_mapping_gives_back_the_descriptor_alone() {
    let opening = MumbleLinkHandler::new(UNIX);
    let opening = pending(opening.advance(ok(3)));
    let mut handler = done(opening.advance(ok(0))).unwrap();
    assert_eq!(handler.release(), Some(Release { resource: 3, address: None, len: UNIX_LEN }));
    assert_eq!(handler.release(), None);
}

#[test]
fn name_with_a_nul_inside_is_refused_on_unix() {
    let refused = MumbleLinkHandler::with_name("Mumble\0Link", UNIX);
    assert_eq!(refused.unwrap_err(), MumbleLinkHandlerError::OSError(22));
    let refused = MumbleLinkHandler::with_name("\0", Platform::Unix { uid: 0 });
    assert_eq!(refused.unwrap_err(), MumbleLinkHandlerError::OSError(22));
}

#[test]
fn name_with_a_nul_inside_is_refused_on_windows() {
    let refused = MumbleLinkHandler::with_name("Mumble\0Link", Platform::Windows);
    assert_eq!(refused.unwrap_err(), MumbleLinkHandlerError::OSError(123));
}

#[test]
fn name_with_a_nul_at_either_end_is_refused() {
    for platform in [UNIX, Platform::Windows] {
        assert!(MumbleLinkHandler::with_name("MumbleLink\0", platform).is_err());
        assert!(MumbleLinkHandler::with_name("\0MumbleLink", platform).is_err());
        assert!(MumbleLinkHandler::with_name("Gr\u{FC}\u{DF}\0", platform).is_err());
    }
}

#[test]
fn name_without_a_nul_is_taken() {
    for platform in [UNIX, Platform::Windows] {
        assert!(MumbleLinkHandler::with_name("", platform).is_ok());
        assert!(MumbleLinkHandler::with_name("0", platform).is_ok());
        assert!(MumbleLinkHandler::with_name("a b/c\\d", platform).is_ok());
        assert!(MumbleLinkHandler::with_name("Gr\u{FC}\u{DF} \u{1F600}", platform).is_ok());
    }
}

#[test]
fn usable_names_are_those_without_a_nul() {
    assert!(is_usable_name(""));
    assert!(is_usable_name("MumbleLink"));
    assert!(is_usable_name("\u{100}\u{1F600}"));
    assert!(!is_usable_name("\0"));
    assert!(!is_usable_name("Mumble\0Link"));
    assert!(!is_usable_name("MumbleLink\0"));
}

#[test]
fn invalid_name_codes_are_those_of_the_platforms() {
    assert_eq!(UNIX.invalid_name_code(), 22);
    assert_eq!(Platform::Windows.invalid_name_code(), 123);
}

#[test]
fn object_name_of_an_opening_holds_no_nul() {
    let opening = MumbleLinkHandler::with_name("Other", UNIX).unwrap();
    assert!(!opening.object_name().contains('\0'));
    let opening = pending(opening.advance(failed(-1, 2)));
    assert!(!opening.object_name().contains('\0'));
    assert!(!MumbleLinkHandler::new(Platform::Windows).object_name().contains('\0'));
}

#[test]
fn name_with_a_nul_has_no_object_name() {
    assert_eq!(UNIX.object_name("Mumble\0Link"), None);
    assert_eq!(Platform::Windows.object_name("Mumble\0Link"), None);
    assert_eq!(Platform::Windows.object_name("\0"), None);
    assert_eq!(UNIX.object_name(""), Some(String::from("/.1000")));
}

use win_locate::error::Error;
use win_locate::handle::FileHandle;
use win_locate::resolver::{
    Event, PathResolver, Request, FILE_ATTRIBUTE_NORMAL, FILE_OPEN_EXISTING, FILE_READ_ACCESS,
    FILE_SHARE_READ_WRITE, FINAL_PATH_CAPACITY, FINAL_PATH_FLAGS,
};

fn buffer(text: &str) -> Vec<u16> {
    let mut units: Vec<u16> = text.encode_utf16().collect();
    units.resize(FINAL_PATH_CAPACITY, 0);
    units
}

fn final_path(text: &str) -> Event {
    Event::FinalPath { units: buffer(text), len: text.encode_utf16().count() as u32 }
}

const OPEN: Request =
    Request::Open { access: 0x8000_0000, share: 3, disposition: 3, attributes: 0x80 };

fn query(file: FileHandle) -> Request {
    Request::QueryFinalPath { file, capacity: 1024, flags: 0 }
}

#[test]
fn constants_are_those_of_the_system() {
    assert_eq!(FILE_READ_ACCESS, 0x8000_0000);
    assert_eq!(FILE_SHARE_READ_WRITE, 0x1 | 0x2);
    assert_eq!(FILE_OPEN_EXISTING, 3);
    assert_eq!(FILE_ATTRIBUTE_NORMAL, 0x80);
    assert_eq!(FINAL_PATH_CAPACITY, 1024);
    assert_eq!(FINAL_PATH_FLAGS, 0);
}

#[test]
fn start_asks_for_a_shared_read_open() {
    let (resolver, request) = PathResolver::start("C:\\link");
    assert_eq!(request, OPEN);
    assert_eq!(resolver.pending(), OPEN);
    assert_eq!(resolver.wide_path(), &vec![0x43, 0x3A, 0x5C, 0x6C, 0x69, 0x6E, 0x6B, 0]);
    assert_eq!(resolver.into_result(), None);
}

#[test]
fn resolves_the_final_path_and_releases_the_handle() {
    let file = FileHandle(0x1A4);
    let (resolver, _) = PathResolver::start("C:\\link");
    let (resolver, request) = resolver.step(Event::Opened(file));
    assert_eq!(request, query(file));
    let (resolver, request) = resolver.step(final_path("\\\\?\\C:\\target\\file.txt"));
    assert_eq!(request, Request::Close { file });
    let (resolver, request) = resolver.step(Event::Closed);
    assert_eq!(request, Request::Done);
    assert_eq!(
        resolver.into_result(),
        Some(Ok(String::from("\\\\?\\C:\\target\\file.txt")))
    );
}

#[test]
fn result_is_withheld_until_the_handle_is_released() {
    let file = FileHandle(8);
    let (resolver, _) = PathResolver::start("x");
    let (resolver, _) = resolver.step(Event::Opened(file));
    let (resolver, request) = resolver.step(final_path("\\\\?\\C:\\x"));
    assert_eq!(request, Request::Close { file });
    assert_eq!(resolver.into_result(), None);
}

#[test]
fn missing_path_fails_with_open_failure() {
    let (resolver, _) = PathResolver::start("C:\\does\\not\\exist");
    let (resolver, request) =
        resolver.step(Event::OpenFailed(String::from("The system cannot find the path specified.")));
    assert_eq!(request, Request::Done);
    assert_eq!(
        resolver.into_result(),
        Some(Err(Error::OpenFailure(String::from(
            "The system cannot find the path specified."
        ))))
    );
}

#[test]
fn zero_length_fails_with_resolution_failure_after_release() {
    let file = FileHandle(12);
    let (resolver, _) = PathResolver::start("C:\\file");
    let (resolver, _) = resolver.step(Event::Opened(file));
    let (resolver, request) =
        resolver.step(Event::FinalPath { units: vec![0; 1024], len: 0 });
    assert_eq!(request, Request::Close { file });
    let (resolver, request) = resolver.step(Event::Closed);
    assert_eq!(request, Request::Done);
    assert_eq!(resolver.into_result(), Some(Err(Error::ResolutionFailure)));
}

#[test]
fn length_beyond_the_buffer_fails_with_resolution_failure() {
    let file = FileHandle(12);
    let (resolver, _) = PathResolver::start("C:\\file");
    let (resolver, _) = resolver.step(Event::Opened(file));
    let (resolver, request) =
        resolver.step(Event::FinalPath { units: vec![0x41; 1024], len: 1500 });
    assert_eq!(request, Request::Close { file });
    let (resolver, _) = resolver.step(Event::Closed);
    assert_eq!(resolver.into_result(), Some(Err(Error::ResolutionFailure)));
}

#[test]
fn final_path_is_decoded_leniently() {
    let file = FileHandle(3);
    let (resolver, _) = PathResolver::start("C:\\file");
    let (resolver, _) = resolver.step(Event::Opened(file));
    let (resolver, _) = resolver
        .step(Event::FinalPath { units: vec![0x43, 0x3A, 0x5C, 0xDC00, 0x61, 0, 0], len: 5 });
    let (resolver, _) = resolver.step(Event::Closed);
    assert_eq!(resolver.into_result(), Some(Ok(String::from("C:\\\u{FFFD}a"))));
}

#[test]
fn stray_events_change_nothing() {
    let file = FileHandle(5);
    let (resolver, _) = PathResolver::start("C:\\file");
    let (resolver, request) = resolver.step(Event::Closed);
    assert_eq!(request, OPEN);
    let (resolver, request) = resolver.step(final_path("C:\\x"));
    assert_eq!(request, OPEN);
    let (resolver, _) = resolver.step(Event::Opened(file));
    let (resolver, request) = resolver.step(Event::Opened(FileHandle(6)));
    assert_eq!(request, query(file));
    let (resolver, request) = resolver.step(Event::OpenFailed(String::from("late")));
    assert_eq!(request, query(file));
    let (resolver, _) = resolver.step(final_path("\\\\?\\C:\\file"));
    let (resolver, request) = resolver.step(final_path("\\\\?\\C:\\other"));
    assert_eq!(request, Request::Close { file });
    let (resolver, _) = resolver.step(Event::Closed);
    let (resolver, request) = resolver.step(Event::Opened(FileHandle(7)));
    assert_eq!(request, Request::Done);
    assert_eq!(resolver.into_result(), Some(Ok(String::from("\\\\?\\C:\\file"))));
}

#[test]
fn resolving_the_result_again_gives_the_same_path() {
    let canonical = "\\\\?\\C:\\target\\file.txt";
    let mut path = String::from("C:\\link");
    for round in 0..2 {
        let (resolver, _) = PathResolver::start(&path);
        let (resolver, _) = resolver.step(Event::Opened(FileHandle(100 + round)));
        let (resolver, _) = resolver.step(final_path(canonical));
        let (resolver, _) = resolver.step(Event::Closed);
        path = resolver.into_result().unwrap().unwrap();
        assert_eq!(path, canonical);
    }
}

#[test]
fn two_resolutions_do_not_disturb_each_other() {
    let (first, _) = PathResolver::start("C:\\one");
    let (second, _) = PathResolver::start("C:\\two");
    let (first, _) = first.step(Event::Opened(FileHandle(1)));
    let (second, request) = second.step(Event::OpenFailed(String::from("Access is denied.")));
    assert_eq!(request, Request::Done);
    let (first, request) = first.step(final_path("\\\\?\\C:\\one"));
    assert_eq!(request, Request::Close { file: FileHandle(1) });
    let (first, _) = first.step(Event::Closed);
    assert_eq!(first.into_result(), Some(Ok(String::from("\\\\?\\C:\\one"))));
    assert_eq!(
        second.into_result(),
        Some(Err(Error::OpenFailure(String::from("Access is denied."))))
    );
}

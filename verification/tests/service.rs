use security_translocate::{
    create_original_path_for_url, create_secure_directory_for_url, delete_secure_directory,
    is_translocated_url, FlagReply, HandleReply, NativeObject, RawRef, SlotReply, Url,
};
use std::cell::RefCell;
use std::collections::HashMap;

/// A stand-in for the service: mount points by address, each with the
/// address of the path it was made for.
struct Service {
    mounts: RefCell<HashMap<usize, usize>>,
    next: RefCell<usize>,
}

impl Service {
    fn new() -> Service {
        Service { mounts: RefCell::new(HashMap::new()), next: RefCell::new(0x9000) }
    }

    fn create(&self, path: RawRef, destination: RawRef) -> HandleReply {
        let at: usize = if destination.is_null() {
            let mut next = self.next.borrow_mut();
            *next += 0x10;
            *next
        } else {
            destination.address
        };
        if self.mounts.borrow().contains_key(&at) {
            return HandleReply { url: RawRef::null(), error: RawRef::new(0xe0) };
        }
        self.mounts.borrow_mut().insert(at, path.address);
        HandleReply { url: RawRef::new(at), error: RawRef::null() }
    }

    fn original(&self, path: RawRef) -> HandleReply {
        match self.mounts.borrow().get(&path.address) {
            Some(original) => HandleReply { url: RawRef::new(*original), error: RawRef::null() },
            None => HandleReply { url: RawRef::null(), error: RawRef::new(0xe1) },
        }
    }

    fn is_translocated(&self, path: RawRef) -> SlotReply {
        SlotReply {
            ok: true,
            slot: self.mounts.borrow().contains_key(&path.address),
            error: RawRef::null(),
        }
    }

    fn delete(&self, path: RawRef) -> FlagReply {
        match self.mounts.borrow_mut().remove(&path.address) {
            Some(_) => FlagReply { ok: true, error: RawRef::null() },
            None => FlagReply { ok: false, error: RawRef::new(0xe2) },
        }
    }
}

fn url_at(address: usize) -> Url {
    Url::wrap_under_create_rule(RawRef::new(address))
}

#[test]
fn round_trip_gives_back_the_original_path() {
    let service = Service::new();
    let translocated =
        create_secure_directory_for_url(url_at(0x100), None, |p, d| service.create(p, d)).unwrap();
    assert_eq!(translocated.as_concrete_type_ref(), RawRef { address: 0x9010 });
    let original = create_original_path_for_url(translocated, |p| service.original(p));
    assert_eq!(original, Ok(url_at(0x100)));
}

#[test]
fn round_trip_with_a_destination_gives_back_the_original_path() {
    let service = Service::new();
    let translocated = create_secure_directory_for_url(
        url_at(0x100),
        Some(url_at(0x200)),
        |p, d| service.create(p, d),
    )
    .unwrap();
    assert_eq!(translocated.as_concrete_type_ref(), RawRef { address: 0x200 });
    let original = create_original_path_for_url(translocated, |p| service.original(p));
    assert_eq!(original, Ok(url_at(0x100)));
}

#[test]
fn created_path_is_translocated_and_the_original_is_not() {
    let service = Service::new();
    let translocated =
        create_secure_directory_for_url(url_at(0x100), None, |p, d| service.create(p, d)).unwrap();
    assert_eq!(is_translocated_url(translocated, |p| service.is_translocated(p)), Ok(true));
    assert_eq!(is_translocated_url(url_at(0x100), |p| service.is_translocated(p)), Ok(false));
}

#[test]
fn deleted_directory_is_no_longer_translocated() {
    let service = Service::new();
    let translocated =
        create_secure_directory_for_url(url_at(0x100), None, |p, d| service.create(p, d)).unwrap();
    let at: usize = translocated.as_concrete_type_ref().address;
    assert_eq!(is_translocated_url(url_at(at), |p| service.is_translocated(p)), Ok(true));
    assert_eq!(delete_secure_directory(translocated, |p| service.delete(p)), None);
    assert_eq!(is_translocated_url(url_at(at), |p| service.is_translocated(p)), Ok(false));
}

#[test]
fn failed_deletion_leaves_the_answer_to_the_service() {
    let service = Service::new();
    let outcome = delete_secure_directory(url_at(0x777), |p| service.delete(p));
    assert_eq!(outcome.unwrap().as_concrete_type_ref(), RawRef { address: 0xe2 });
    assert_eq!(is_translocated_url(url_at(0x777), |p| service.is_translocated(p)), Ok(false));
}

#[test]
fn original_of_an_unknown_path_fails_with_the_error() {
    let service = Service::new();
    let result = create_original_path_for_url(url_at(0x100), |p| service.original(p));
    assert_eq!(result.unwrap_err().as_concrete_type_ref(), RawRef { address: 0xe1 });
}

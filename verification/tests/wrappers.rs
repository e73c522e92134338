use std::cell::RefCell;
use std::rc::Rc;

use render_resource::frame::FrameBacked;
use render_resource::handle::ErasedHandle;

/// A native resource stand-in that records into `log` when it is released.
struct Probe {
    name: &'static str,
    log: Rc<RefCell<Vec<&'static str>>>,
}

impl Drop for Probe {
    fn drop(&mut self) {
        self.log.borrow_mut().push(self.name);
    }
}

fn probe(name: &'static str, log: &Rc<RefCell<Vec<&'static str>>>) -> Probe {
    Probe { name, log: Rc::clone(log) }
}

#[test]
fn wrap_and_deref() {
    let h = ErasedHandle::wrap(42u64);
    assert_eq!(*h.get(), 42);
}

#[test]
fn clone_shares_the_resource() {
    let a = ErasedHandle::wrap(String::from("texture"));
    let b = a.clone();
    assert_eq!(b.get(), "texture");
    drop(b);
    // The other clone's dereference stays valid after one clone is dropped.
    assert_eq!(a.get(), "texture");
}

#[test]
fn try_unwrap_sole_owner_returns_resource() {
    let h = ErasedHandle::wrap(42u64);
    assert_eq!(h.try_unwrap(), Some(42));
}

#[test]
fn try_unwrap_with_other_clone_returns_nothing() {
    let a = ErasedHandle::wrap(String::from("texture"));
    let b = a.clone();
    assert_eq!(b.try_unwrap(), None);
    // The resource is intact and usable through the remaining clone, and
    // reclaimable once that clone is the sole owner.
    assert_eq!(a.get(), "texture");
    assert_eq!(a.try_unwrap(), Some(String::from("texture")));
}

#[test]
fn clone_then_drop_keeps_resource_unreleased() {
    let log = Rc::new(RefCell::new(Vec::new()));
    let a = ErasedHandle::wrap(probe("resource", &log));
    let b = a.clone();
    drop(b);
    assert!(log.borrow().is_empty());
    drop(a);
    assert_eq!(*log.borrow(), ["resource"]);
}

#[test]
fn take_frame_sole_owner_returns_frame() {
    let pair = FrameBacked::new(7u64, 9u32);
    assert_eq!(*pair.view(), 7);
    assert_eq!(pair.take_frame(), Some(9));
}

#[test]
fn take_frame_with_other_clone_returns_nothing() {
    let pair = FrameBacked::new(7u64, 9u32);
    let shared = pair.clone();
    assert_eq!(pair.take_frame(), None);
    // The frame stays owned and reclaimable through the remaining clone.
    assert_eq!(*shared.view(), 7);
    assert_eq!(shared.take_frame(), Some(9));
}

#[test]
fn drop_releases_view_before_frame() {
    let log = Rc::new(RefCell::new(Vec::new()));
    let pair = FrameBacked::new(probe("view", &log), probe("frame", &log));
    drop(pair);
    assert_eq!(*log.borrow(), ["view", "frame"]);
}

#[test]
fn take_frame_releases_view_before_returning_frame() {
    let log = Rc::new(RefCell::new(Vec::new()));
    let pair = FrameBacked::new(probe("view", &log), probe("frame", &log));
    let frame = pair.take_frame();
    // The view was released inside take_frame; the frame is alive, returned.
    assert_eq!(*log.borrow(), ["view"]);
    let frame = frame.expect("sole owner reclaims the frame");
    assert_eq!(frame.name, "frame");
    drop(frame);
    assert_eq!(*log.borrow(), ["view", "frame"]);
}

#[test]
fn failed_take_frame_releases_only_its_own_view_reference() {
    let log = Rc::new(RefCell::new(Vec::new()));
    let pair = FrameBacked::new(probe("view", &log), probe("frame", &log));
    let shared = pair.clone();
    assert!(pair.take_frame().is_none());
    // Both resources are still shared with the surviving clone: nothing was
    // released.
    assert!(log.borrow().is_empty());
    drop(shared);
    assert_eq!(*log.borrow(), ["view", "frame"]);
}

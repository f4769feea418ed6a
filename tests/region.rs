use shm::error::{open_error, EEXIST, ENOENT};
use shm::region::{teardown, Stage};
use shm::{setup_for, Action, Error, Event, Role, Setup, Shareable};

#[derive(Default)]
struct Pod {
    _a: u64,
    _b: u32,
}

impl Shareable for Pod {}

#[derive(Default)]
struct Empty;

impl Shareable for Empty {}

fn run(role: Role, len: usize, align: usize, events: &[Event]) -> Vec<Action> {
    let (mut s, mut a) = Setup::begin(role, len, align);
    let mut actions = vec![a];
    for e in events {
        let (s2, a2) = s.next(*e);
        s = s2;
        a = a2;
        actions.push(a);
    }
    let _ = a;
    actions
}

#[test]
fn create_runs_every_step_in_order() {
    let acts = run(
        Role::Create,
        16,
        8,
        &[Event::Done, Event::Done, Event::Mapped(4096), Event::Done],
    );
    assert_eq!(
        acts,
        vec![
            Action::OpenName { exclusive: true },
            Action::Resize { size: 16 },
            Action::MapRegion { len: 16 },
            Action::Initialize,
            Action::Ready,
        ]
    );
}

#[test]
fn open_checks_length_and_never_initializes() {
    let acts = run(Role::Open, 16, 8, &[Event::Done, Event::Length(16), Event::Mapped(8192)]);
    assert_eq!(
        acts,
        vec![
            Action::OpenName { exclusive: false },
            Action::QueryLength,
            Action::MapRegion { len: 16 },
            Action::Ready,
        ]
    );
}

#[test]
fn opening_missing_name_is_no_such_name() {
    let acts = run(Role::Open, 16, 8, &[Event::Failed(ENOENT)]);
    assert_eq!(acts.last(), Some(&Action::Fail(Error::NoSuchName)));
}

#[test]
fn creating_existing_name_is_name_in_use() {
    let acts = run(Role::Create, 16, 8, &[Event::Failed(EEXIST)]);
    assert_eq!(acts, vec![Action::OpenName { exclusive: true }, Action::Fail(Error::NameInUse)]);
}

#[test]
fn open_with_other_size_is_length_mismatch() {
    let acts = run(Role::Open, 16, 8, &[Event::Done, Event::Length(24)]);
    assert_eq!(acts.last(), Some(&Action::Fail(Error::LengthMismatch)));
}

#[test]
fn failed_length_query_is_status_error() {
    let acts = run(Role::Open, 16, 8, &[Event::Done, Event::Failed(9)]);
    assert_eq!(acts.last(), Some(&Action::Fail(Error::Status(9))));
}

#[test]
fn failed_resize_unlinks_before_failing() {
    let acts = run(Role::Create, 16, 8, &[Event::Done, Event::Failed(28), Event::Done]);
    assert_eq!(
        acts[2..].to_vec(),
        vec![Action::Unlink, Action::Fail(Error::Resize(28))]
    );
}

#[test]
fn misaligned_mapping_unmaps_then_unlinks() {
    let acts = run(
        Role::Create,
        16,
        8,
        &[Event::Done, Event::Done, Event::Mapped(4100), Event::Done, Event::Done],
    );
    assert_eq!(
        acts[3..].to_vec(),
        vec![Action::Unmap, Action::Unlink, Action::Fail(Error::AlignmentMismatch)]
    );
}

#[test]
fn misaligned_mapping_of_opener_only_unmaps() {
    let acts = run(Role::Open, 16, 8, &[Event::Done, Event::Length(16), Event::Mapped(4100), Event::Done]);
    assert_eq!(acts[3..].to_vec(), vec![Action::Unmap, Action::Fail(Error::AlignmentMismatch)]);
    assert!(!acts.contains(&Action::Unlink));
}

#[test]
fn failed_mapping_of_creator_unlinks() {
    let acts = run(Role::Create, 16, 8, &[Event::Done, Event::Done, Event::Failed(12), Event::Done]);
    assert_eq!(acts[3..].to_vec(), vec![Action::Unlink, Action::Fail(Error::Mmap(12))]);
}

#[test]
fn null_mapping_is_a_map_error() {
    let acts = run(Role::Open, 16, 8, &[Event::Done, Event::Length(16), Event::Mapped(0)]);
    assert_eq!(acts.last(), Some(&Action::Fail(Error::Mmap(0))));
}

#[test]
fn failed_sync_after_initialization_is_not_fatal() {
    let acts = run(
        Role::Create,
        16,
        8,
        &[Event::Done, Event::Done, Event::Mapped(4096), Event::Failed(5)],
    );
    assert_eq!(acts.last(), Some(&Action::Ready));
}

#[test]
fn empty_or_huge_size_is_invalid_length() {
    let (s, a) = Setup::begin(Role::Create, 0, 1);
    assert_eq!(a, Action::Fail(Error::InvalidLength));
    assert_eq!(s.stage, Stage::Finished);
    let (_, a) = Setup::begin(Role::Open, usize::MAX, 1);
    assert_eq!(a, Action::Fail(Error::InvalidLength));
    let (_, a) = Setup::begin(Role::Create, 0x7fff_ffff_ffff_ffff, 1);
    assert_eq!(a, Action::OpenName { exclusive: true });
}

#[test]
fn zero_sized_type_is_rejected() {
    let (_, a) = setup_for::<Empty>(Role::Create);
    assert_eq!(a, Action::Fail(Error::InvalidLength));
}

#[test]
fn typed_setup_uses_size_and_alignment() {
    let (s, a) = setup_for::<Pod>(Role::Create);
    assert_eq!(s.len, std::mem::size_of::<Pod>());
    assert_eq!(s.align, std::mem::align_of::<Pod>());
    assert_eq!(a, Action::OpenName { exclusive: true });
}

#[test]
fn teardown_unmaps_before_unlinking() {
    assert_eq!(teardown(Role::Create), vec![Action::Flush, Action::Unmap, Action::Unlink]);
    assert_eq!(teardown(Role::Open), vec![Action::Flush, Action::Unmap]);
}

#[test]
fn open_errors_depend_on_role() {
    assert_eq!(open_error(true, EEXIST), Error::NameInUse);
    assert_eq!(open_error(false, EEXIST), Error::Open(EEXIST));
    assert_eq!(open_error(false, ENOENT), Error::NoSuchName);
    assert_eq!(open_error(true, ENOENT), Error::Open(ENOENT));
    assert_eq!(Error::Resize(28).os_code(), Some(28));
    assert_eq!(Error::LengthMismatch.os_code(), None);
    assert_eq!(Error::LengthMismatch.message(), "shared memory region length differs from object");
}

#[test]
fn each_error_has_its_message() {
    assert_eq!(Error::AlignmentMismatch.message(), "shared memory region doesn't support object alignment");
    assert_eq!(Error::LengthMismatch.message(), "shared memory region length differs from object");
    assert_eq!(Error::Open(2).message(), "unable to open shared memory region");
    assert_eq!(Error::Resize(28).message(), "unable to resize shared memory region");
    assert_eq!(Error::Mmap(12).message(), "unable to map shared object");
    assert_eq!(Error::NameInUse.message(), "shared memory name is already in use");
    assert_eq!(Error::NoSuchName.message(), "no shared memory region has this name");
    assert_eq!(Error::Status(9).message(), "unable to query the length of shared memory region");
    assert_eq!(
        Error::InvalidLength.message(),
        "object size is zero or too large for a shared memory region"
    );
}

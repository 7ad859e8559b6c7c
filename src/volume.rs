use vstd::prelude::*;
use vstd::string::StringSliceAdditionalSpecFns;

use crate::card::{card_release_order, SdmmcCard};
use crate::protocol::{code_of, status_code, Action, Next, Outcome, SetupError};
use crate::resource::{
    keep_held, lemma_released_step, lemma_set_of_push, lemma_unwind_empties, released, set_of,
    unwind_list, Resource,
};

verus! {

/// Geometry of a mounted FAT volume.
#[derive(PartialEq, Eq, Structural, Clone, Copy, Debug, Default)]
pub struct FatFsStatistics {
    pub sectors_per_cluster: u16,
    pub sectors_per_fat: u32,
    pub sector_size: u16,
}

/// Most files the file-system layer keeps open at once on the mount point.
pub const MAX_OPEN_FILES: u8 = 8;

/// Partition option of a mount: mount at once, from the first partition.
pub const MOUNT_PARTITION: u8 = 1;

/// Option of an unmount: release the volume at once.
pub const UNMOUNT_OPTION: u8 = 0;

/// The registry's value for "no free slot".
pub const NO_DRIVE: u8 = 0xFF;

/// Steps of a mount: copying the descriptor (0), claiming a drive slot (1),
/// registering the copy (2), binding the mount point (3) and mounting (4).
pub const MOUNT_STEPS: usize = 5;

/// The drive-name token of a logical drive: the byte `'0'` plus its index
/// (wrapping past 255), a colon and a NUL.
pub open spec fn spec_drive_name(d: u8) -> Seq<u8> {
    seq![((0x30 + d) % 0x100) as u8, 0x3a, 0]
}

/// A mount point that the file-system layer can take: no NUL byte in it.
pub open spec fn path_ok(p: Seq<u8>) -> bool {
    !p.contains(0u8)
}

/// The action of mount step `k` on drive `d`.
pub open spec fn mount_action(k: int, d: u8) -> Action {
    if k == 0 {
        Action::AllocCopy
    } else if k == 1 {
        Action::GetFreeDrive
    } else if k == 2 {
        Action::RegisterDisk(d)
    } else if k == 3 {
        Action::VfsRegister { drive: d, max_files: MAX_OPEN_FILES }
    } else {
        Action::MountVolume { drive: d, partition: MOUNT_PARTITION }
    }
}

/// What a mount holds once its first `k` steps have succeeded, on drive `d`.
pub open spec fn mount_held_before(k: int, d: u8) -> Set<Resource> {
    Set::new(
        |r: Resource|
            match r {
                Resource::CardCopy => k > 0,
                Resource::DiskSlot(x) => k > 2 && x == d,
                Resource::MountPath => k > 3,
                Resource::Volume(x) => k > 4 && x == d,
                _ => false,
            },
    )
}

/// The order in which a mount on drive `d` gives back what it holds: unmount,
/// clear the drive slot, unbind the mount point, free the descriptor copy.
pub open spec fn mount_release_order(d: u8) -> Seq<Resource> {
    seq![Resource::Volume(d), Resource::DiskSlot(d), Resource::MountPath, Resource::CardCopy]
}

/// Whether outcome `o` is success for mount step `k`.
pub open spec fn mount_succeeds(k: int, o: Outcome) -> bool {
    if k == 1 {
        o is Drive && o->Drive_0 != NO_DRIVE
    } else if k == 2 {
        true
    } else if k == 4 {
        o is Mounted
    } else {
        o == Outcome::Status(0)
    }
}

/// The drive slot carried by an outcome ([`NO_DRIVE`] where it carries none).
pub open spec fn drive_of(o: Outcome) -> u8 {
    match o {
        Outcome::Drive(d) => d,
        _ => NO_DRIVE,
    }
}

/// The error reported when mount step `k` fails with outcome `o`.
pub open spec fn mount_error(k: int, o: Outcome) -> SetupError {
    if k == 0 {
        SetupError::OutOfMemory
    } else if k == 1 {
        SetupError::NoFreeDrive { code: code_of(o), drive: drive_of(o) }
    } else if k == 3 {
        SetupError::VfsRegister(code_of(o))
    } else {
        SetupError::Mount(code_of(o))
    }
}

/// The abstract state of a mount.
pub struct MountSetupModel {
    pub card: SdmmcCard,
    /// The mount point, as bytes.
    pub path: Seq<u8>,
    /// Index of the next step; `MOUNT_STEPS` once all succeeded.
    pub step: nat,
    /// The claimed drive slot, once step 1 succeeded.
    pub drive: u8,
    /// The error, once a step failed (that step is `step`).
    pub failure: Option<SetupError>,
    /// The releases owed after the failure, in order.
    pub unwind: Seq<Resource>,
    /// How many of those have been performed.
    pub undone: nat,
    /// The geometry of the mounted volume, once mounted.
    pub stats: FatFsStatistics,
}

/// Consistency of a mount state.
pub open spec fn mount_model_ok(m: MountSetupModel) -> bool {
    &&& m.step <= MOUNT_STEPS
    &&& match m.failure {
        None => m.unwind.len() == 0 && m.undone == 0,
        Some(_) => {
            &&& m.step < MOUNT_STEPS
            &&& m.unwind == keep_held(
                mount_release_order(m.drive),
                mount_held_before(m.step as int, m.drive),
            )
            &&& m.undone <= m.unwind.len()
        },
    }
}

/// What a mount in state `m` holds (the session it carries aside).
pub open spec fn mount_holding(m: MountSetupModel) -> Set<Resource> {
    match m.failure {
        None => mount_held_before(m.step as int, m.drive),
        Some(_) => released(
            mount_held_before(m.step as int, m.drive),
            m.unwind.subrange(0, m.undone as int),
        ),
    }
}

/// What a mount in state `m` asks for.
pub open spec fn mount_next(m: MountSetupModel) -> Next {
    match m.failure {
        None => if m.step < MOUNT_STEPS {
            Next::Perform(mount_action(m.step as int, m.drive))
        } else {
            Next::Ready
        },
        Some(e) => if m.undone < m.unwind.len() {
            Next::Perform(Action::Release(m.unwind[m.undone as int]))
        } else {
            Next::Failed(e)
        },
    }
}

/// The state that unwinds what `m` holds after error `e` at its step.
pub open spec fn mount_fail(m: MountSetupModel, e: SetupError) -> MountSetupModel {
    MountSetupModel {
        failure: Some(e),
        unwind: keep_held(mount_release_order(m.drive), mount_held_before(m.step as int, m.drive)),
        undone: 0,
        ..m
    }
}

/// The state after outcome `o` of what state `m` asked for. Once the drive
/// slot is registered, a mount point that holds a NUL byte fails the mount.
pub open spec fn mount_after(m: MountSetupModel, o: Outcome) -> MountSetupModel {
    match m.failure {
        None => if m.step >= MOUNT_STEPS {
            m
        } else if !mount_succeeds(m.step as int, o) {
            mount_fail(m, mount_error(m.step as int, o))
        } else if m.step == 2 && !path_ok(m.path) {
            mount_fail(MountSetupModel { step: 3, ..m }, SetupError::InvalidPath)
        } else {
            MountSetupModel {
                step: m.step + 1,
                drive: if m.step == 1 { o->Drive_0 } else { m.drive },
                stats: if m.step == 4 { o->Mounted_0 } else { m.stats },
                ..m
            }
        },
        Some(_) => if m.undone < m.unwind.len() {
            MountSetupModel { undone: m.undone + 1, ..m }
        } else {
            m
        },
    }
}

/// Everything a mount can hold is named in its release order.
pub proof fn lemma_mount_release_covers(k: int, d: u8)
    ensures
        mount_held_before(k, d).subset_of(set_of(mount_release_order(d))),
{
    let order = mount_release_order(d);
    assert forall|r: Resource| mount_held_before(k, d).contains(r) implies set_of(order).contains(
        r,
    ) by {
        match r {
            Resource::Volume(_) => {
                assert(order[0] == r);
            },
            Resource::DiskSlot(_) => {
                assert(order[1] == r);
            },
            Resource::MountPath => {
                assert(order[2] == r);
            },
            Resource::CardCopy => {
                assert(order[3] == r);
            },
            _ => {},
        }
    }
}

/// Whatever step of a mount fails, unwinding gives back everything that the
/// steps before it acquired: the descriptor copy is freed, the drive slot is
/// cleared and the mount point is unbound.
pub proof fn lemma_mount_failure_leaks_nothing(k: int, d: u8)
    requires
        0 <= k < MOUNT_STEPS,
    ensures
        released(
            mount_held_before(k, d),
            keep_held(mount_release_order(d), mount_held_before(k, d)),
        ) == Set::<Resource>::empty(),
{
    lemma_mount_release_covers(k, d);
    lemma_unwind_empties(mount_release_order(d), mount_held_before(k, d));
}

/// Builds the release order of a mount on drive `d`.
pub fn mount_release_list(d: u8) -> (r: Vec<Resource>)
    ensures
        r@ == mount_release_order(d),
{
    let mut r: Vec<Resource> = Vec::new();
    r.push(Resource::Volume(d));
    r.push(Resource::DiskSlot(d));
    r.push(Resource::MountPath);
    r.push(Resource::CardCopy);
    assert(r@ =~= mount_release_order(d));
    r
}

/// Builds the drive-name token of a logical drive.
pub fn drive_name(d: u8) -> (r: [u8; 3])
    ensures
        r@ == spec_drive_name(d),
{
    let digit = 0x30u8.wrapping_add(d);
    let r: [u8; 3] = [digit, 0x3a, 0];
    assert(r@ =~= spec_drive_name(d));
    r
}

/// The bytes of a mount point, and whether it is free of NUL bytes.
fn path_bytes(s: &str) -> (r: (Vec<u8>, bool))
    ensures
        r.0@ == s.spec_bytes(),
        r.1 == path_ok(s.spec_bytes()),
{
    let b = s.as_bytes();
    let mut v: Vec<u8> = Vec::new();
    let mut ok = true;
    let mut i: usize = 0;
    while i < b.len()
        invariant
            i <= b@.len(),
            b@ == s.spec_bytes(),
            v@ == b@.subrange(0, i as int),
            ok == !v@.contains(0u8),
        decreases b.len() - i,
    {
        let x = b[i];
        if x == 0 {
            ok = false;
        }
        proof {
            if ok {
                assert forall|j: int| 0 <= j < v@.push(x).len() implies v@.push(x)[j] != 0u8 by {
                    if j < v@.len() {
                        assert(v@[j] == v@.push(x)[j]);
                    }
                }
            } else {
                if x == 0 {
                    assert(v@.push(x)[v@.len() as int] == 0u8);
                } else {
                    let j = choose|j: int| 0 <= j < v@.len() && v@[j] == 0u8;
                    assert(v@.push(x)[j] == 0u8);
                }
            }
        }
        v.push(x);
        i = i + 1;
        assert(v@ =~= b@.subrange(0, i as int));
    }
    assert(b@.subrange(0, b@.len() as int) =~= b@);
    (v, ok)
}

/// Mounting of a card session's FAT volume: copies the card descriptor,
/// claims and registers a drive slot, binds the mount point and mounts, and
/// on any failure gives back what it acquired and hands the session back.
pub struct MountSetup {
    card: SdmmcCard,
    path: Vec<u8>,
    path_ok: bool,
    step: usize,
    drive: u8,
    held: Vec<Resource>,
    unwind: Vec<Resource>,
    undone: usize,
    failure: Option<SetupError>,
    stats: FatFsStatistics,
}

impl View for MountSetup {
    type V = MountSetupModel;

    closed spec fn view(&self) -> MountSetupModel {
        MountSetupModel {
            card: self.card,
            path: self.path@,
            step: self.step as nat,
            drive: self.drive,
            failure: self.failure,
            unwind: self.unwind@,
            undone: self.undone as nat,
            stats: self.stats,
        }
    }
}

impl MountSetup {
    /// The mount is consistent.
    pub closed spec fn wf(&self) -> bool {
        &&& mount_model_ok(self@)
        &&& self.path_ok == path_ok(self.path@)
        &&& self.failure is None ==> set_of(self.held@) == mount_held_before(
            self.step as int,
            self.drive,
        )
    }

    /// Starts a mount of `card` at `mount_point`, with nothing acquired.
    pub fn new(card: SdmmcCard, mount_point: &str) -> (r: MountSetup)
        ensures
            r.wf(),
            r@.card == card,
            r@.path == mount_point.spec_bytes(),
            r@.step == 0,
            r@.failure is None,
            mount_holding(r@) == Set::<Resource>::empty(),
    {
        let (path, ok) = path_bytes(mount_point);
        let r = MountSetup {
            card,
            path,
            path_ok: ok,
            step: 0,
            drive: 0,
            held: Vec::new(),
            unwind: Vec::new(),
            undone: 0,
            failure: None,
            stats: FatFsStatistics { sectors_per_cluster: 0, sectors_per_fat: 0, sector_size: 0 },
        };
        assert(set_of(r.held@) =~= mount_held_before(0, 0));
        assert(mount_holding(r@) =~= Set::<Resource>::empty());
        r
    }

    /// The claimed drive slot (meaningful once `GetFreeDrive` succeeded).
    pub fn drive(&self) -> (r: u8)
        ensures
            r == self@.drive,
    {
        self.drive
    }

    /// The drive-name token of the claimed slot.
    pub fn drive_name(&self) -> (r: [u8; 3])
        ensures
            r@ == spec_drive_name(self@.drive),
    {
        drive_name(self.drive)
    }

    /// The mount point as the file-system layer takes it: its bytes and a NUL.
    pub fn mount_path(&self) -> (r: Vec<u8>)
        ensures
            r@ == self@.path.push(0),
    {
        let mut r = self.path.clone();
        r.push(0);
        r
    }

    /// What to do next. A mount that reports failure holds nothing; one that
    /// is ready holds its volume, drive slot, mount point and descriptor copy.
    pub fn next(&self) -> (r: Next)
        requires
            self.wf(),
        ensures
            r == mount_next(self@),
            mount_consistent(mount_holding(self@), self@.drive),
            r is Failed ==> mount_holding(self@) == Set::<Resource>::empty(),
            r is Ready ==> mount_holding(self@) == mount_held_before(
                MOUNT_STEPS as int,
                self@.drive,
            ),
    {
        proof {
            if self.failure is None {
                lemma_mount_order(self.step as int, 0, self.drive);
            } else {
                lemma_mount_unwind_order(self.step as int, self.undone as int, self.drive);
            }
        }
        match self.failure {
            None => {
                if self.step < MOUNT_STEPS {
                    Next::Perform(mount_action_at(self.step, self.drive))
                } else {
                    Next::Ready
                }
            },
            Some(e) => {
                if self.undone < self.unwind.len() {
                    Next::Perform(Action::Release(self.unwind[self.undone]))
                } else {
                    proof {
                        assert(self.unwind@.subrange(0, self.undone as int) =~= self.unwind@);
                        lemma_mount_failure_leaks_nothing(self.step as int, self.drive);
                    }
                    Next::Failed(e)
                }
            },
        }
    }

    /// Starts unwinding after error `e` at the current step.
    fn fail(&mut self, e: SetupError)
        requires
            old(self).wf(),
            old(self).failure is None,
            old(self).step < MOUNT_STEPS,
        ensures
            final(self).wf(),
            final(self)@ == mount_fail(old(self)@, e),
    {
        let order = mount_release_list(self.drive);
        self.unwind = unwind_list(&order, &self.held);
        self.undone = 0;
        self.failure = Some(e);
    }

    /// Takes the outcome of the action that `next` asked for.
    pub fn report(&mut self, o: Outcome)
        requires
            old(self).wf(),
        ensures
            final(self).wf(),
            final(self)@ == mount_after(old(self)@, o),
    {
        match self.failure {
            None => {
                if self.step >= MOUNT_STEPS {
                    return ;
                }
                let step = self.step;
                let ok = match o {
                    Outcome::Drive(d) => step == 2 || (step == 1 && d != NO_DRIVE),
                    Outcome::Mounted(_) => step == 2 || step == 4,
                    Outcome::Status(c) => step == 2 || (step != 1 && step != 4 && c == 0),
                    _ => step == 2,
                };
                if !ok {
                    let e = mount_error_at(step, &o);
                    self.fail(e);
                    return ;
                }
                proof {
                    lemma_set_of_push(self.held@, Resource::CardCopy);
                    lemma_set_of_push(self.held@, Resource::DiskSlot(self.drive));
                    lemma_set_of_push(self.held@, Resource::MountPath);
                    lemma_set_of_push(self.held@, Resource::Volume(self.drive));
                }
                if step == 0 {
                    self.held.push(Resource::CardCopy);
                } else if step == 1 {
                    if let Outcome::Drive(d) = o {
                        self.drive = d;
                    }
                } else if step == 2 {
                    self.held.push(Resource::DiskSlot(self.drive));
                } else if step == 3 {
                    self.held.push(Resource::MountPath);
                } else {
                    self.held.push(Resource::Volume(self.drive));
                    if let Outcome::Mounted(st) = o {
                        self.stats = st;
                    }
                }
                self.step = step + 1;
                assert(set_of(self.held@) =~= mount_held_before(self.step as int, self.drive));
                if step == 2 && !self.path_ok {
                    self.fail(SetupError::InvalidPath);
                }
            },
            Some(_) => {
                if self.undone < self.unwind.len() {
                    proof {
                        lemma_released_step(
                            mount_held_before(self.step as int, self.drive),
                            self.unwind@,
                            self.undone as int,
                        );
                    }
                    self.undone = self.undone + 1;
                }
            },
        }
    }

    /// Ends the mount: the mounted volume, which now owns the session; or the
    /// error that ended it, with the session handed back untouched.
    pub fn finish(self) -> (r: Result<MountedFat, (SetupError, SdmmcCard)>)
        requires
            self.wf(),
            mount_next(self@) is Ready || mount_next(self@) is Failed,
        ensures
            mount_next(self@) is Ready ==> r is Ok && r->Ok_0@ == (MountedFatModel {
                card: self@.card,
                drive: self@.drive,
                path: self@.path,
                stats: self@.stats,
            }),
            mount_next(self@) is Failed ==> r is Err && r->Err_0 == (
                self@.failure.unwrap(),
                self@.card,
            ),
    {
        match self.failure {
            None => Ok(
                MountedFat { card: self.card, drive: self.drive, path: self.path, stats: self.stats },
            ),
            Some(e) => Err((e, self.card)),
        }
    }
}

/// Computes [`mount_action`].
fn mount_action_at(k: usize, d: u8) -> (r: Action)
    requires
        k < MOUNT_STEPS,
    ensures
        r == mount_action(k as int, d),
{
    if k == 0 {
        Action::AllocCopy
    } else if k == 1 {
        Action::GetFreeDrive
    } else if k == 2 {
        Action::RegisterDisk(d)
    } else if k == 3 {
        Action::VfsRegister { drive: d, max_files: MAX_OPEN_FILES }
    } else {
        Action::MountVolume { drive: d, partition: MOUNT_PARTITION }
    }
}

/// Computes [`mount_error`].
fn mount_error_at(k: usize, o: &Outcome) -> (r: SetupError)
    requires
        k < MOUNT_STEPS,
    ensures
        r == mount_error(k as int, *o),
{
    let code = status_code(o);
    if k == 0 {
        SetupError::OutOfMemory
    } else if k == 1 {
        let drive = match o {
            Outcome::Drive(d) => *d,
            _ => NO_DRIVE,
        };
        SetupError::NoFreeDrive { code, drive }
    } else if k == 3 {
        SetupError::VfsRegister(code)
    } else {
        SetupError::Mount(code)
    }
}

/// The abstract state of a mounted volume.
pub struct MountedFatModel {
    pub card: SdmmcCard,
    pub drive: u8,
    pub path: Seq<u8>,
    pub stats: FatFsStatistics,
}

/// A mounted FAT volume. It owns its card session: the session is given back
/// only by the volume's own release plan, after the volume's resources.
pub struct MountedFat {
    card: SdmmcCard,
    drive: u8,
    path: Vec<u8>,
    stats: FatFsStatistics,
}

impl View for MountedFat {
    type V = MountedFatModel;

    closed spec fn view(&self) -> MountedFatModel {
        MountedFatModel { card: self.card, drive: self.drive, path: self.path@, stats: self.stats }
    }
}

/// The releases that end a mounted volume: its own, then its session's.
pub open spec fn volume_release_order(m: MountedFatModel) -> Seq<Resource> {
    mount_release_order(m.drive) + card_release_order()
}

/// A consistent set of mount resources on drive `d`: a mounted volume only
/// with its drive slot registered and its mount point bound, and a drive slot
/// or a mount point only with the descriptor copy they refer to.
pub open spec fn mount_consistent(h: Set<Resource>, d: u8) -> bool {
    &&& h.contains(Resource::Volume(d)) ==> h.contains(Resource::DiskSlot(d)) && h.contains(
        Resource::MountPath,
    )
    &&& h.contains(Resource::DiskSlot(d)) ==> h.contains(Resource::CardCopy)
    &&& h.contains(Resource::MountPath) ==> h.contains(Resource::CardCopy)
}

/// A mount is consistent after each step of its acquisition, and after each
/// release of its teardown: the volume is unmounted before the drive slot is
/// cleared, and the slot is cleared before the descriptor copy is freed.
pub proof fn lemma_mount_order(k: int, n: int, d: u8)
    requires
        0 <= k <= MOUNT_STEPS,
        0 <= n <= 4,
    ensures
        mount_consistent(mount_held_before(k, d), d),
        mount_consistent(
            released(mount_held_before(MOUNT_STEPS as int, d), mount_release_order(d).subrange(0, n)),
            d,
        ),
{
    let h = mount_held_before(MOUNT_STEPS as int, d);
    let order = mount_release_order(d);
    assert(released(h, order.subrange(0, 0)) == h);
    lemma_released_step(h, order, 0);
    lemma_released_step(h, order, 1);
    lemma_released_step(h, order, 2);
    lemma_released_step(h, order, 3);
}

/// The releases owed when mount step `k` fails, written out.
pub proof fn lemma_mount_unwind_plan(k: int, d: u8)
    requires
        0 <= k < MOUNT_STEPS,
    ensures
        keep_held(mount_release_order(d), mount_held_before(k, d)) == (if k == 0 {
            Seq::<Resource>::empty()
        } else if k <= 2 {
            seq![Resource::CardCopy]
        } else if k == 3 {
            seq![Resource::DiskSlot(d), Resource::CardCopy]
        } else {
            seq![Resource::DiskSlot(d), Resource::MountPath, Resource::CardCopy]
        }),
{
    let o = mount_release_order(d);
    let h = mount_held_before(k, d);
    assert(o.drop_last() =~= seq![Resource::Volume(d), Resource::DiskSlot(d), Resource::MountPath]);
    assert(o.drop_last().drop_last() =~= seq![Resource::Volume(d), Resource::DiskSlot(d)]);
    assert(o.drop_last().drop_last().drop_last() =~= seq![Resource::Volume(d)]);
    assert(o.drop_last().drop_last().drop_last().drop_last() =~= Seq::<Resource>::empty());
    let k0 = keep_held(o.drop_last().drop_last().drop_last().drop_last(), h);
    let k1 = keep_held(o.drop_last().drop_last().drop_last(), h);
    let k2 = keep_held(o.drop_last().drop_last(), h);
    let k3 = keep_held(o.drop_last(), h);
    assert(k0 == Seq::<Resource>::empty());
    assert(k1 =~= k0);
    if k > 2 {
        assert(k2 =~= seq![Resource::DiskSlot(d)]);
    } else {
        assert(k2 =~= k0);
    }
    if k > 3 {
        assert(k3 =~= k2.push(Resource::MountPath));
    } else {
        assert(k3 =~= k2);
    }
    if k > 0 {
        assert(keep_held(o, h) =~= k3.push(Resource::CardCopy));
    } else {
        assert(keep_held(o, h) =~= k3);
    }
}

/// Unwinding a failed mount keeps it consistent after each release: the
/// drive slot is cleared and the mount point unbound before the copy is freed.
pub proof fn lemma_mount_unwind_order(k: int, n: int, d: u8)
    requires
        0 <= k < MOUNT_STEPS,
        0 <= n <= keep_held(mount_release_order(d), mount_held_before(k, d)).len(),
    ensures
        mount_consistent(
            released(
                mount_held_before(k, d),
                keep_held(mount_release_order(d), mount_held_before(k, d)).subrange(0, n),
            ),
            d,
        ),
{
    lemma_mount_unwind_plan(k, d);
    let h = mount_held_before(k, d);
    let u = keep_held(mount_release_order(d), h);
    assert(released(h, u.subrange(0, 0)) == h);
    if u.len() > 0 {
        lemma_released_step(h, u, 0);
    }
    if u.len() > 1 {
        lemma_released_step(h, u, 1);
    }
    if u.len() > 2 {
        lemma_released_step(h, u, 2);
    }
}

/// A mounted volume's release plan ends with exactly its session's release
/// plan, after all of the volume's own releases.
pub proof fn lemma_session_released_last(m: MountedFatModel)
    ensures
        volume_release_order(m).subrange(0, 4) == mount_release_order(m.drive),
        volume_release_order(m).subrange(4, volume_release_order(m).len() as int)
            == card_release_order(),
{
    assert(volume_release_order(m).subrange(0, 4) =~= mount_release_order(m.drive));
    assert(volume_release_order(m).subrange(4, volume_release_order(m).len() as int)
        =~= card_release_order());
}

impl MountedFat {
    /// The drive-name token of the volume's logical drive.
    pub fn drive_name(&self) -> (r: [u8; 3])
        ensures
            r@ == spec_drive_name(self@.drive),
    {
        drive_name(self.drive)
    }

    /// Geometry of the mounted volume.
    pub fn statistics(&self) -> (r: FatFsStatistics)
        ensures
            r == self@.stats,
    {
        self.stats
    }

    /// The logical drive the volume is mounted on.
    pub fn drive(&self) -> (r: u8)
        ensures
            r == self@.drive,
    {
        self.drive
    }

    /// The card session the volume owns.
    pub fn card(&self) -> (r: &SdmmcCard)
        ensures
            *r == self@.card,
    {
        &self.card
    }

    /// The mount point as the file-system layer takes it: its bytes and a NUL.
    pub fn mount_path(&self) -> (r: Vec<u8>)
        ensures
            r@ == self@.path.push(0),
    {
        let mut r = self.path.clone();
        r.push(0);
        r
    }

    /// The releases that end the volume, in order: unmount, clear the drive
    /// slot, unbind the mount point, free the descriptor copy, then end the session.
    pub fn release_plan(&self) -> (r: Vec<Resource>)
        ensures
            r@ == volume_release_order(self@),
    {
        let mut r = mount_release_list(self.drive);
        let mut rest = self.card.release_plan();
        r.append(&mut rest);
        r
    }
}

} // verus!

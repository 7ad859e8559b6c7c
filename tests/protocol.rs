use sdmmc_fat::card::{host_config, slot_config, HostConfig, SlotConfig};
use sdmmc_fat::resource::{holds, unwind_list};
use sdmmc_fat::volume::drive_name;
use sdmmc_fat::{
    Action, CardInfo, CardSetup, FatFsStatistics, MountSetup, MountedFat, Next, Outcome,
    Resource, SdPins, SdmmcCard, SetupError,
};

fn pins() -> SdPins {
    SdPins { cmd: 15, clk: 14, d0: 2, d1: 4, d2: 12, d3: 13 }
}

fn info() -> CardInfo {
    CardInfo { capacity: 1_000_000, sector_size: 512, read_block_len: 512 }
}

fn stats() -> FatFsStatistics {
    FatFsStatistics { sectors_per_cluster: 64, sectors_per_fat: 3797, sector_size: 512 }
}

/// A simulated board: what is claimed, and which action is made to fail.
#[derive(Default)]
struct Board {
    foreign_lines: Vec<usize>,
    lines: [bool; 6],
    host: bool,
    records: usize,
    disk: Option<u8>,
    path: bool,
    volume: bool,
    free_drive: u8,
    fail: Option<(Action, Outcome)>,
    log: Vec<Action>,
}

impl Board {
    fn new() -> Board {
        Board { free_drive: 0, ..Default::default() }
    }

    fn idle(&self) -> bool {
        self.lines.iter().all(|l| !l)
            && !self.host
            && self.records == 0
            && self.disk.is_none()
            && !self.path
            && !self.volume
    }

    fn perform(&mut self, a: Action) -> Outcome {
        self.log.push(a);
        if let Some((f, o)) = self.fail {
            if f == a {
                return o;
            }
        }
        match a {
            Action::ClaimPin(i) => {
                let i = i as usize;
                assert!(!self.lines[i], "line claimed twice");
                if self.foreign_lines.contains(&i) {
                    return Outcome::Status(-1);
                }
                self.lines[i] = true;
                Outcome::Status(0)
            }
            Action::HostInit => {
                self.host = true;
                Outcome::Status(0)
            }
            Action::InitSlot => Outcome::Status(0),
            Action::AllocCard | Action::AllocCopy => {
                self.records += 1;
                Outcome::Status(0)
            }
            Action::ProbeCard => Outcome::Card(info()),
            Action::GetFreeDrive => Outcome::Drive(self.free_drive),
            Action::RegisterDisk(d) => {
                self.disk = Some(d);
                Outcome::Status(0)
            }
            Action::VfsRegister { max_files, .. } => {
                assert_eq!(max_files, 8);
                self.path = true;
                Outcome::Status(0)
            }
            Action::MountVolume { partition, .. } => {
                assert_eq!(partition, 1);
                assert!(self.disk.is_some() && self.path);
                self.volume = true;
                Outcome::Mounted(stats())
            }
            Action::Release(r) => {
                self.release(r);
                Outcome::Status(0)
            }
        }
    }

    fn release(&mut self, r: Resource) {
        match r {
            Resource::Pin(i) => {
                assert!(self.lines[i as usize]);
                self.lines[i as usize] = false;
            }
            Resource::Host => {
                assert!(self.host);
                self.host = false;
            }
            Resource::CardRecord | Resource::CardCopy => {
                assert!(self.records > 0);
                self.records -= 1;
            }
            Resource::DiskSlot(d) => {
                assert_eq!(self.disk, Some(d));
                self.disk = None;
            }
            Resource::MountPath => {
                assert!(self.path);
                self.path = false;
            }
            Resource::Volume(_) => {
                assert!(self.volume);
                self.volume = false;
            }
        }
    }
}

fn run_card(board: &mut Board) -> Result<SdmmcCard, SetupError> {
    let mut setup = CardSetup::new(pins());
    loop {
        match setup.next() {
            Next::Perform(a) => {
                let o = board.perform(a);
                setup.report(o);
            }
            Next::Ready | Next::Failed(_) => return setup.finish(),
        }
    }
}

fn run_mount(
    board: &mut Board,
    card: SdmmcCard,
    path: &str,
) -> Result<MountedFat, (SetupError, SdmmcCard)> {
    let mut setup = MountSetup::new(card, path);
    loop {
        match setup.next() {
            Next::Perform(a) => {
                let o = board.perform(a);
                setup.report(o);
            }
            Next::Ready | Next::Failed(_) => return setup.finish(),
        }
    }
}

fn teardown(board: &mut Board, volume: MountedFat) {
    for r in volume.release_plan() {
        board.release(r);
    }
}

fn card_steps() -> Vec<Action> {
    let mut v: Vec<Action> = (0..6).map(|i| Action::ClaimPin(i)).collect();
    v.extend([Action::HostInit, Action::InitSlot, Action::AllocCard, Action::ProbeCard]);
    v
}

#[test]
fn card_session_comes_up() {
    let mut board = Board::new();
    let card = run_card(&mut board).unwrap();
    assert_eq!(board.log, card_steps());
    assert_eq!(card.info, info());
    assert_eq!(card.pins, pins());
    assert_eq!(card.host, host_config());
    assert!(board.lines.iter().all(|l| *l) && board.host && board.records == 1);
}

#[test]
fn pin_claimed_elsewhere_fails_binding() {
    let mut board = Board::new();
    board.foreign_lines.push(2);
    let r = run_card(&mut board);
    assert_eq!(r.unwrap_err(), SetupError::PinClaim { pin: 2, code: -1 });
    assert!(board.idle());
    let tail: Vec<Action> = board.log[3..].to_vec();
    assert_eq!(
        tail,
        vec![Action::Release(Resource::Pin(1)), Action::Release(Resource::Pin(0))]
    );
}

#[test]
fn probe_failure_unwinds_host_and_memory() {
    let mut board = Board::new();
    board.fail = Some((Action::ProbeCard, Outcome::Status(261)));
    let r = run_card(&mut board);
    assert_eq!(r.unwrap_err(), SetupError::CardInit(261));
    assert!(board.idle());
    assert_eq!(board.log[10], Action::Release(Resource::Host));
    assert_eq!(board.log[11], Action::Release(Resource::CardRecord));
    assert_eq!(board.log.len(), 18);
}

#[test]
fn every_failing_card_step_leaks_nothing() {
    for (k, a) in card_steps().into_iter().enumerate() {
        let mut board = Board::new();
        let o = if a == Action::AllocCard { Outcome::OutOfMemory } else { Outcome::Status(7) };
        board.fail = Some((a, o));
        let e = run_card(&mut board).unwrap_err();
        assert!(board.idle(), "step {} leaked", k);
        let expected = match k {
            0..=5 => SetupError::PinClaim { pin: k as u8, code: 7 },
            6 => SetupError::HostInit(7),
            7 => SetupError::InitSlot(7),
            8 => SetupError::OutOfMemory,
            _ => SetupError::CardInit(7),
        };
        assert_eq!(e, expected);
    }
}

#[test]
fn no_free_drive_keeps_session_for_retry() {
    let mut board = Board::new();
    let card = run_card(&mut board).unwrap();
    board.free_drive = 0xFF;
    let (e, card) = run_mount(&mut board, card, "/sdcard").err().unwrap();
    assert_eq!(e, SetupError::NoFreeDrive { code: 0, drive: 0xFF });
    assert_eq!(board.records, 1);
    assert!(board.disk.is_none() && !board.path);
    board.free_drive = 1;
    let volume = run_mount(&mut board, card, "/sd").ok().unwrap();
    assert_eq!(volume.drive(), 1);
    assert_eq!(volume.mount_path(), b"/sd\0".to_vec());
}

#[test]
fn drive_status_error_is_reported() {
    let mut board = Board::new();
    let card = run_card(&mut board).unwrap();
    board.fail = Some((Action::GetFreeDrive, Outcome::Status(0x105)));
    let (e, _) = run_mount(&mut board, card, "/sdcard").err().unwrap();
    assert_eq!(e, SetupError::NoFreeDrive { code: 0x105, drive: 0xFF });
    assert_eq!(board.records, 1);
}

#[test]
fn mount_and_teardown_in_order() {
    let mut board = Board::new();
    board.free_drive = 0;
    let card = run_card(&mut board).unwrap();
    let volume = run_mount(&mut board, card, "/sdcard").ok().unwrap();
    assert_eq!(volume.drive_name(), [b'0', b':', 0]);
    assert_eq!(volume.statistics(), stats());
    assert!(board.volume && board.path && board.disk == Some(0) && board.records == 2);
    let plan = volume.release_plan();
    let mut expected = vec![
        Resource::Volume(0),
        Resource::DiskSlot(0),
        Resource::MountPath,
        Resource::CardCopy,
        Resource::Host,
        Resource::CardRecord,
    ];
    for i in (0..6).rev() {
        expected.push(Resource::Pin(i));
    }
    assert_eq!(plan, expected);
    teardown(&mut board, volume);
    assert!(board.idle());
}

#[test]
fn every_failing_mount_step_leaks_nothing() {
    let cases = [
        (Action::AllocCopy, Outcome::OutOfMemory, SetupError::OutOfMemory),
        (Action::GetFreeDrive, Outcome::Drive(0xFF), SetupError::NoFreeDrive { code: 0, drive: 0xFF }),
        (
            Action::VfsRegister { drive: 0, max_files: 8 },
            Outcome::Status(3),
            SetupError::VfsRegister(3),
        ),
        (
            Action::MountVolume { drive: 0, partition: 1 },
            Outcome::Status(13),
            SetupError::Mount(13),
        ),
    ];
    for (a, o, expected) in cases {
        let mut board = Board::new();
        let card = run_card(&mut board).unwrap();
        let before = board.log.len();
        board.fail = Some((a, o));
        let (e, card) = run_mount(&mut board, card, "/sdcard").err().unwrap();
        assert_eq!(e, expected);
        assert_eq!(board.records, 1);
        assert!(board.disk.is_none() && !board.path && !board.volume);
        assert_eq!(card.info, info());
        if a == (Action::MountVolume { drive: 0, partition: 1 }) {
            assert_eq!(
                board.log[before + 5..].to_vec(),
                vec![
                    Action::Release(Resource::DiskSlot(0)),
                    Action::Release(Resource::MountPath),
                    Action::Release(Resource::CardCopy),
                ]
            );
        }
    }
}

#[test]
fn nul_in_mount_point_is_rejected() {
    let mut board = Board::new();
    let card = run_card(&mut board).unwrap();
    let before = board.log.len();
    let (e, _) = run_mount(&mut board, card, "/sd\0card").err().unwrap();
    assert_eq!(e, SetupError::InvalidPath);
    assert_eq!(
        board.log[before..].to_vec(),
        vec![
            Action::AllocCopy,
            Action::GetFreeDrive,
            Action::RegisterDisk(0),
            Action::Release(Resource::DiskSlot(0)),
            Action::Release(Resource::CardCopy),
        ]
    );
    assert_eq!(board.records, 1);
}

#[test]
fn any_drive_but_the_sentinel_is_taken() {
    let mut board = Board::new();
    let card = run_card(&mut board).unwrap();
    board.free_drive = 10;
    let volume = run_mount(&mut board, card, "/sdcard").ok().unwrap();
    assert_eq!(volume.drive(), 10);
    assert_eq!(volume.drive_name(), [0x3a, b':', 0]);
    assert_eq!(board.disk, Some(10));
    assert!(board.log.contains(&Action::VfsRegister { drive: 10, max_files: 8 }));
    assert!(board.log.contains(&Action::MountVolume { drive: 10, partition: 1 }));
    teardown(&mut board, volume);
    assert!(board.idle());
}

#[test]
fn nul_in_mount_point_on_a_high_drive() {
    let mut board = Board::new();
    let card = run_card(&mut board).unwrap();
    board.free_drive = 10;
    let before = board.log.len();
    let (e, _) = run_mount(&mut board, card, "/sd\0card").err().unwrap();
    assert_eq!(e, SetupError::InvalidPath);
    assert_eq!(
        board.log[before + 2..].to_vec(),
        vec![
            Action::RegisterDisk(10),
            Action::Release(Resource::DiskSlot(10)),
            Action::Release(Resource::CardCopy),
        ]
    );
    assert!(board.disk.is_none());
    assert_eq!(board.records, 1);
}

#[test]
fn binding_failure_on_a_high_drive() {
    let mut board = Board::new();
    let card = run_card(&mut board).unwrap();
    board.free_drive = 10;
    board.fail = Some((Action::VfsRegister { drive: 10, max_files: 8 }, Outcome::Status(0x103)));
    let (e, _) = run_mount(&mut board, card, "/sdcard").err().unwrap();
    assert_eq!(e, SetupError::VfsRegister(0x103));
    assert!(board.disk.is_none() && !board.path);
    assert_eq!(board.records, 1);
}

#[test]
fn capacity_in_bytes() {
    let card = SdmmcCard { pins: pins(), host: host_config(), info: info() };
    assert_eq!(card.size(), 512_000_000);
    assert_eq!(card.read_block_len(), 512);
    let big = CardInfo { capacity: i32::MAX, sector_size: 4096, read_block_len: 1024 };
    let card = SdmmcCard { pins: pins(), host: host_config(), info: big };
    assert_eq!(card.size(), 2_147_483_647i64 * 4096);
    assert_eq!(card.read_block_len(), 1024);
}

#[test]
fn accessors_are_stable() {
    let mut board = Board::new();
    let card = run_card(&mut board).unwrap();
    assert_eq!(card.size(), card.size());
    let volume = run_mount(&mut board, card, "/sdcard").ok().unwrap();
    let first = volume.statistics();
    assert_eq!(first, volume.statistics());
    assert_eq!(volume.card().size(), volume.card().size());
    assert_eq!(volume.card().size(), 512_000_000);
}

#[test]
fn configurations() {
    assert_eq!(
        host_config(),
        HostConfig {
            flags: 23,
            slot: 1,
            max_freq_khz: 20000,
            io_voltage_mv: 3300,
            command_timeout_ms: 0,
            input_delay_phase: 0
        }
    );
    let s = slot_config(&pins());
    assert_eq!(
        s,
        SlotConfig {
            gpio_cd: -1,
            gpio_wp: -1,
            width: 4,
            flags: 0,
            clk: 14,
            cmd: 15,
            d0: 2,
            d1: 4,
            d2: 12,
            d3: 13,
            d4: -1,
            d5: -1,
            d6: -1,
            d7: -1
        }
    );
    assert_eq!(CardSetup::new(pins()).slot_config(), s);
}

#[test]
fn drive_names() {
    assert_eq!(drive_name(0), *b"0:\0");
    assert_eq!(drive_name(7), *b"7:\0");
    assert_eq!(drive_name(0xd0), [0, b':', 0]);
    assert_eq!(drive_name(0xfe), [0x2e, b':', 0]);
}

#[test]
fn unwinding_keeps_release_order() {
    let order = vec![Resource::Host, Resource::CardRecord, Resource::Pin(1), Resource::Pin(0)];
    let held = vec![Resource::Pin(0), Resource::Host];
    assert_eq!(unwind_list(&order, &held), vec![Resource::Host, Resource::Pin(0)]);
    assert!(holds(&held, Resource::Host));
    assert!(!holds(&held, Resource::CardRecord));
}

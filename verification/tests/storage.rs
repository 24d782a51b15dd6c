use firmware_core::features::storage::first_failure;
use firmware_core::features::storage::write_outcome;
use firmware_core::features::storage::CloseStep;
use firmware_core::features::storage::Storage;
use firmware_core::features::storage::StorageError;
use firmware_core::features::storage::StorageHandle;
use firmware_core::features::storage::VolumeManager;
use std::cell::RefCell;
use std::collections::BTreeMap;
use std::rc::Rc;

#[derive(Default)]
struct Card {
    files: BTreeMap<String, Vec<u8>>,
    log: Vec<String>,
    volume_open: bool,
    dir_open: bool,
    fail_open_volume: bool,
    fail_open_root_dir: bool,
    fail_writes: bool,
    fail_close_dir: bool,
    fail_close_volume: bool,
}

struct MemoryVolumes {
    card: Rc<RefCell<Card>>,
}

impl VolumeManager for MemoryVolumes {
    type Volume = u32;
    type Directory = u32;
    type Error = &'static str;

    fn open_volume(&mut self) -> Result<u32, &'static str> {
        let mut card = self.card.borrow_mut();
        card.log.push("open volume".to_string());
        if card.fail_open_volume {
            return Err("open volume");
        }
        card.volume_open = true;
        Ok(1)
    }

    fn open_root_dir(&mut self, volume: &u32) -> Result<u32, &'static str> {
        let mut card = self.card.borrow_mut();
        card.log.push(format!("open root dir of {}", volume));
        if card.fail_open_root_dir {
            return Err("open root dir");
        }
        card.dir_open = true;
        Ok(2)
    }

    fn write_file(&mut self, directory: &u32, file_name: &str, bytes: &[u8]) -> Result<(), &'static str> {
        let mut card = self.card.borrow_mut();
        card.log.push(format!("write {} in {}", file_name, directory));
        if !card.dir_open || !card.volume_open {
            return Err("not open");
        }
        if card.fail_writes {
            return Err("write");
        }
        card.files.insert(file_name.to_string(), bytes.to_vec());
        Ok(())
    }

    fn close_dir(&mut self, directory: u32) -> Result<(), &'static str> {
        let mut card = self.card.borrow_mut();
        card.log.push(format!("close dir {}", directory));
        if !card.volume_open {
            return Err("volume closed before directory");
        }
        card.dir_open = false;
        if card.fail_close_dir {
            return Err("close dir");
        }
        Ok(())
    }

    fn close_volume(&mut self, volume: u32) -> Result<(), &'static str> {
        let mut card = self.card.borrow_mut();
        card.log.push(format!("close volume {}", volume));
        if card.dir_open {
            return Err("directory still open");
        }
        card.volume_open = false;
        if card.fail_close_volume {
            return Err("close volume");
        }
        Ok(())
    }
}

fn open_storage(card: &Rc<RefCell<Card>>) -> Storage<MemoryVolumes> {
    match Storage::new(MemoryVolumes { card: card.clone() }) {
        Ok(storage) => storage,
        Err(error) => panic!("storage did not open: {}", error),
    }
}

#[test]
fn files_hold_exactly_what_was_written() {
    let card = Rc::new(RefCell::new(Card::default()));
    let mut storage = open_storage(&card);
    let images: Vec<Vec<u8>> = vec![vec![1, 2, 3], vec![], vec![255; 1000], vec![7]];
    for (i, image) in images.iter().enumerate() {
        let name = format!("img_{}.jpg", i + 1);
        assert!(storage.store_image(image, &name).is_ok());
    }
    assert_eq!(card.borrow().files.len(), 4);
    for (i, image) in images.iter().enumerate() {
        let name = format!("img_{}.jpg", i + 1);
        assert_eq!(card.borrow().files.get(&name), Some(image));
    }
}

#[test]
fn writing_a_name_again_replaces_the_file() {
    let card = Rc::new(RefCell::new(Card::default()));
    let mut storage = open_storage(&card);
    assert!(storage.store_image(&[1, 2, 3], "a.jpg").is_ok());
    assert!(storage.store_image(&[9], "a.jpg").is_ok());
    assert_eq!(card.borrow().files.get("a.jpg"), Some(&vec![9]));
    assert_eq!(card.borrow().files.len(), 1);
}

#[test]
fn opening_opens_the_volume_and_then_its_root() {
    let card = Rc::new(RefCell::new(Card::default()));
    let _storage = open_storage(&card);
    assert_eq!(card.borrow().log, vec!["open volume", "open root dir of 1"]);
}

#[test]
fn failed_volume_gives_no_storage() {
    let card = Rc::new(RefCell::new(Card::default()));
    card.borrow_mut().fail_open_volume = true;
    let result = Storage::new(MemoryVolumes { card: card.clone() });
    assert!(matches!(result, Err("open volume")));
    assert_eq!(card.borrow().log, vec!["open volume"]);
}

#[test]
fn failed_root_directory_closes_the_volume_again() {
    let card = Rc::new(RefCell::new(Card::default()));
    card.borrow_mut().fail_open_root_dir = true;
    let result = Storage::new(MemoryVolumes { card: card.clone() });
    assert!(matches!(result, Err("open root dir")));
    assert_eq!(card.borrow().log, vec!["open volume", "open root dir of 1", "close volume 1"]);
    assert!(!card.borrow().volume_open);
}

#[test]
fn failed_write_is_reported_and_leaves_the_storage_usable() {
    let card = Rc::new(RefCell::new(Card::default()));
    let mut storage = open_storage(&card);
    card.borrow_mut().fail_writes = true;
    assert!(matches!(storage.store_image(&[1], "a.jpg"), Err(StorageError::Device("write"))));
    card.borrow_mut().fail_writes = false;
    assert!(storage.store_image(&[2], "b.jpg").is_ok());
    assert_eq!(card.borrow().files.get("b.jpg"), Some(&vec![2]));
    assert_eq!(card.borrow().files.get("a.jpg"), None);
}

#[test]
fn closing_closes_the_directory_before_the_volume() {
    let card = Rc::new(RefCell::new(Card::default()));
    let mut storage = open_storage(&card);
    assert!(storage.store_image(&[1], "a.jpg").is_ok());
    card.borrow_mut().fail_writes = true;
    assert!(storage.store_image(&[1], "b.jpg").is_err());
    assert_eq!(storage.close(), Ok(()));
    let card = card.borrow();
    let tail: Vec<&str> = card.log.iter().rev().take(2).rev().map(|s| s.as_str()).collect();
    assert_eq!(tail, vec!["close dir 2", "close volume 1"]);
    assert!(!card.dir_open);
    assert!(!card.volume_open);
}

#[test]
fn volume_is_closed_even_where_the_directory_fails_to_close() {
    let card = Rc::new(RefCell::new(Card::default()));
    let storage = open_storage(&card);
    card.borrow_mut().fail_close_dir = true;
    assert_eq!(storage.close(), Err("close dir"));
    assert!(!card.borrow().volume_open);
    assert_eq!(card.borrow().log.last().unwrap(), "close volume 1");
}

#[test]
fn failure_of_the_volume_is_reported_where_the_directory_closed() {
    let card = Rc::new(RefCell::new(Card::default()));
    let storage = open_storage(&card);
    card.borrow_mut().fail_close_volume = true;
    assert_eq!(storage.close(), Err("close volume"));
}

#[test]
fn first_failure_of_closing_wins() {
    assert_eq!(first_failure::<u8>(Ok(()), Ok(())), Ok(()));
    assert_eq!(first_failure(Ok(()), Err(2u8)), Err(2));
    assert_eq!(first_failure(Err(1u8), Ok(())), Err(1));
    assert_eq!(first_failure(Err(1u8), Err(2)), Err(1));
}

#[test]
fn write_outcome_wraps_the_failure_of_the_device() {
    assert!(matches!(write_outcome::<u8>(Ok(())), Ok(())));
    assert!(matches!(write_outcome(Err(3u8)), Err(StorageError::Device(3))));
}

#[test]
fn file_names_count_from_one() {
    let card = Rc::new(RefCell::new(Card::default()));
    let mut storage = open_storage(&card);
    assert_eq!(storage.next_file_name().unwrap(), "img_1.jpg");
    assert_eq!(storage.next_file_name().unwrap(), "img_2.jpg");
    let mut handle = StorageHandle::new(1u8, 2u8);
    for _ in 0..9 {
        handle.next_file_name();
    }
    assert_eq!(handle.next_file_name().unwrap(), "img_10.jpg");
    assert_eq!(handle.next_file_name().unwrap(), "img_11.jpg");
}

#[test]
fn directory_is_lent_out_once() {
    let mut handle = StorageHandle::new("volume", "root");
    assert!(handle.is_parked());
    assert_eq!(handle.check_out(), Some("root"));
    assert!(!handle.is_parked());
    assert_eq!(handle.check_out(), None);
    handle.check_in("root");
    assert!(handle.is_parked());
    assert_eq!(handle.check_out(), Some("root"));
}

#[test]
fn teardown_names_the_directory_first() {
    let handle = StorageHandle::new("volume", 7u8);
    assert_eq!(
        handle.teardown(),
        vec![CloseStep::Directory(7), CloseStep::Volume("volume")]
    );
    let mut lent = StorageHandle::new("volume", 7u8);
    lent.check_out();
    assert_eq!(lent.teardown(), vec![CloseStep::Volume("volume")]);
}

#[test]
fn write_without_directory_fails_and_leaves_the_device_alone() {
    let card = Rc::new(RefCell::new(Card::default()));
    let mut handle = StorageHandle::new(1u32, 2u32);
    assert_eq!(handle.check_out(), Some(2));
    let mut storage = Storage::from_handle(MemoryVolumes { card: card.clone() }, handle);
    assert!(matches!(
        storage.store_image(&[1], "a.jpg"),
        Err(StorageError::DirectoryUnavailable)
    ));
    assert!(matches!(
        storage.store_image(&[1], "a.jpg"),
        Err(StorageError::DirectoryUnavailable)
    ));
    assert!(card.borrow().log.is_empty());
    card.borrow_mut().volume_open = true;
    assert_eq!(storage.close(), Ok(()));
    assert_eq!(card.borrow().log, vec!["close volume 1"]);
}

#[test]
fn storage_over_a_volume_whose_root_opened() {
    let card = Rc::new(RefCell::new(Card::default()));
    card.borrow_mut().volume_open = true;
    card.borrow_mut().dir_open = true;
    let result = Storage::over_volume(MemoryVolumes { card: card.clone() }, 1, Ok(2));
    let mut storage = match result {
        Ok(storage) => storage,
        Err(error) => panic!("no storage: {}", error),
    };
    assert!(card.borrow().log.is_empty());
    assert_eq!(storage.next_file_name().unwrap(), "img_1.jpg");
    assert!(storage.store_image(&[5], "a.jpg").is_ok());
    assert_eq!(storage.close(), Ok(()));
    assert_eq!(card.borrow().log, vec!["write a.jpg in 2", "close dir 2", "close volume 1"]);
}

#[test]
fn storage_over_a_volume_whose_root_did_not_open() {
    let card = Rc::new(RefCell::new(Card::default()));
    card.borrow_mut().volume_open = true;
    let result = Storage::over_volume(MemoryVolumes { card: card.clone() }, 1, Err("no root"));
    assert!(matches!(result, Err("no root")));
    assert_eq!(card.borrow().log, vec!["close volume 1"]);
    assert!(!card.borrow().volume_open);
}

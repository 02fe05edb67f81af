use fluidlite::loader::status;
use fluidlite::{
    close_wrapper, open_wrapper, read_wrapper, seek_wrapper, tell_result, tell_wrapper, FileApi,
    HasHandle, Loader, SeekFrom, FLUID_FAILED, FLUID_OK, SEEK_CUR, SEEK_END, SEEK_SET,
};

struct Memory {
    data: Vec<u8>,
    opened: Vec<String>,
}

struct Cursor {
    data: Vec<u8>,
    pos: usize,
    open: bool,
}

impl FileApi for Memory {
    type File = Cursor;

    fn open(&mut self, filename: &str) -> Option<Cursor> {
        self.opened.push(filename.to_string());
        if filename.ends_with(".sf2") {
            Some(Cursor { data: self.data.clone(), pos: 0, open: true })
        } else {
            None
        }
    }

    fn read(file: &mut Cursor, buf: &mut [u8]) -> bool {
        if file.pos + buf.len() > file.data.len() {
            return false;
        }
        buf.copy_from_slice(&file.data[file.pos..file.pos + buf.len()]);
        file.pos += buf.len();
        true
    }

    fn seek(file: &mut Cursor, pos: SeekFrom) -> bool {
        let target = match pos {
            SeekFrom::Start(offset) => offset as i64,
            SeekFrom::End(offset) => file.data.len() as i64 + offset,
            SeekFrom::Current(offset) => file.pos as i64 + offset,
        };
        if target < 0 || target > file.data.len() as i64 {
            return false;
        }
        file.pos = target as usize;
        true
    }

    fn tell(file: &Cursor) -> Option<u64> {
        if file.open {
            Some(file.pos as u64)
        } else {
            None
        }
    }

    fn close(file: &mut Cursor) -> bool {
        let was_open = file.open;
        file.open = false;
        was_open
    }
}

fn memory() -> Memory {
    Memory { data: vec![1, 2, 3, 4, 5, 6, 7, 8], opened: Vec::new() }
}

#[test]
fn the_status_codes() {
    assert_eq!(FLUID_OK, 0);
    assert_eq!(FLUID_FAILED, -1);
    assert_eq!(status(true), 0);
    assert_eq!(status(false), -1);
}

#[test]
fn the_origins_of_a_seek() {
    assert_eq!(SEEK_SET, 0);
    assert_eq!(SEEK_CUR, 1);
    assert_eq!(SEEK_END, 2);
    assert_eq!(SeekFrom::from_raw(16, 0), Some(SeekFrom::Start(16)));
    assert_eq!(SeekFrom::from_raw(-4, 1), Some(SeekFrom::Current(-4)));
    assert_eq!(SeekFrom::from_raw(-4, 2), Some(SeekFrom::End(-4)));
    assert_eq!(SeekFrom::from_raw(0, 3), None);
    assert_eq!(SeekFrom::from_raw(0, -1), None);
}

#[test]
fn an_offset_from_the_start_is_unsigned() {
    assert_eq!(SeekFrom::from_raw(-1, 0), Some(SeekFrom::Start(u64::MAX)));
}

#[test]
fn a_position_is_reported_or_a_failure() {
    assert_eq!(tell_result(Some(0)), 0);
    assert_eq!(tell_result(Some(4096)), 4096);
    assert_eq!(tell_result(None), -1);
}

#[test]
fn a_file_is_opened_by_its_name() {
    let mut api = memory();
    assert!(open_wrapper(&mut api, b"font.sf2\0").is_some());
    assert!(open_wrapper(&mut api, b"font.txt\0").is_none());
    assert_eq!(api.opened, vec!["font.sf2".to_string(), "font.txt".to_string()]);
}

#[test]
fn a_name_that_is_no_text_opens_nothing() {
    let mut api = memory();
    assert!(open_wrapper(&mut api, &[0xff, b'.', b's', b'f', b'2', 0]).is_none());
    assert!(open_wrapper(&mut api, b"font.sf2").is_none());
    assert!(api.opened.is_empty());
}

#[test]
fn reading_seeking_and_telling() {
    let mut api = memory();
    let mut file = open_wrapper(&mut api, b"font.sf2\0").unwrap();
    let mut buf = [0u8; 3];
    assert_eq!(read_wrapper::<Memory>(&mut file, &mut buf), FLUID_OK);
    assert_eq!(buf, [1, 2, 3]);
    assert_eq!(tell_wrapper::<Memory>(&file), 3);
    assert_eq!(seek_wrapper::<Memory>(&mut file, -2, SEEK_END), FLUID_OK);
    assert_eq!(tell_wrapper::<Memory>(&file), 6);
    assert_eq!(read_wrapper::<Memory>(&mut file, &mut buf), FLUID_FAILED);
    assert_eq!(seek_wrapper::<Memory>(&mut file, 1, SEEK_SET), FLUID_OK);
    assert_eq!(seek_wrapper::<Memory>(&mut file, 2, SEEK_CUR), FLUID_OK);
    assert_eq!(tell_wrapper::<Memory>(&file), 3);
    assert_eq!(seek_wrapper::<Memory>(&mut file, 100, SEEK_SET), FLUID_FAILED);
    assert_eq!(close_wrapper::<Memory>(&mut file), FLUID_OK);
    assert_eq!(close_wrapper::<Memory>(&mut file), FLUID_FAILED);
    assert_eq!(tell_wrapper::<Memory>(&file), -1);
}

#[test]
fn an_unknown_origin_fails_and_leaves_the_file() {
    let mut api = memory();
    let mut file = open_wrapper(&mut api, b"font.sf2\0").unwrap();
    assert_eq!(seek_wrapper::<Memory>(&mut file, 4, SEEK_SET), FLUID_OK);
    assert_eq!(seek_wrapper::<Memory>(&mut file, 1, 7), FLUID_FAILED);
    assert_eq!(tell_wrapper::<Memory>(&file), 4);
}

#[test]
fn a_loader_keeps_its_address() {
    let loader = Loader::from_ptr(0x6000);
    assert_eq!(loader.get_handle(), 0x6000);
    assert_eq!(loader.into_ptr(), 0x6000);
}

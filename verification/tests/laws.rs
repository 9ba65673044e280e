use fmodes::FileType;
use fmodes::Mode;
use fmodes::render_full;
use fmodes::split;
use fmodes::unsplit;

#[test]
fn round_trip() {
    for raw in [0o100644u16, 0o040755, 0o120777, 0o020620, 0o060660, 0o010600, 0o147777] {
        let (ft, m) = split(raw).expect("valid mode word");
        assert_eq!(unsplit(ft, m), raw);
    }
}

#[test]
fn file_type_exhaustive() {
    assert_eq!(FileType::from_bits(0o040000), Some(FileType::IFDIR));
    assert_eq!(FileType::from_bits(0o020000), Some(FileType::IFCHR));
    assert_eq!(FileType::from_bits(0o060000), Some(FileType::IFBLK));
    assert_eq!(FileType::from_bits(0o100000), Some(FileType::IFREG));
    assert_eq!(FileType::from_bits(0o010000), Some(FileType::IFIFO));
    assert_eq!(FileType::from_bits(0o120000), Some(FileType::IFLNK));
    assert_eq!(FileType::from_bits(0o140000), Some(FileType::IFSOCK));
    for bad in [0o000000u16, 0o030000, 0o050000, 0o070000, 0o110000, 0o130000, 0o150000, 0o160000, 0o170000] {
        assert_eq!(FileType::from_bits(bad), None);
    }
    // stray bits outside the masked field are rejected, not silently dropped
    assert_eq!(FileType::from_bits(0o040001), None);
    assert_eq!(FileType::from_bits(0o100644), None);
}

#[test]
fn file_type_bits() {
    assert_eq!(FileType::IFDIR.bits(), 0o040000);
    assert_eq!(FileType::IFCHR.bits(), 0o020000);
    assert_eq!(FileType::IFBLK.bits(), 0o060000);
    assert_eq!(FileType::IFREG.bits(), 0o100000);
    assert_eq!(FileType::IFIFO.bits(), 0o010000);
    assert_eq!(FileType::IFLNK.bits(), 0o120000);
    assert_eq!(FileType::IFSOCK.bits(), 0o140000);
    for ft in [
        FileType::IFDIR,
        FileType::IFCHR,
        FileType::IFBLK,
        FileType::IFREG,
        FileType::IFIFO,
        FileType::IFLNK,
        FileType::IFSOCK,
    ] {
        assert_eq!(FileType::from_bits(ft.bits()), Some(ft));
    }
}

#[test]
fn glyphs() {
    assert_eq!(FileType::IFDIR.glyph(), 'd');
    assert_eq!(FileType::IFCHR.glyph(), 'c');
    assert_eq!(FileType::IFBLK.glyph(), 'b');
    assert_eq!(FileType::IFREG.glyph(), '-');
    assert_eq!(FileType::IFIFO.glyph(), 'p');
    assert_eq!(FileType::IFLNK.glyph(), 'l');
    assert_eq!(FileType::IFSOCK.glyph(), 's');
}

#[test]
fn group_shift() {
    assert_eq!(Mode::IRGRP, Mode::IRUSR >> 3);
    assert_eq!(Mode::IWGRP, Mode::IWUSR >> 3);
    assert_eq!(Mode::IXGRP, Mode::IXUSR >> 3);
    assert_eq!(Mode::IRWXG, Mode::IRWXU >> 3);
    assert_eq!(Mode::IROTH, Mode::IRGRP >> 3);
    assert_eq!(Mode::IWOTH, Mode::IWGRP >> 3);
    assert_eq!(Mode::IXOTH, Mode::IXGRP >> 3);
    assert_eq!(Mode::IRWXO, Mode::IRWXG >> 3);
}

#[test]
fn render_deterministic_and_distinct() {
    let a = Mode::from_bits(0o0754).unwrap();
    let b = Mode::from_bits(0o0754).unwrap();
    assert_eq!(a.render(), b.render());
    // flipping any single bit changes the rendered string
    for bit in 0..12u16 {
        let x = Mode::from_bits(0o0754 ^ (1 << bit)).unwrap();
        assert_ne!(a.render(), x.render());
    }
}

#[test]
fn unrecognized_bits_rejected() {
    assert_eq!(Mode::from_bits(0o010000), None);
    assert_eq!(Mode::from_bits(0o170000), None);
    assert_eq!(Mode::from_bits(0o017777), None);
    assert!(Mode::from_bits(0o7777).is_some());
    assert_eq!(split(0o030644), None);
    assert_eq!(split(0o000644), None);
    assert_eq!(split(0o160000), None);
}

#[test]
fn full_mode() {
    let m = Mode::from_bits(0o755).expect("unknown bitmask");
    let raw = unsplit(FileType::IFDIR, m);
    assert_eq!(raw, 0o040755);
    let (ft2, m2) = split(raw).expect("valid mode word");
    assert_eq!(ft2, FileType::IFDIR);
    assert_eq!(m2, m);
    assert_eq!(render_full(ft2, &m2), "drwxr-xr-x");
}

//! The two byte-copy strategies and the standalone buffered copier:
//! the destination comes out byte-for-byte equal to the source,
//! whichever engine moves the bytes.

use nix::fcntl::OFlag;
use nix::sys::stat::Mode;
use pbcp::actions::showbar::NoBar;
use pbcp::copier;
use pbcp::copiers::basecopier;
use pbcp::copiers::zerocopier;
use pbcp::copiers::FileCopy;

fn write_file(path: &str, content: &[u8]) {
    let fd = nix::fcntl::open(
        path,
        OFlag::O_WRONLY | OFlag::O_CREAT | OFlag::O_TRUNC,
        Mode::from_bits_truncate(0o644),
    )
    .unwrap();
    let mut off = 0;
    while off < content.len() {
        off += nix::unistd::write(fd, &content[off..]).unwrap();
    }
    nix::unistd::close(fd).unwrap();
}

fn read_file(path: &str) -> Vec<u8> {
    let fd = nix::fcntl::open(path, OFlag::O_RDONLY, Mode::empty()).unwrap();
    let mut out: Vec<u8> = Vec::new();
    let mut buf = vec![0u8; 4096];
    loop {
        let n = nix::unistd::read(fd, &mut buf).unwrap();
        if n == 0 {
            break;
        }
        out.extend_from_slice(&buf[..n]);
    }
    nix::unistd::close(fd).unwrap();
    out
}

fn open_pair(src: &str, des: &str) -> (i32, i32) {
    let sfd = nix::fcntl::open(src, OFlag::O_RDONLY, Mode::empty()).unwrap();
    let dfd = nix::fcntl::open(
        des,
        OFlag::O_WRONLY | OFlag::O_CREAT | OFlag::O_TRUNC,
        Mode::from_bits_truncate(0o644),
    )
    .unwrap();
    (sfd, dfd)
}

#[test]
fn basecopier_copy_file_works() {
    let test_str = String::from("copy_file_works test content!");
    let mut copier = basecopier::Copier::new(4096 * 1024);

    let temp_dir = tempfile::tempdir().unwrap();
    let temp_dir_path = temp_dir.path();

    let src_file_path = temp_dir_path.join("my-temporary-note.txt");
    let bind = temp_dir_path.to_str().unwrap().to_string() + "/dest.txt";

    write_file(src_file_path.to_str().unwrap(), test_str.as_bytes());

    let (sfd, dfd) = open_pair(src_file_path.to_str().unwrap(), &bind);
    let ret = copier.copy(sfd, dfd, &NoBar).unwrap();
    nix::unistd::close(sfd).unwrap();
    nix::unistd::close(dfd).unwrap();
    println!(", {} bytes copied.", ret);

    let des_content = String::from_utf8(read_file(&bind)).unwrap();
    assert_eq!(test_str, des_content);
}

#[test]
fn zerocopier_copy_file_works() {
    let test_str = String::from("copy_file_works test content!");
    let mut copier = zerocopier::Copier::new(4096 * 1024);

    let temp_dir = tempfile::tempdir().unwrap();
    let temp_dir_path = temp_dir.path();

    let src_file_path = temp_dir_path.join("my-temporary-note.txt");
    let bind = temp_dir_path.to_str().unwrap().to_string() + "/dest.txt";

    write_file(src_file_path.to_str().unwrap(), test_str.as_bytes());

    let (sfd, dfd) = open_pair(src_file_path.to_str().unwrap(), &bind);
    let ret = copier.copy(sfd, dfd, &NoBar).unwrap();
    nix::unistd::close(sfd).unwrap();
    nix::unistd::close(dfd).unwrap();
    println!(", {} bytes copied.", ret);

    let des_content = String::from_utf8(read_file(&bind)).unwrap();
    assert_eq!(test_str, des_content);
}

#[test]
fn both_strategies_copy_byte_for_byte_across_chunks() {
    // A buffer far smaller than the content forces several chunks; the
    // engines must still reproduce the source exactly, and both must
    // agree.
    let mut content: Vec<u8> = Vec::new();
    let mut x: u8 = 7;
    while content.len() < 10_000 {
        content.push(x);
        x = x.wrapping_mul(31).wrapping_add(11);
    }

    let temp_dir = tempfile::tempdir().unwrap();
    let src = temp_dir.path().join("big.bin").to_str().unwrap().to_string();
    let des_a = temp_dir.path().join("a.bin").to_str().unwrap().to_string();
    let des_b = temp_dir.path().join("b.bin").to_str().unwrap().to_string();
    write_file(&src, &content);

    let mut buffered = basecopier::Copier::new(64);
    let (sfd, dfd) = open_pair(&src, &des_a);
    let moved_a = buffered.copy(sfd, dfd, &NoBar).unwrap();
    nix::unistd::close(sfd).unwrap();
    nix::unistd::close(dfd).unwrap();

    let mut zero = zerocopier::Copier::new(64);
    let (sfd, dfd) = open_pair(&src, &des_b);
    let moved_b = zero.copy(sfd, dfd, &NoBar).unwrap();
    nix::unistd::close(sfd).unwrap();
    nix::unistd::close(dfd).unwrap();

    assert_eq!(moved_a, content.len() as u64);
    assert_eq!(moved_b, content.len() as u64);
    assert_eq!(read_file(&des_a), content);
    assert_eq!(read_file(&des_b), content);
}

#[test]
fn empty_source_copies_to_empty_destination() {
    let temp_dir = tempfile::tempdir().unwrap();
    let src = temp_dir.path().join("empty.txt").to_str().unwrap().to_string();
    let des = temp_dir.path().join("out.txt").to_str().unwrap().to_string();
    write_file(&src, b"");

    let mut copier = basecopier::Copier::new(16);
    let (sfd, dfd) = open_pair(&src, &des);
    let moved = copier.copy(sfd, dfd, &NoBar).unwrap();
    nix::unistd::close(sfd).unwrap();
    nix::unistd::close(dfd).unwrap();

    assert_eq!(moved, 0);
    assert_eq!(read_file(&des), Vec::<u8>::new());
}

#[test]
fn standalone_copier_reports_the_byte_count() {
    let content = b"the standalone engine moves these bytes";

    let temp_dir = tempfile::tempdir().unwrap();
    let src = temp_dir.path().join("in.txt").to_str().unwrap().to_string();
    let des = temp_dir.path().join("out.txt").to_str().unwrap().to_string();
    write_file(&src, content);

    let mut copier = copier::Copier::new(8);
    let (sfd, dfd) = open_pair(&src, &des);
    let moved = copier.copy(sfd, dfd, Some(content.len() as u64), &NoBar).unwrap();
    nix::unistd::close(sfd).unwrap();
    nix::unistd::close(dfd).unwrap();

    assert_eq!(moved, content.len() as u64);
    assert_eq!(read_file(&des), content.to_vec());
}

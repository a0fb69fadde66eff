//! Whole runs: resolve the pairs from a configuration, assemble the
//! pipeline, and drive the copy loop end to end.

use nix::fcntl::OFlag;
use nix::sys::stat::Mode;
use pbcp::actions::showbar::NoBar;
use pbcp::arg::Args;
use pbcp::copiers::basecopier::Copier;
use pbcp::driver::run_pairs;
use pbcp::sys::kind_of_mode;
use pbcp::sys::EntryKind;

fn write_file(path: &str, content: &[u8]) {
    let fd = nix::fcntl::open(
        path,
        OFlag::O_WRONLY | OFlag::O_CREAT | OFlag::O_TRUNC,
        Mode::from_bits_truncate(0o644),
    )
    .unwrap();
    let mut off = 0;
    while off < content.len() {
        off += nix::unistd::write(fd, &content[off..]).unwrap();
    }
    nix::unistd::close(fd).unwrap();
}

fn read_file(path: &str) -> Vec<u8> {
    let fd = nix::fcntl::open(path, OFlag::O_RDONLY, Mode::empty()).unwrap();
    let mut out: Vec<u8> = Vec::new();
    let mut buf = vec![0u8; 4096];
    loop {
        let n = nix::unistd::read(fd, &mut buf).unwrap();
        if n == 0 {
            break;
        }
        out.extend_from_slice(&buf[..n]);
    }
    nix::unistd::close(fd).unwrap();
    out
}

fn run(args: &Args) {
    let (src_paths, des_paths) = args.zip_src2des_pairs().unwrap();
    let (pre_steps, post_steps) = args.build_in_progress_actions();
    let mut copier = Copier::new(4096 * 1024);
    run_pairs(&mut copier, &NoBar, &src_paths, &des_paths, &pre_steps, &post_steps).unwrap();
}

#[test]
fn test_recursive_copy() {
    let temp_dir = tempfile::tempdir().unwrap();
    let src_dir = temp_dir.path().join("src").to_str().unwrap().to_string();
    let des_dir = temp_dir.path().join("des").to_str().unwrap().to_string();
    nix::unistd::mkdir(src_dir.as_str(), Mode::from_bits_truncate(0o755)).unwrap();
    nix::unistd::mkdir(des_dir.as_str(), Mode::from_bits_truncate(0o755)).unwrap();
    write_file(&(src_dir.clone() + "/file1.txt"), b"Hello, world!");

    let args = Args {
        srcs: vec![src_dir],
        des: des_dir.clone(),
        recursive: true,
        update: false,
        preserve: None,
        mute: true,
    };
    run(&args);

    let copied = des_dir + "/src/file1.txt";
    assert!(nix::sys::stat::stat(copied.as_str()).is_ok());
    assert_eq!(read_file(&copied), b"Hello, world!".to_vec());
}

#[test]
fn test_update_copy() {
    let temp_dir = tempfile::tempdir().unwrap();
    let src_file = temp_dir.path().join("src.txt").to_str().unwrap().to_string();
    let des_file = temp_dir.path().join("des.txt").to_str().unwrap().to_string();
    write_file(&src_file, b"New content");
    write_file(&des_file, b"Old content");

    // The source is older than the destination.
    filetime::set_file_mtime(src_file.as_str(), filetime::FileTime::from_unix_time(1_000_000, 0))
        .unwrap();
    filetime::set_file_mtime(des_file.as_str(), filetime::FileTime::from_unix_time(2_000_000, 0))
        .unwrap();

    let args = Args {
        srcs: vec![src_file.clone()],
        des: des_file.clone(),
        recursive: false,
        update: true,
        preserve: None,
        mute: true,
    };
    run(&args);

    // Content remains unchanged.
    assert_eq!(read_file(&des_file), b"Old content".to_vec());

    // Now the source is newer.
    filetime::set_file_mtime(src_file.as_str(), filetime::FileTime::from_unix_time(3_000_000, 0))
        .unwrap();
    run(&args);

    // Content is updated.
    assert_eq!(read_file(&des_file), b"New content".to_vec());
}

#[test]
fn test_preserve_attributes() {
    let temp_dir = tempfile::tempdir().unwrap();
    let src_file = temp_dir.path().join("src.txt").to_str().unwrap().to_string();
    let des_file = temp_dir.path().join("des.txt").to_str().unwrap().to_string();
    write_file(&src_file, b"Content");
    nix::sys::stat::fchmodat(
        None,
        src_file.as_str(),
        Mode::from_bits_truncate(0o640),
        nix::sys::stat::FchmodatFlags::FollowSymlink,
    )
    .unwrap();
    filetime::set_file_times(
        src_file.as_str(),
        filetime::FileTime::from_unix_time(1_111_111, 0),
        filetime::FileTime::from_unix_time(2_222_222, 0),
    )
    .unwrap();

    let args = Args {
        srcs: vec![src_file.clone()],
        des: des_file.clone(),
        recursive: false,
        update: false,
        preserve: Some("mode,ownership,timestamps".to_string()),
        mute: true,
    };
    run(&args);

    let sm = nix::sys::stat::stat(src_file.as_str()).unwrap();
    let dm = nix::sys::stat::stat(des_file.as_str()).unwrap();

    // Permissions.
    assert_eq!(sm.st_mode & 0o7777, dm.st_mode & 0o7777);

    // Ownership.
    assert_eq!(sm.st_uid, dm.st_uid);
    assert_eq!(sm.st_gid, dm.st_gid);

    // Timestamps.
    assert_eq!(sm.st_mtime, dm.st_mtime);
    assert_eq!(sm.st_atime, dm.st_atime);
}

#[test]
fn test_preserve_links() {
    let temp_dir = tempfile::tempdir().unwrap();
    let src_file = temp_dir.path().join("src.txt").to_str().unwrap().to_string();
    let link_file = temp_dir.path().join("link.txt").to_str().unwrap().to_string();
    let des_file = temp_dir.path().join("des.txt").to_str().unwrap().to_string();

    write_file(&src_file, b"Content");
    nix::unistd::symlinkat(src_file.as_str(), None, link_file.as_str()).unwrap();

    let args = Args {
        srcs: vec![link_file.clone()],
        des: des_file.clone(),
        recursive: false,
        update: false,
        preserve: Some("links".to_string()),
        mute: true,
    };
    run(&args);

    let dl = nix::sys::stat::lstat(des_file.as_str()).unwrap();
    assert_eq!(kind_of_mode(dl.st_mode as u32), EntryKind::Symlink);
    assert_eq!(
        nix::fcntl::readlink(des_file.as_str()).unwrap(),
        nix::fcntl::readlink(link_file.as_str()).unwrap()
    );
}

#[test]
fn test_preserve_all() {
    let temp_dir = tempfile::tempdir().unwrap();
    let src_file = temp_dir.path().join("src.txt").to_str().unwrap().to_string();
    let link_file = temp_dir.path().join("link.txt").to_str().unwrap().to_string();
    let des_file = temp_dir.path().join("des.txt").to_str().unwrap().to_string();

    write_file(&src_file, b"Content");
    nix::unistd::symlinkat(src_file.as_str(), None, link_file.as_str()).unwrap();

    let args = Args {
        srcs: vec![link_file.clone()],
        des: des_file.clone(),
        recursive: false,
        update: false,
        preserve: Some("all".to_string()),
        mute: true,
    };
    run(&args);

    let dl = nix::sys::stat::lstat(des_file.as_str()).unwrap();
    assert_eq!(kind_of_mode(dl.st_mode as u32), EntryKind::Symlink);
    assert_eq!(
        nix::fcntl::readlink(des_file.as_str()).unwrap(),
        nix::fcntl::readlink(link_file.as_str()).unwrap()
    );

    // A regular file with the whole preservation set.
    let des_file2 = temp_dir.path().join("des2.txt").to_str().unwrap().to_string();
    let args = Args {
        srcs: vec![src_file.clone()],
        des: des_file2.clone(),
        recursive: false,
        update: false,
        preserve: Some("all".to_string()),
        mute: true,
    };
    run(&args);

    let sm = nix::sys::stat::stat(src_file.as_str()).unwrap();
    let dm = nix::sys::stat::stat(des_file2.as_str()).unwrap();
    assert_eq!(sm.st_mode & 0o7777, dm.st_mode & 0o7777);
    assert_eq!(sm.st_uid, dm.st_uid);
    assert_eq!(sm.st_gid, dm.st_gid);
    assert_eq!(sm.st_mtime, dm.st_mtime);
    assert_eq!(sm.st_atime, dm.st_atime);
}

#[test]
fn multiple_sources_land_under_a_directory_destination() {
    let temp_dir = tempfile::tempdir().unwrap();
    let a = temp_dir.path().join("a.txt").to_str().unwrap().to_string();
    let b = temp_dir.path().join("b.txt").to_str().unwrap().to_string();
    let des_dir = temp_dir.path().join("out").to_str().unwrap().to_string();
    write_file(&a, b"first");
    write_file(&b, b"second");
    nix::unistd::mkdir(des_dir.as_str(), Mode::from_bits_truncate(0o755)).unwrap();

    let args = Args {
        srcs: vec![a, b],
        des: des_dir.clone(),
        recursive: false,
        update: false,
        preserve: None,
        mute: true,
    };
    run(&args);

    assert_eq!(read_file(&(des_dir.clone() + "/a.txt")), b"first".to_vec());
    assert_eq!(read_file(&(des_dir + "/b.txt")), b"second".to_vec());
}

#[test]
fn a_directory_source_demands_recursive_mode() {
    let temp_dir = tempfile::tempdir().unwrap();
    let src_dir = temp_dir.path().join("src").to_str().unwrap().to_string();
    let des_dir = temp_dir.path().join("des").to_str().unwrap().to_string();
    nix::unistd::mkdir(src_dir.as_str(), Mode::from_bits_truncate(0o755)).unwrap();
    nix::unistd::mkdir(des_dir.as_str(), Mode::from_bits_truncate(0o755)).unwrap();

    let args = Args {
        srcs: vec![src_dir],
        des: des_dir,
        recursive: false,
        update: false,
        preserve: None,
        mute: true,
    };
    let ret = args.zip_src2des_pairs();
    assert!(matches!(ret, Err(pbcp::error::CpError::NeedRecursive { .. })));
}

#[test]
fn multiple_sources_demand_a_directory_destination() {
    let temp_dir = tempfile::tempdir().unwrap();
    let a = temp_dir.path().join("a.txt").to_str().unwrap().to_string();
    let b = temp_dir.path().join("b.txt").to_str().unwrap().to_string();
    let des = temp_dir.path().join("plain.txt").to_str().unwrap().to_string();
    write_file(&a, b"first");
    write_file(&b, b"second");
    write_file(&des, b"not a directory");

    let args = Args {
        srcs: vec![a, b],
        des,
        recursive: false,
        update: false,
        preserve: None,
        mute: true,
    };
    let ret = args.zip_src2des_pairs();
    assert!(matches!(ret, Err(pbcp::error::CpError::DestNotDirectory { .. })));
}

#[test]
fn an_abandoned_pair_runs_no_post_actions() {
    // Update mode abandons an up-to-date pair with `SkipRest`: neither
    // the bytes nor the preserved timestamps touch the destination.
    let temp_dir = tempfile::tempdir().unwrap();
    let src_file = temp_dir.path().join("src.txt").to_str().unwrap().to_string();
    let des_file = temp_dir.path().join("des.txt").to_str().unwrap().to_string();
    write_file(&src_file, b"New content");
    write_file(&des_file, b"Old content");
    filetime::set_file_mtime(src_file.as_str(), filetime::FileTime::from_unix_time(1_000_000, 0))
        .unwrap();
    filetime::set_file_mtime(des_file.as_str(), filetime::FileTime::from_unix_time(2_000_000, 0))
        .unwrap();

    let args = Args {
        srcs: vec![src_file.clone()],
        des: des_file.clone(),
        recursive: false,
        update: true,
        preserve: Some("timestamps".to_string()),
        mute: true,
    };
    run(&args);

    assert_eq!(read_file(&des_file), b"Old content".to_vec());
    let dm = nix::sys::stat::stat(des_file.as_str()).unwrap();
    assert_eq!(dm.st_mtime, 2_000_000);
}

#[test]
fn a_skipped_transfer_still_runs_post_actions() {
    // The recursion gate answers `SkipCopy` for a directory: no bytes
    // move, but the attribute post-step still reaches the fresh
    // destination directory.
    let temp_dir = tempfile::tempdir().unwrap();
    let src_dir = temp_dir.path().join("src").to_str().unwrap().to_string();
    let des_dir = temp_dir.path().join("des").to_str().unwrap().to_string();
    nix::unistd::mkdir(src_dir.as_str(), Mode::from_bits_truncate(0o755)).unwrap();
    nix::unistd::mkdir(des_dir.as_str(), Mode::from_bits_truncate(0o755)).unwrap();
    filetime::set_file_times(
        src_dir.as_str(),
        filetime::FileTime::from_unix_time(1_234_567, 0),
        filetime::FileTime::from_unix_time(1_234_567, 0),
    )
    .unwrap();

    let args = Args {
        srcs: vec![src_dir],
        des: des_dir.clone(),
        recursive: true,
        update: false,
        preserve: Some("timestamps".to_string()),
        mute: true,
    };
    run(&args);

    let copied_dir = des_dir + "/src";
    let dm = nix::sys::stat::stat(copied_dir.as_str()).unwrap();
    assert_eq!(dm.st_mtime, 1_234_567);
}

#[test]
fn recursive_copy_preserves_tree_and_attributes() {
    // A tree with a subdirectory, two files and a symbolic link,
    // copied recursively with the whole preservation set.
    let temp_dir = tempfile::tempdir().unwrap();
    let src_dir = temp_dir.path().join("src_dir").to_str().unwrap().to_string();
    let sub_dir = src_dir.clone() + "/sub_dir";
    nix::unistd::mkdir(src_dir.as_str(), Mode::from_bits_truncate(0o755)).unwrap();
    nix::unistd::mkdir(sub_dir.as_str(), Mode::from_bits_truncate(0o755)).unwrap();

    let src_file = src_dir.clone() + "/src.txt";
    let sub_file = sub_dir.clone() + "/sub.txt";
    let link_file = src_dir.clone() + "/link.txt";
    write_file(&src_file, b"Main content");
    write_file(&sub_file, b"Sub content");
    nix::unistd::symlinkat(src_file.as_str(), None, link_file.as_str()).unwrap();

    nix::sys::stat::fchmodat(
        None,
        src_file.as_str(),
        Mode::from_bits_truncate(0o640),
        nix::sys::stat::FchmodatFlags::FollowSymlink,
    )
    .unwrap();
    filetime::set_file_times(
        src_file.as_str(),
        filetime::FileTime::from_unix_time(1_111_111, 0),
        filetime::FileTime::from_unix_time(2_222_222, 0),
    )
    .unwrap();

    let des_dir = temp_dir.path().join("des_dir").to_str().unwrap().to_string();
    nix::unistd::mkdir(des_dir.as_str(), Mode::from_bits_truncate(0o755)).unwrap();

    let args = Args {
        srcs: vec![src_dir],
        des: des_dir.clone(),
        recursive: true,
        update: false,
        preserve: Some("all".to_string()),
        mute: true,
    };
    run(&args);

    // The tree structure is reproduced under the destination.
    let des_src_dir = des_dir + "/src_dir";
    let ds = nix::sys::stat::stat(des_src_dir.as_str()).unwrap();
    assert_eq!(kind_of_mode(ds.st_mode as u32), EntryKind::Directory);
    let dsub = nix::sys::stat::stat((des_src_dir.clone() + "/sub_dir").as_str()).unwrap();
    assert_eq!(kind_of_mode(dsub.st_mode as u32), EntryKind::Directory);

    // File contents.
    let des_src_file = des_src_dir.clone() + "/src.txt";
    let des_sub_file = des_src_dir.clone() + "/sub_dir/sub.txt";
    assert_eq!(read_file(&des_src_file), b"Main content".to_vec());
    assert_eq!(read_file(&des_sub_file), b"Sub content".to_vec());

    // The symbolic link is reproduced with the same target string.
    let des_link = des_src_dir.clone() + "/link.txt";
    let dl = nix::sys::stat::lstat(des_link.as_str()).unwrap();
    assert_eq!(kind_of_mode(dl.st_mode as u32), EntryKind::Symlink);
    assert_eq!(
        nix::fcntl::readlink(des_link.as_str()).unwrap(),
        nix::fcntl::readlink(link_file.as_str()).unwrap()
    );

    // Mode, ownership and timestamps of the copied file.
    let sm = nix::sys::stat::stat(src_file.as_str()).unwrap();
    let dm = nix::sys::stat::stat(des_src_file.as_str()).unwrap();
    assert_eq!(sm.st_mode & 0o7777, dm.st_mode & 0o7777);
    assert_eq!(sm.st_uid, dm.st_uid);
    assert_eq!(sm.st_gid, dm.st_gid);
    assert_eq!(sm.st_mtime, dm.st_mtime);
}

#[test]
fn a_run_with_the_zero_copy_strategy_matches() {
    // The orchestrator is indifferent to the transfer strategy: a run
    // over the kernel-assisted engine reproduces the bytes just as the
    // buffered one does.
    let temp_dir = tempfile::tempdir().unwrap();
    let src_file = temp_dir.path().join("src.txt").to_str().unwrap().to_string();
    let des_file = temp_dir.path().join("des.txt").to_str().unwrap().to_string();
    write_file(&src_file, b"moved inside the kernel");

    let args = Args {
        srcs: vec![src_file],
        des: des_file.clone(),
        recursive: false,
        update: false,
        preserve: None,
        mute: true,
    };
    let (src_paths, des_paths) = args.zip_src2des_pairs().unwrap();
    let (pre_steps, post_steps) = args.build_in_progress_actions();
    let mut copier = pbcp::copiers::zerocopier::Copier::new(8);
    run_pairs(&mut copier, &NoBar, &src_paths, &des_paths, &pre_steps, &post_steps).unwrap();

    assert_eq!(read_file(&des_file), b"moved inside the kernel".to_vec());
}

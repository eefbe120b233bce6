use pengmai_shell::folder::{check_local_path, folder_opened, open_local_folder, PathKind};
use pengmai_shell::save::{bytes_written, save_bytes, SaveNext};

#[test]
fn drive_paths_are_accepted() {
    for path in ["P:\\", "P:\\Staff_Workspace\\海报.ai", "z:/客户文件夹"] {
        assert_eq!(check_local_path(path), Ok(()));
    }
}

#[test]
fn other_paths_are_refused() {
    for path in ["", ":", "P:", "/etc/hosts", "海报", "notes:today", "a:b", "::::", "海:\\x", "1:\\x", "PP:\\x"] {
        assert_eq!(check_local_path(path), Err("非法本地路径: ".to_string() + path));
    }
}

#[test]
fn folder_is_opened() {
    let launch = open_local_folder("P:\\客户 文件夹", PathKind::Directory).ok().unwrap();
    assert_eq!(launch.program, "explorer.exe");
    assert_eq!(launch.args, vec!["P:\\客户 文件夹"]);
}

#[test]
fn file_is_selected() {
    let launch = open_local_folder("P:\\a, b.ai", PathKind::File).ok().unwrap();
    assert_eq!(launch.program, "explorer.exe");
    assert_eq!(launch.args, vec!["/select,", "P:\\a, b.ai"]);
}

#[test]
fn missing_path_is_an_error() {
    assert_eq!(
        open_local_folder("P:\\x", PathKind::Missing).err().unwrap(),
        "路径不存在（请确认本地挂载盘 P:\\ 已启动）: P:\\x"
    );
}

#[test]
fn refused_path_starts_nothing() {
    for kind in [PathKind::File, PathKind::Directory, PathKind::Missing] {
        assert_eq!(
            open_local_folder("notes:today", kind).err().unwrap(),
            "非法本地路径: notes:today"
        );
    }
}

#[test]
fn launching_is_reported() {
    assert_eq!(folder_opened(Ok(())), Ok("opened".to_string()));
    assert_eq!(
        folder_opened(Err("denied".to_string())),
        Err("打开资源管理器失败: denied".to_string())
    );
}

#[test]
fn cancelled_dialog_saves_nothing() {
    assert!(matches!(save_bytes::<u8>(None), SaveNext::Finished(Ok(false))));
}

#[test]
fn chosen_path_is_written() {
    assert!(matches!(save_bytes(Some(Ok(5))), SaveNext::Write(5)));
    assert_eq!(bytes_written("a.pdf", Ok(())), Ok(true));
}

#[test]
fn failures_to_save_are_reported() {
    match save_bytes::<u8>(Some(Err("not a path".to_string()))) {
        SaveNext::Finished(reply) => assert_eq!(reply, Err("not a path".to_string())),
        SaveNext::Write(_) => panic!("there is no path to write to"),
    }
    assert_eq!(
        bytes_written("/tmp/a.pdf", Err("disk full".to_string())),
        Err("写入 /tmp/a.pdf 失败: disk full".to_string())
    );
}

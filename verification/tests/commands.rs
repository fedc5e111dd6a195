//! The command lines of the file operations.

use leepanel::archive::{compress_command, compress_paths, extract_command};
use leepanel::commands::{
    check_space_command, copy_command, copy_files_batch_command, create_dir_command,
    create_dir_outcome, delete_file_command, delete_files_batch_command, download_command,
    elevated_command, rename_command, rename_files_batch, set_permissions_batch_command,
    set_permissions_command, BatchStep, CommandEnd,
};
use leepanel::shell::shell_single_quote;

fn list(items: &[&str]) -> Vec<String> {
    items.iter().map(|item| item.to_string()).collect()
}

#[test]
fn quotes_are_kept_inside_quotes() {
    assert_eq!(shell_single_quote("a b"), "'a b'");
    assert_eq!(shell_single_quote("it's"), "'it'\\''s'");
    assert_eq!(shell_single_quote(""), "''");
}

#[test]
fn files_are_deleted_by_name() {
    assert_eq!(delete_file_command("/a b", false), "rm -fv '/a b'");
    assert_eq!(delete_file_command("/a'b", true), "rm -rfv '/a'\\''b'");
    assert_eq!(
        delete_files_batch_command(&list(&["/a", "/b c"]), true),
        Some("rm -rfv '/a' '/b c'".to_string())
    );
    assert_eq!(delete_files_batch_command(&list(&["/a"]), false), Some("rm -fv '/a'".to_string()));
    assert_eq!(delete_files_batch_command(&list(&[]), true), None);
}

#[test]
fn renames_run_one_after_the_other() {
    let renames = vec![
        ("/a".to_string(), "/b".to_string()),
        ("/c'".to_string(), "/d".to_string()),
    ];
    assert_eq!(rename_command("/a", "/b"), "mv '/a' '/b'");
    assert_eq!(
        rename_files_batch(&renames, 0, None),
        BatchStep::Run("mv '/a' '/b'".to_string())
    );
    let ok = || Some(CommandEnd { stderr: String::new(), exit_code: 0 });
    assert_eq!(
        rename_files_batch(&renames, 1, ok()),
        BatchStep::Run("mv '/c'\\''' '/d'".to_string())
    );
    assert_eq!(rename_files_batch(&renames, 2, ok()), BatchStep::Finished(Ok(())));
    let failed = Some(CommandEnd { stderr: "denied".to_string(), exit_code: 1 });
    assert_eq!(
        rename_files_batch(&renames, 1, failed),
        BatchStep::Finished(Err("Rename failed for /a: denied".to_string()))
    );
    assert_eq!(rename_files_batch(&vec![], 0, None), BatchStep::Finished(Ok(())));
}

#[test]
fn files_are_copied_and_moved_by_name() {
    assert_eq!(
        copy_files_batch_command(&list(&["/a", "/b"]), "/c d", false),
        Some("cp -v '/a' '/b' '/c d'".to_string())
    );
    assert_eq!(
        copy_files_batch_command(&list(&["/a"]), "/c", true),
        Some("mv -v '/a' '/c'".to_string())
    );
    assert_eq!(copy_files_batch_command(&list(&[]), "/c", true), None);
    assert_eq!(copy_command("/a", "/b", false), "cp -v '/a' '/b' 2>&1");
    assert_eq!(copy_command("/a", "/b", true), "cp -rvT '/a' '/b' 2>&1");
}

#[test]
fn permissions_and_directories_are_set_by_name() {
    assert_eq!(set_permissions_command("/a b", "755"), "chmod 755 '/a b'");
    assert_eq!(
        set_permissions_batch_command(&list(&["/a", "/b"]), "644"),
        Some("chmod 644 '/a' '/b'".to_string())
    );
    assert_eq!(set_permissions_batch_command(&list(&[]), "644"), None);
    assert_eq!(create_dir_command("/x/y"), "mkdir -p '/x/y'");
    assert_eq!(create_dir_outcome(0), Ok(()));
    assert_eq!(create_dir_outcome(-1), Err("mkdir -p failed with exit code -1".to_string()));
}

#[test]
fn other_commands_are_written_out() {
    assert_eq!(
        check_space_command("/a"),
        "df -B1 '/a' | tail -1 | awk '{print $4}'; echo '---'; touch '/a/.__wtest__' 2>&1 && rm '/a/.__wtest__' && echo 'OK' || echo 'DENIED'; echo '---'; find '/a' -maxdepth 1 -mindepth 1 -printf '%f|%y\n' | grep -v '^\\.|'"
    );
    assert_eq!(
        download_command("http://x/y", "/d"),
        "curl -L -f -S -# -o '/d' 'http://x/y'"
    );
    assert_eq!(
        elevated_command("id"),
        "if [ \"$(id -u)\" -eq 0 ]; then exec sh -lc 'id'; else exec sudo -n -- sh -lc 'id'; fi"
    );
}

#[test]
fn archives_are_packed_from_their_directory() {
    assert_eq!(
        compress_paths(&list(&["/srv/a", "/srv/b c"]), "/tmp/o.tgz", "tar.gz"),
        Ok("cd '/srv' && tar -czvf '/tmp/o.tgz' 'a' 'b c' 2>&1".to_string())
    );
    assert_eq!(
        compress_paths(&list(&["/a"]), "/o.zip", "zip"),
        Ok("cd '/' && zip -r '/o.zip' 'a' 2>&1".to_string())
    );
    assert_eq!(
        compress_paths(&list(&["a"]), "o", "tar.bz2"),
        Ok("cd '' && tar -cjvf 'o' 'a' 2>&1".to_string())
    );
    assert_eq!(
        compress_paths(&list(&[""]), "o", "zip"),
        Ok("cd '.' && zip -r 'o' '' 2>&1".to_string())
    );
    assert_eq!(compress_paths(&list(&[]), "o", "zip"), Err("No paths to compress".to_string()));
    assert_eq!(
        compress_paths(&list(&["/a/b"]), "o", "rar"),
        Err("Unsupported format: rar".to_string())
    );
    assert_eq!(
        compress_command("/it's", &list(&["x"]), "o", "zip"),
        Ok("cd '/it'\\''s' && zip -r 'o' 'x' 2>&1".to_string())
    );
    assert_eq!(
        compress_paths(&list(&["/srv/it's", "/srv/b"]), "/o'.zip", "zip"),
        Ok("cd '/srv' && zip -r '/o'\\''.zip' 'it'\\''s' 'b' 2>&1".to_string())
    );
}

#[test]
fn archives_hold_every_path_whatever_its_directory() {
    assert_eq!(
        compress_paths(&list(&["/srv/a", "/etc/b", "/srv/c"]), "/tmp/o.tgz", "tar.gz"),
        Ok("cd '.' && tar -czvf '/tmp/o.tgz' '/srv/a' '/etc/b' '/srv/c' 2>&1".to_string())
    );
    assert_eq!(
        compress_paths(&list(&["/a", "/a/b"]), "/o.zip", "zip"),
        Ok("cd '.' && zip -r '/o.zip' '/a' '/a/b' 2>&1".to_string())
    );
    assert_eq!(
        compress_paths(&list(&["a", "/b"]), "/o.zip", "zip"),
        Ok("cd '.' && zip -r '/o.zip' 'a' '/b' 2>&1".to_string())
    );
    assert_eq!(
        compress_paths(&list(&["/srv/a/", "/srv/b"]), "/o.zip", "zip"),
        Ok("cd '/srv' && zip -r '/o.zip' 'a' 'b' 2>&1".to_string())
    );
    assert_eq!(
        compress_paths(&list(&["/srv/.."]), "/o.zip", "zip"),
        Ok("cd '.' && zip -r '/o.zip' '/srv/..' 2>&1".to_string())
    );
}

#[test]
fn archives_are_unpacked_by_their_ending() {
    for (name, program, flag) in [
        ("a.tar.gz", "tar -xzvf", "-C"),
        ("a.tgz", "tar -xzvf", "-C"),
        ("a.tar.bz2", "tar -xjvf", "-C"),
        ("a.tbz2", "tar -xjvf", "-C"),
        ("a.tar.xz", "tar -xJvf", "-C"),
        ("a.txz", "tar -xJvf", "-C"),
        ("a.tar", "tar -xvf", "-C"),
        ("a.zip", "unzip -o", "-d"),
    ] {
        assert_eq!(
            extract_command(name, "/d"),
            Ok(format!("{} '{}' {} '/d' 2>&1", program, name, flag))
        );
    }
    assert_eq!(
        extract_command("it's.zip", "/e'd"),
        Ok("unzip -o 'it'\\''s.zip' -d '/e'\\''d' 2>&1".to_string())
    );
    assert_eq!(
        extract_command("a.rar", "/d"),
        Err("Unsupported archive format: a.rar".to_string())
    );
}

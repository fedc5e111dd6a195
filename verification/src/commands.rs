//! The command lines of the file operations, and what their results mean.

use crate::shell::{
    escape_quotes, quote_escape, quote_list, quoted, quoted_list, replace_quotes,
    shell_single_quote, texts,
};
use crate::text::{cat2, cat4, cat5, decimal_int, decimal_int_text};
use vstd::prelude::*;
use vstd::string::*;

verus! {

/// How many seconds a command that works on many files may take.
pub const BATCH_SECS: u64 = 60;

/// How many seconds a command that is quick by nature may take.
pub const QUICK_SECS: u64 = 10;

/// How many seconds reading the current directory may take.
pub const CWD_SECS: u64 = 5;

/// How many seconds packing or unpacking an archive may take.
pub const ARCHIVE_SECS: u64 = 300;

/// How many seconds a download may take.
pub const DOWNLOAD_SECS: u64 = 3600;

/// The line that deletes some files, or some directories with all they hold.
pub open spec fn delete_line(paths: Seq<Seq<char>>, is_dir: bool) -> Seq<char> {
    (if is_dir {
        "rm -rfv "@
    } else {
        "rm -fv "@
    }) + quoted_list(paths)
}

/// The command that deletes a file, or a directory with all it holds.
pub fn delete_file_command(path: &str, is_dir: bool) -> (command: String)
    ensures
        command@ == delete_line(seq![path@], is_dir),
{
    let prefix = if is_dir {
        "rm -rfv "
    } else {
        "rm -fv "
    };
    cat2(prefix, shell_single_quote(path).as_str())
}

/// The command that deletes several files or directories; none where there is nothing to
/// delete.
pub fn delete_files_batch_command(paths: &Vec<String>, is_dir: bool) -> (command: Option<String>)
    ensures
        command is None <==> paths@.len() == 0,
        command is Some ==> command->0@ == delete_line(texts(paths@), is_dir),
{
    if paths.len() == 0 {
        return None;
    }
    let prefix = if is_dir {
        "rm -rfv "
    } else {
        "rm -fv "
    };
    Some(cat2(prefix, quote_list(paths).as_str()))
}

/// The line that moves one path to another.
pub open spec fn rename_line(old_path: Seq<char>, new_path: Seq<char>) -> Seq<char> {
    "mv "@ + quoted(old_path) + " "@ + quoted(new_path)
}

/// The command that moves one path to another.
pub fn rename_command(old_path: &str, new_path: &str) -> (command: String)
    ensures
        command@ == rename_line(old_path@, new_path@),
{
    cat4(
        "mv ",
        shell_single_quote(old_path).as_str(),
        " ",
        shell_single_quote(new_path).as_str(),
    )
}

/// What a batch of renames does next.
#[derive(Debug, PartialEq, Eq)]
pub enum BatchStep {
    /// Run a command, and report how it went.
    Run(String),
    /// The batch is over.
    Finished(Result<(), String>),
}

/// How the last command of a batch went: its error output and its exit code.
pub struct CommandEnd {
    pub stderr: String,
    pub exit_code: i32,
}

/// What a batch of renames does after `done` of them: it stops with an error at the first
/// command that fails, and otherwise renames the next path until none is left.
pub fn rename_files_batch(
    renames: &Vec<(String, String)>,
    done: usize,
    last: Option<CommandEnd>,
) -> (step: BatchStep)
    requires
        done <= renames@.len(),
        last is Some <==> done > 0,
    ensures
        match step {
            BatchStep::Run(command) => {
                &&& last is None || last->0.exit_code == 0
                &&& done < renames@.len()
                &&& command@ == rename_line(renames@[done as int].0@, renames@[done as int].1@)
            },
            BatchStep::Finished(Ok(())) => {
                &&& last is None || last->0.exit_code == 0
                &&& done == renames@.len()
            },
            BatchStep::Finished(Err(message)) => {
                &&& last is Some && last->0.exit_code != 0
                &&& message@ == "Rename failed for "@ + renames@[done - 1].0@ + ": "@
                    + last->0.stderr@
            },
        },
{
    match last {
        Some(end) => {
            if end.exit_code != 0 {
                return BatchStep::Finished(
                    Err(
                        cat4(
                            "Rename failed for ",
                            renames[done - 1].0.as_str(),
                            ": ",
                            end.stderr.as_str(),
                        ),
                    ),
                );
            }
        },
        None => {},
    }
    if done < renames.len() {
        BatchStep::Run(rename_command(renames[done].0.as_str(), renames[done].1.as_str()))
    } else {
        BatchStep::Finished(Ok(()))
    }
}

/// The line that copies or moves some paths into a directory.
pub open spec fn copy_batch_line(
    sources: Seq<Seq<char>>,
    dest_dir: Seq<char>,
    is_move: bool,
) -> Seq<char> {
    (if is_move {
        "mv -v "@
    } else {
        "cp -v "@
    }) + quoted_list(sources) + " "@ + quoted(dest_dir)
}

/// The command that copies or moves several paths into a directory; none where there is
/// nothing to copy.
pub fn copy_files_batch_command(sources: &Vec<String>, dest_dir: &str, is_move: bool) -> (command:
    Option<String>)
    ensures
        command is None <==> sources@.len() == 0,
        command is Some ==> command->0@ == copy_batch_line(texts(sources@), dest_dir@, is_move),
{
    if sources.len() == 0 {
        return None;
    }
    let prefix = if is_move {
        "mv -v "
    } else {
        "cp -v "
    };
    Some(
        cat4(
            prefix,
            quote_list(sources).as_str(),
            " ",
            shell_single_quote(dest_dir).as_str(),
        ),
    )
}

/// The line that copies a file, or what a directory holds, with its error output joined to
/// its output.
pub open spec fn copy_line(src: Seq<char>, dst: Seq<char>, is_dir: bool) -> Seq<char> {
    (if is_dir {
        "cp -rvT "@
    } else {
        "cp -v "@
    }) + quoted(src) + " "@ + quoted(dst) + " 2>&1"@
}

/// The command that copies a file, or what a directory holds.
pub fn copy_command(src: &str, dst: &str, is_dir: bool) -> (command: String)
    ensures
        command@ == copy_line(src@, dst@, is_dir),
{
    let prefix = if is_dir {
        "cp -rvT "
    } else {
        "cp -v "
    };
    cat5(
        prefix,
        shell_single_quote(src).as_str(),
        " ",
        shell_single_quote(dst).as_str(),
        " 2>&1",
    )
}

/// The line that sets the permissions of some paths. The mode is not quoted.
pub open spec fn chmod_line(mode: Seq<char>, paths: Seq<Seq<char>>) -> Seq<char> {
    "chmod "@ + mode + " "@ + quoted_list(paths)
}

/// The command that sets the permissions of a path.
pub fn set_permissions_command(path: &str, mode: &str) -> (command: String)
    ensures
        command@ == chmod_line(mode@, seq![path@]),
{
    cat4("chmod ", mode, " ", shell_single_quote(path).as_str())
}

/// The command that sets the permissions of several paths; none where there are no paths.
pub fn set_permissions_batch_command(paths: &Vec<String>, mode: &str) -> (command: Option<String>)
    ensures
        command is None <==> paths@.len() == 0,
        command is Some ==> command->0@ == chmod_line(mode@, texts(paths@)),
{
    if paths.len() == 0 {
        return None;
    }
    Some(cat4("chmod ", mode, " ", quote_list(paths).as_str()))
}

/// The line that makes a directory and those above it.
pub open spec fn mkdir_line(path: Seq<char>) -> Seq<char> {
    "mkdir -p "@ + quoted(path)
}

/// The command that makes a directory and those above it.
pub fn create_dir_command(path: &str) -> (command: String)
    ensures
        command@ == mkdir_line(path@),
{
    cat2("mkdir -p ", shell_single_quote(path).as_str())
}

/// What the end of the command that makes a directory means.
pub fn create_dir_outcome(exit_code: i32) -> (outcome: Result<(), String>)
    ensures
        outcome is Ok <==> exit_code == 0,
        outcome is Err ==> outcome->Err_0@ == "mkdir -p failed with exit code "@ + decimal_int(
            exit_code as int,
        ),
{
    if exit_code != 0 {
        Err(cat2("mkdir -p failed with exit code ", decimal_int_text(exit_code as i64).as_str()))
    } else {
        Ok(())
    }
}

/// The line that reports the free bytes of a directory, whether it can be written to, and
/// what it holds.
pub open spec fn check_space_line(path: Seq<char>) -> Seq<char> {
    "df -B1 "@ + quoted(path) + " | tail -1 | awk '{print $4}'; echo '---'; touch '"@
        + replace_quotes(path, quote_escape()) + "/.__wtest__' 2>&1 && rm '"@ + replace_quotes(
        path,
        quote_escape(),
    ) + "/.__wtest__' && echo 'OK' || echo 'DENIED'; echo '---'; find "@ + quoted(path)
        + " -maxdepth 1 -mindepth 1 -printf '%f|%y\n' | grep -v '^\\.|'"@
}

/// The command that reports the free bytes of a directory, whether it can be written to, and
/// what it holds.
pub fn check_space_command(path: &str) -> (command: String)
    ensures
        command@ == check_space_line(path@),
{
    let escaped = escape_quotes(path, "'\\''");
    let whole = shell_single_quote(path);
    let mut command = cat4(
        "df -B1 ",
        whole.as_str(),
        " | tail -1 | awk '{print $4}'; echo '---'; touch '",
        escaped.as_str(),
    );
    command.append("/.__wtest__' 2>&1 && rm '");
    command.append(escaped.as_str());
    command.append("/.__wtest__' && echo 'OK' || echo 'DENIED'; echo '---'; find ");
    command.append(whole.as_str());
    command.append(" -maxdepth 1 -mindepth 1 -printf '%f|%y\n' | grep -v '^\\.|'");
    command
}

/// The line that downloads a URL to a path.
pub open spec fn download_line(url: Seq<char>, dest: Seq<char>) -> Seq<char> {
    "curl -L -f -S -# -o "@ + quoted(dest) + " "@ + quoted(url)
}

/// The command that downloads a URL to a path.
pub fn download_command(url: &str, dest: &str) -> (command: String)
    ensures
        command@ == download_line(url@, dest@),
{
    cat4(
        "curl -L -f -S -# -o ",
        shell_single_quote(dest).as_str(),
        " ",
        shell_single_quote(url).as_str(),
    )
}

/// The line that runs a command as root: directly for root, through sudo without a password
/// otherwise.
pub open spec fn elevated_line(command: Seq<char>) -> Seq<char> {
    "if [ \"$(id -u)\" -eq 0 ]; then exec sh -lc "@ + quoted(command)
        + "; else exec sudo -n -- sh -lc "@ + quoted(command) + "; fi"@
}

/// The command that runs a command as root.
pub fn elevated_command(command: &str) -> (line: String)
    ensures
        line@ == elevated_line(command@),
{
    let word = shell_single_quote(command);
    cat5(
        "if [ \"$(id -u)\" -eq 0 ]; then exec sh -lc ",
        word.as_str(),
        "; else exec sudo -n -- sh -lc ",
        word.as_str(),
        "; fi",
    )
}

/// Quick commands may take 10 seconds, and reading the current directory 5; commands on many
/// files may take a minute, archives five, and downloads an hour.
pub proof fn law_times_of_commands()
    ensures
        CWD_SECS == 5,
        QUICK_SECS == 10,
        BATCH_SECS == 60,
        ARCHIVE_SECS == 5 * BATCH_SECS,
        DOWNLOAD_SECS == 60 * BATCH_SECS,
{
}

} // verus!

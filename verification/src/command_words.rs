//! The words that a shell reads in the command lines of the file operations: each path is one
//! word, whatever characters it holds.

use crate::archive::{
    compress_line, enter_line, extract_line, pack_line, packer, unpack_line, unpacker,
};
use crate::commands::{
    check_space_line, chmod_line, copy_batch_line, copy_line, delete_line, download_line,
    elevated_line, mkdir_line, rename_line,
};
use crate::shell::{
    lemma_line_end, lemma_list_is_read_back, lemma_quoted_is_read_back,
    lemma_replace_quotes_concat, lemma_space, lemma_word_and_space, plain_char, quote_escape,
    quoted, quoted_list, read_words, replace_quotes, shell_words, word_so_far,
};
use crate::text::has_suffix;
use vstd::prelude::*;

verus! {

/// Whether a text is a word that means nothing else to a shell.
pub open spec fn is_plain_word(text: Seq<char>) -> bool {
    &&& text.len() > 0
    &&& forall|i: int| 0 <= i < text.len() ==> plain_char(#[trigger] text[i])
}

/// The rest of a line behind two plain words is read after them.
proof fn lemma_two_words(a: Seq<char>, b: Seq<char>, rest: Seq<char>)
    requires
        is_plain_word(a),
        is_plain_word(b),
    ensures
        shell_words(a + " "@ + b + " "@ + rest) == read_words(rest, None, false, seq![a, b]),
{
    let none: Seq<Seq<char>> = Seq::empty();
    assert(a + " "@ + b + " "@ + rest == a + (" "@ + (b + (" "@ + rest))));
    lemma_word_and_space(a, b + (" "@ + rest), none);
    lemma_word_and_space(b, rest, none.push(a));
    assert(none.push(a).push(b) == seq![a, b]);
}

/// A line that ends with a quoted text has that text as its last word.
proof fn lemma_last_quoted(value: Seq<char>, done: Seq<Seq<char>>)
    ensures
        read_words(quoted(value), None, false, done) == Some(done.push(value)),
{
    let none: Option<Seq<char>> = None;
    assert(quoted(value) + Seq::empty() == quoted(value));
    lemma_quoted_is_read_back(value, Seq::empty(), none, done);
    assert(word_so_far(none) + value == value);
    lemma_line_end(value, done);
}

/// A line that ends with a list of quoted texts has those texts as its last words.
proof fn lemma_last_list(values: Seq<Seq<char>>, done: Seq<Seq<char>>)
    requires
        values.len() > 0,
    ensures
        read_words(quoted_list(values), None, false, done) == Some(done + values),
{
    let list = quoted_list(values);
    assert(list + Seq::empty() == list);
    lemma_list_is_read_back(values, Seq::empty(), done);
    lemma_line_end(values.last(), done + values.drop_last());
    assert((done + values.drop_last()).push(values.last()) == done + values);
}

/// A quoted text and the space behind it are one word.
proof fn lemma_quoted_and_space(value: Seq<char>, rest: Seq<char>, done: Seq<Seq<char>>)
    ensures
        read_words(quoted(value) + " "@ + rest, None, false, done) == read_words(
            rest,
            None,
            false,
            done.push(value),
        ),
{
    let none: Option<Seq<char>> = None;
    assert(quoted(value) + " "@ + rest == quoted(value) + (" "@ + rest));
    lemma_quoted_is_read_back(value, " "@ + rest, none, done);
    assert(word_so_far(none) + value == value);
    lemma_space(rest, value, done);
}

/// Deleting names exactly the paths that are to be deleted.
pub proof fn law_delete_names_the_paths(paths: Seq<Seq<char>>, is_dir: bool)
    requires
        paths.len() > 0,
    ensures
        shell_words(delete_line(paths, is_dir)) == Some(
            seq![
                "rm"@,
                if is_dir {
                    "-rfv"@
                } else {
                    "-fv"@
                },
            ] + paths,
        ),
{
    reveal_strlit("rm");
    reveal_strlit("-rfv");
    reveal_strlit("-fv");
    reveal_strlit(" ");
    reveal_strlit("rm -rfv ");
    reveal_strlit("rm -fv ");
    let flags = if is_dir {
        "-rfv"@
    } else {
        "-fv"@
    };
    let list = quoted_list(paths);
    assert("rm -rfv "@ =~= "rm"@ + " "@ + "-rfv"@ + " "@);
    assert("rm -fv "@ =~= "rm"@ + " "@ + "-fv"@ + " "@);
    lemma_two_words("rm"@, flags, list);
    lemma_last_list(paths, seq!["rm"@, flags]);
}

/// Renaming names exactly the two paths.
pub proof fn law_rename_names_the_paths(old_path: Seq<char>, new_path: Seq<char>)
    ensures
        shell_words(rename_line(old_path, new_path)) == Some(seq!["mv"@, old_path, new_path]),
{
    reveal_strlit("mv");
    reveal_strlit(" ");
    reveal_strlit("mv ");
    let none: Seq<Seq<char>> = Seq::empty();
    let rest = quoted(old_path) + " "@ + quoted(new_path);
    assert(rename_line(old_path, new_path) =~= "mv"@ + (" "@ + rest));
    lemma_word_and_space("mv"@, rest, none);
    lemma_quoted_and_space(old_path, quoted(new_path), none.push("mv"@));
    lemma_last_quoted(new_path, none.push("mv"@).push(old_path));
    assert(none.push("mv"@).push(old_path).push(new_path) == seq!["mv"@, old_path, new_path]);
}

/// Copying or moving into a directory names exactly the sources and the directory.
pub proof fn law_copy_batch_names_the_paths(
    sources: Seq<Seq<char>>,
    dest_dir: Seq<char>,
    is_move: bool,
)
    requires
        sources.len() > 0,
    ensures
        shell_words(copy_batch_line(sources, dest_dir, is_move)) == Some(
            (seq![
                if is_move {
                    "mv"@
                } else {
                    "cp"@
                },
                "-v"@,
            ] + sources).push(dest_dir),
        ),
{
    reveal_strlit("mv");
    reveal_strlit("cp");
    reveal_strlit("-v");
    reveal_strlit(" ");
    reveal_strlit("mv -v ");
    reveal_strlit("cp -v ");
    let name = if is_move {
        "mv"@
    } else {
        "cp"@
    };
    let list = quoted_list(sources);
    let tail = " "@ + quoted(dest_dir);
    let head = seq![name, "-v"@];
    assert("mv -v "@ =~= "mv"@ + " "@ + "-v"@ + " "@);
    assert("cp -v "@ =~= "cp"@ + " "@ + "-v"@ + " "@);
    assert(copy_batch_line(sources, dest_dir, is_move) =~= name + " "@ + "-v"@ + " "@ + (list
        + tail));
    lemma_two_words(name, "-v"@, list + tail);
    lemma_list_is_read_back(sources, tail, head);
    lemma_space(quoted(dest_dir), sources.last(), head + sources.drop_last());
    assert((head + sources.drop_last()).push(sources.last()) == head + sources);
    lemma_last_quoted(dest_dir, head + sources);
}

/// Copying one path names exactly the two paths, before it joins the error output to the
/// output.
pub proof fn law_copy_names_the_paths(src: Seq<char>, dst: Seq<char>, is_dir: bool)
    ensures
        exists|line: Seq<char>|
            copy_line(src, dst, is_dir) == line + " 2>&1"@ && #[trigger] shell_words(line) == Some(
                seq![
                    "cp"@,
                    if is_dir {
                        "-rvT"@
                    } else {
                        "-v"@
                    },
                    src,
                    dst,
                ],
            ),
{
    reveal_strlit("cp");
    reveal_strlit("-rvT");
    reveal_strlit("-v");
    reveal_strlit(" ");
    reveal_strlit("cp -rvT ");
    reveal_strlit("cp -v ");
    let flags = if is_dir {
        "-rvT"@
    } else {
        "-v"@
    };
    let rest = quoted(src) + " "@ + quoted(dst);
    let line = "cp"@ + " "@ + flags + " "@ + rest;
    assert("cp -rvT "@ =~= "cp"@ + " "@ + "-rvT"@ + " "@);
    assert("cp -v "@ =~= "cp"@ + " "@ + "-v"@ + " "@);
    assert(copy_line(src, dst, is_dir) =~= line + " 2>&1"@);
    lemma_two_words("cp"@, flags, rest);
    lemma_quoted_and_space(src, quoted(dst), seq!["cp"@, flags]);
    lemma_last_quoted(dst, seq!["cp"@, flags].push(src));
    assert(seq!["cp"@, flags].push(src).push(dst) =~= seq!["cp"@, flags, src, dst]);
}

/// Setting permissions names exactly the mode and the paths, where the mode is a plain word.
pub proof fn law_chmod_names_the_paths(mode: Seq<char>, paths: Seq<Seq<char>>)
    requires
        is_plain_word(mode),
        paths.len() > 0,
    ensures
        shell_words(chmod_line(mode, paths)) == Some(seq!["chmod"@, mode] + paths),
{
    reveal_strlit("chmod");
    reveal_strlit(" ");
    reveal_strlit("chmod ");
    let list = quoted_list(paths);
    assert(chmod_line(mode, paths) =~= "chmod"@ + " "@ + mode + " "@ + list);
    lemma_two_words("chmod"@, mode, list);
    lemma_last_list(paths, seq!["chmod"@, mode]);
}

/// Making a directory names exactly its path.
pub proof fn law_mkdir_names_the_path(path: Seq<char>)
    ensures
        shell_words(mkdir_line(path)) == Some(seq!["mkdir"@, "-p"@, path]),
{
    reveal_strlit("mkdir");
    reveal_strlit("-p");
    reveal_strlit(" ");
    reveal_strlit("mkdir -p ");
    assert(mkdir_line(path) =~= "mkdir"@ + " "@ + "-p"@ + " "@ + quoted(path));
    lemma_two_words("mkdir"@, "-p"@, quoted(path));
    lemma_last_quoted(path, seq!["mkdir"@, "-p"@]);
    assert(seq!["mkdir"@, "-p"@].push(path) =~= seq!["mkdir"@, "-p"@, path]);
}

/// Downloading names exactly the destination and the source.
pub proof fn law_download_names_its_ends(url: Seq<char>, dest: Seq<char>)
    ensures
        shell_words(download_line(url, dest)) == Some(
            seq!["curl"@, "-L"@, "-f"@, "-S"@, "-#"@, "-o"@, dest, url],
        ),
{
    reveal_strlit("curl");
    reveal_strlit("-L");
    reveal_strlit("-f");
    reveal_strlit("-S");
    reveal_strlit("-#");
    reveal_strlit("-o");
    reveal_strlit(" ");
    reveal_strlit("curl -L -f -S -# -o ");
    let last = quoted(dest) + " "@ + quoted(url);
    let r6 = "-o"@ + (" "@ + last);
    let r5 = "-#"@ + (" "@ + r6);
    let r4 = "-S"@ + (" "@ + r5);
    let r3 = "-f"@ + (" "@ + r4);
    assert(download_line(url, dest) =~= "curl"@ + " "@ + "-L"@ + " "@ + r3);
    lemma_two_words("curl"@, "-L"@, r3);
    let d2 = seq!["curl"@, "-L"@];
    lemma_word_and_space("-f"@, r4, d2);
    let d3 = d2.push("-f"@);
    lemma_word_and_space("-S"@, r5, d3);
    let d4 = d3.push("-S"@);
    let r5b = "#"@ + (" "@ + r6);
    reveal_strlit("#");
    assert(r5.skip(1) =~= r5b);
    assert(r5[0] == '-');
    let dash = Some(Seq::<char>::empty().push('-'));
    assert(word_so_far(None).push('-') == Seq::<char>::empty().push('-'));
    assert(read_words(r5, None, false, d4) == read_words(r5b, dash, false, d4));
    assert(r5b[0] == '#');
    assert(r5b.skip(1) =~= " "@ + r6);
    assert(word_so_far(dash).push('#') =~= "-#"@);
    lemma_space(r6, "-#"@, d4);
    let d5 = d4.push("-#"@);
    lemma_word_and_space("-o"@, last, d5);
    let d6 = d5.push("-o"@);
    lemma_quoted_and_space(dest, quoted(url), d6);
    lemma_last_quoted(url, d6.push(dest));
    assert(d6.push(dest).push(url) =~= seq![
        "curl"@,
        "-L"@,
        "-f"@,
        "-S"@,
        "-#"@,
        "-o"@,
        dest,
        url,
    ]);
}

/// The first two words of the line that packs an archive of a format.
pub open spec fn pack_words(format: Seq<char>) -> Seq<Seq<char>> {
    if format == "tar.gz"@ {
        seq!["tar"@, "-czvf"@]
    } else if format == "zip"@ {
        seq!["zip"@, "-r"@]
    } else {
        seq!["tar"@, "-cjvf"@]
    }
}

/// Packing enters exactly the directory that is given, and then names exactly the archive and
/// the names that are to be packed, before it joins the error output to the output.
pub proof fn law_compress_names_the_paths(
    format: Seq<char>,
    dir: Seq<char>,
    names: Seq<Seq<char>>,
    output: Seq<char>,
)
    requires
        packer(format) is Some,
        names.len() > 0,
    ensures
        compress_line(packer(format)->0, dir, names, output) == enter_line(dir) + " && "@
            + pack_line(packer(format)->0, output, names) + " 2>&1"@,
        shell_words(enter_line(dir)) == Some(seq!["cd"@, dir]),
        shell_words(pack_line(packer(format)->0, output, names)) == Some(
            pack_words(format).push(output) + names,
        ),
{
    reveal_strlit("cd");
    reveal_strlit("cd ");
    reveal_strlit(" ");
    reveal_strlit("tar");
    reveal_strlit("zip");
    reveal_strlit("-czvf");
    reveal_strlit("-cjvf");
    reveal_strlit("-r");
    reveal_strlit("tar -czvf ");
    reveal_strlit("tar -cjvf ");
    reveal_strlit("zip -r ");
    let none: Seq<Seq<char>> = Seq::empty();
    assert(enter_line(dir) =~= "cd"@ + (" "@ + quoted(dir)));
    lemma_word_and_space("cd"@, quoted(dir), none);
    lemma_last_quoted(dir, none.push("cd"@));
    assert(none.push("cd"@).push(dir) =~= seq!["cd"@, dir]);
    let program = packer(format)->0;
    let a = pack_words(format)[0];
    let b = pack_words(format)[1];
    let list = quoted_list(names);
    let rest = quoted(output) + " "@ + list;
    assert("tar -czvf "@ =~= "tar"@ + " "@ + "-czvf"@ + " "@);
    assert("tar -cjvf "@ =~= "tar"@ + " "@ + "-cjvf"@ + " "@);
    assert("zip -r "@ =~= "zip"@ + " "@ + "-r"@ + " "@);
    assert(program == a + " "@ + b + " "@);
    assert(pack_line(program, output, names) =~= a + " "@ + b + " "@ + rest);
    lemma_two_words(a, b, rest);
    lemma_quoted_and_space(output, list, seq![a, b]);
    lemma_last_list(names, seq![a, b].push(output));
    assert(seq![a, b] =~= pack_words(format));
}

/// The words of the line that unpacks an archive, but for the archive and the directory.
pub open spec fn unpack_words(archive: Seq<char>) -> (Seq<char>, Seq<char>, Seq<char>) {
    if has_suffix(archive, ".tar.gz"@) || has_suffix(archive, ".tgz"@) {
        ("tar"@, "-xzvf"@, "-C"@)
    } else if has_suffix(archive, ".tar.bz2"@) || has_suffix(archive, ".tbz2"@) {
        ("tar"@, "-xjvf"@, "-C"@)
    } else if has_suffix(archive, ".tar.xz"@) || has_suffix(archive, ".txz"@) {
        ("tar"@, "-xJvf"@, "-C"@)
    } else if has_suffix(archive, ".tar"@) {
        ("tar"@, "-xvf"@, "-C"@)
    } else {
        ("unzip"@, "-o"@, "-d"@)
    }
}

/// Unpacking names exactly the archive and the directory, before it joins the error output to
/// the output.
pub proof fn law_extract_names_the_paths(archive: Seq<char>, dest_dir: Seq<char>)
    requires
        unpacker(archive) is Some,
    ensures
        extract_line(unpacker(archive)->0, archive, dest_dir) == unpack_line(
            unpacker(archive)->0,
            archive,
            dest_dir,
        ) + " 2>&1"@,
        shell_words(unpack_line(unpacker(archive)->0, archive, dest_dir)) == Some(
            seq![
                unpack_words(archive).0,
                unpack_words(archive).1,
                archive,
                unpack_words(archive).2,
                dest_dir,
            ],
        ),
{
    reveal_strlit(" ");
    reveal_strlit("tar");
    reveal_strlit("unzip");
    reveal_strlit("-xzvf");
    reveal_strlit("-xjvf");
    reveal_strlit("-xJvf");
    reveal_strlit("-xvf");
    reveal_strlit("-o");
    reveal_strlit("-C");
    reveal_strlit("-d");
    reveal_strlit(" -C ");
    reveal_strlit(" -d ");
    reveal_strlit("tar -xzvf ");
    reveal_strlit("tar -xjvf ");
    reveal_strlit("tar -xJvf ");
    reveal_strlit("tar -xvf ");
    reveal_strlit("unzip -o ");
    let program = unpacker(archive)->0;
    let (a, b, c) = unpack_words(archive);
    assert("tar -xzvf "@ =~= "tar"@ + " "@ + "-xzvf"@ + " "@);
    assert("tar -xjvf "@ =~= "tar"@ + " "@ + "-xjvf"@ + " "@);
    assert("tar -xJvf "@ =~= "tar"@ + " "@ + "-xJvf"@ + " "@);
    assert("tar -xvf "@ =~= "tar"@ + " "@ + "-xvf"@ + " "@);
    assert("unzip -o "@ =~= "unzip"@ + " "@ + "-o"@ + " "@);
    assert(" -C "@ =~= " "@ + "-C"@ + " "@);
    assert(" -d "@ =~= " "@ + "-d"@ + " "@);
    assert(program.0 == a + " "@ + b + " "@);
    assert(program.1 == " "@ + c + " "@);
    let last = c + (" "@ + quoted(dest_dir));
    let rest = quoted(archive) + " "@ + last;
    assert(unpack_line(program, archive, dest_dir) =~= a + " "@ + b + " "@ + rest);
    lemma_two_words(a, b, rest);
    let d2 = seq![a, b];
    lemma_quoted_and_space(archive, last, d2);
    lemma_word_and_space(c, quoted(dest_dir), d2.push(archive));
    lemma_last_quoted(dest_dir, d2.push(archive).push(c));
    assert(d2.push(archive).push(c).push(dest_dir) =~= seq![a, b, archive, c, dest_dir]);
}

/// Running a command as root hands exactly that command to a shell, as one word: for root to the
/// shell itself, and for others to the shell through sudo, which may not ask for a password.
pub proof fn law_elevated_line_runs_the_command(command: Seq<char>)
    ensures
        exists|direct: Seq<char>, through: Seq<char>|
            {
                &&& elevated_line(command) == "if [ \"$(id -u)\" -eq 0 ]; then "@ + direct
                    + "; else "@ + through + "; fi"@
                &&& #[trigger] shell_words(direct) == Some(
                    seq!["exec"@, "sh"@, "-lc"@, command],
                )
                &&& #[trigger] shell_words(through) == Some(
                    seq!["exec"@, "sudo"@, "-n"@, "--"@, "sh"@, "-lc"@, command],
                )
            },
{
    reveal_strlit(" ");
    reveal_strlit("exec");
    reveal_strlit("sh");
    reveal_strlit("-lc");
    reveal_strlit("sudo");
    reveal_strlit("-n");
    reveal_strlit("--");
    reveal_strlit("if [ \"$(id -u)\" -eq 0 ]; then ");
    reveal_strlit("; else ");
    reveal_strlit("if [ \"$(id -u)\" -eq 0 ]; then exec sh -lc ");
    reveal_strlit("; else exec sudo -n -- sh -lc ");
    let word = quoted(command);
    let last = "-lc"@ + (" "@ + word);
    let direct = "exec"@ + " "@ + "sh"@ + " "@ + last;
    lemma_two_words("exec"@, "sh"@, last);
    let d = seq!["exec"@, "sh"@];
    lemma_word_and_space("-lc"@, word, d);
    lemma_last_quoted(command, d.push("-lc"@));
    assert(d.push("-lc"@).push(command) =~= seq!["exec"@, "sh"@, "-lc"@, command]);
    let r2 = "sh"@ + (" "@ + last);
    let r1 = "--"@ + (" "@ + r2);
    let r0 = "-n"@ + (" "@ + r1);
    let through = "exec"@ + " "@ + "sudo"@ + " "@ + r0;
    lemma_two_words("exec"@, "sudo"@, r0);
    let t = seq!["exec"@, "sudo"@];
    lemma_word_and_space("-n"@, r1, t);
    lemma_word_and_space("--"@, r2, t.push("-n"@));
    lemma_word_and_space("sh"@, last, t.push("-n"@).push("--"@));
    let t4 = t.push("-n"@).push("--"@).push("sh"@);
    lemma_word_and_space("-lc"@, word, t4);
    lemma_last_quoted(command, t4.push("-lc"@));
    assert(t4.push("-lc"@).push(command) =~= seq![
        "exec"@,
        "sudo"@,
        "-n"@,
        "--"@,
        "sh"@,
        "-lc"@,
        command,
    ]);
    assert("if [ \"$(id -u)\" -eq 0 ]; then exec sh -lc "@
        =~= "if [ \"$(id -u)\" -eq 0 ]; then "@ + ("exec"@ + " "@ + "sh"@ + " "@ + "-lc"@
        + " "@));
    assert("; else exec sudo -n -- sh -lc "@ =~= "; else "@ + ("exec"@ + " "@ + "sudo"@ + " "@
        + "-n"@ + " "@ + "--"@ + " "@ + "sh"@ + " "@ + "-lc"@ + " "@));
    assert(elevated_line(command) =~= "if [ \"$(id -u)\" -eq 0 ]; then "@ + direct + "; else "@
        + through + "; fi"@);
    assert(shell_words(direct) == Some(seq!["exec"@, "sh"@, "-lc"@, command]));
    assert(shell_words(through) == Some(
        seq!["exec"@, "sudo"@, "-n"@, "--"@, "sh"@, "-lc"@, command],
    ));
}

/// A program and a quoted text are two words.
proof fn lemma_program_and_quoted(program: Seq<char>, value: Seq<char>)
    requires
        is_plain_word(program),
    ensures
        shell_words(program + " "@ + quoted(value)) == Some(seq![program, value]),
{
    let none: Seq<Seq<char>> = Seq::empty();
    assert(program + " "@ + quoted(value) =~= program + (" "@ + quoted(value)));
    lemma_word_and_space(program, quoted(value), none);
    lemma_last_quoted(value, none.push(program));
    assert(none.push(program).push(value) =~= seq![program, value]);
}

/// Checking the space of a directory asks for the free bytes of exactly that directory, tries to
/// make and then removes one file in it, and lists what it holds.
pub proof fn law_check_space_names_the_path(path: Seq<char>)
    ensures
        exists|free: Seq<char>, make: Seq<char>, remove: Seq<char>, list: Seq<char>|
            {
                &&& check_space_line(path) == free
                    + " | tail -1 | awk '{print $4}'; echo '---'; "@ + make + " 2>&1 && "@
                    + remove + " && echo 'OK' || echo 'DENIED'; echo '---'; "@ + list
                    + " -maxdepth 1 -mindepth 1 -printf '%f|%y\n' | grep -v '^\\.|'"@
                &&& #[trigger] shell_words(free) == Some(seq!["df"@, "-B1"@, path])
                &&& #[trigger] shell_words(make) == Some(seq!["touch"@, path + "/.__wtest__"@])
                &&& #[trigger] shell_words(remove) == Some(seq!["rm"@, path + "/.__wtest__"@])
                &&& #[trigger] shell_words(list) == Some(seq!["find"@, path])
            },
{
    reveal_strlit(" ");
    reveal_strlit("'");
    reveal_strlit("df");
    reveal_strlit("-B1");
    reveal_strlit("touch");
    reveal_strlit("rm");
    reveal_strlit("find");
    reveal_strlit("/.__wtest__");
    reveal_strlit("df -B1 ");
    reveal_strlit(" | tail -1 | awk '{print $4}'; echo '---'; touch '");
    reveal_strlit(" | tail -1 | awk '{print $4}'; echo '---'; ");
    reveal_strlit("/.__wtest__' 2>&1 && rm '");
    reveal_strlit(" 2>&1 && ");
    reveal_strlit("/.__wtest__' && echo 'OK' || echo 'DENIED'; echo '---'; find ");
    reveal_strlit(" && echo 'OK' || echo 'DENIED'; echo '---'; ");
    let file = path + "/.__wtest__"@;
    let escaped = replace_quotes(path, quote_escape());
    lemma_replace_quotes_concat(path, "/.__wtest__"@, quote_escape());
    lemma_nothing_to_replace("/.__wtest__"@);
    assert(quoted(file) =~= "'"@ + escaped + "/.__wtest__"@ + "'"@);
    let free = "df"@ + " "@ + "-B1"@ + " "@ + quoted(path);
    lemma_two_words("df"@, "-B1"@, quoted(path));
    lemma_last_quoted(path, seq!["df"@, "-B1"@]);
    assert(seq!["df"@, "-B1"@].push(path) =~= seq!["df"@, "-B1"@, path]);
    let make = "touch"@ + " "@ + quoted(file);
    let remove = "rm"@ + " "@ + quoted(file);
    let list = "find"@ + " "@ + quoted(path);
    lemma_program_and_quoted("touch"@, file);
    lemma_program_and_quoted("rm"@, file);
    lemma_program_and_quoted("find"@, path);
    assert("df -B1 "@ =~= "df"@ + " "@ + "-B1"@ + " "@);
    assert(" | tail -1 | awk '{print $4}'; echo '---'; touch '"@
        =~= " | tail -1 | awk '{print $4}'; echo '---'; "@ + "touch"@ + " "@ + "'"@);
    assert("/.__wtest__' 2>&1 && rm '"@ =~= "/.__wtest__"@ + "'"@ + " 2>&1 && "@ + "rm"@ + " "@
        + "'"@);
    assert("/.__wtest__' && echo 'OK' || echo 'DENIED'; echo '---'; find "@
        =~= "/.__wtest__"@ + "'"@ + " && echo 'OK' || echo 'DENIED'; echo '---'; "@ + "find"@
        + " "@);
    assert(check_space_line(path) =~= free + " | tail -1 | awk '{print $4}'; echo '---'; "@ + make
        + " 2>&1 && "@ + remove + " && echo 'OK' || echo 'DENIED'; echo '---'; "@ + list
        + " -maxdepth 1 -mindepth 1 -printf '%f|%y\n' | grep -v '^\\.|'"@);
    assert(shell_words(free) == Some(seq!["df"@, "-B1"@, path]));
    assert(shell_words(make) == Some(seq!["touch"@, file]));
    assert(shell_words(remove) == Some(seq!["rm"@, file]));
    assert(shell_words(list) == Some(seq!["find"@, path]));
}

/// A text without quotes stays as it is when quotes are replaced.
proof fn lemma_nothing_to_replace(text: Seq<char>)
    requires
        forall|i: int| 0 <= i < text.len() ==> #[trigger] text[i] != '\'',
    ensures
        replace_quotes(text, quote_escape()) == text,
    decreases text.len(),
{
    if text.len() > 0 {
        assert(text[text.len() - 1] != '\'');
        assert forall|i: int| 0 <= i < text.drop_last().len() implies #[trigger] text.drop_last()[i]
            != '\'' by {
            assert(text.drop_last()[i] == text[i]);
        }
        lemma_nothing_to_replace(text.drop_last());
        assert(text.drop_last() + seq![text.last()] =~= text);
    }
}

} // verus!

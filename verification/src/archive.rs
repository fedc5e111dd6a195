//! The command lines that pack files into an archive and unpack one.

use crate::shell::{quote_list, quoted, quoted_list, shell_single_quote, texts};
use crate::text::{cat2, cat3, cat4, cat5, chars_of, ends_with, has_suffix, text_eq};
use vstd::prelude::*;
use vstd::string::*;

verus! {

/// The path of an entry in a directory; the empty path stands for the directory from which
/// relative paths go out.
pub open spec fn child_path(dir: Seq<char>, name: Seq<char>) -> Seq<char> {
    if dir.len() == 0 {
        name
    } else if dir == seq!['/'] {
        dir + name
    } else {
        dir + seq!['/'] + name
    }
}

/// Whether a name is an ordinary one for an entry: not empty, neither `.` nor `..`, and
/// without characters that separate the parts of a path on some system.
pub open spec fn ordinary_name(name: Seq<char>) -> bool {
    &&& name.len() > 0
    &&& name != "."@
    &&& name != ".."@
    &&& !name.contains('/')
    &&& !name.contains('\\')
    &&& !name.contains(':')
}

/// Whether a path is an ordinary one for a directory: empty, a single slash, or an absolute
/// path that neither begins with two slashes nor ends in a slash or in a part that is a dot,
/// and without characters that separate the parts of a path on other systems.
pub open spec fn ordinary_dir(dir: Seq<char>) -> bool {
    ||| dir.len() == 0
    ||| dir == seq!['/']
    ||| {
        &&& dir.len() >= 2
        &&& dir[0] == '/'
        &&& dir[1] != '/'
        &&& dir.last() != '/'
        &&& !(dir.last() == '.' && dir[dir.len() - 2] == '/')
        &&& !dir.contains('\\')
        &&& !dir.contains(':')
    }
}

/// `Path::parent` gives the path without its last part, and nothing for an empty path. How
/// other paths split into parts differs between systems: of those nothing is said.
#[verifier::external_body]
fn parent_of(path: &str) -> (parent: Option<String>)
    ensures
        path@.len() == 0 ==> parent is None,
        forall|dir: Seq<char>, name: Seq<char>|
            ordinary_dir(dir) && ordinary_name(name) && path@ == #[trigger] child_path(dir, name)
                ==> parent is Some && parent->0@ == dir,
{
    std::path::Path::new(path).parent().map(|parent| parent.to_string_lossy().to_string())
}

/// `Path::file_name` gives the last part of a path, and nothing for an empty path. How other
/// paths split into parts differs between systems: of those nothing is said.
#[verifier::external_body]
fn file_name_of(path: &str) -> (file_name: Option<String>)
    ensures
        path@.len() == 0 ==> file_name is None,
        forall|dir: Seq<char>, name: Seq<char>|
            ordinary_dir(dir) && ordinary_name(name) && path@ == #[trigger] child_path(dir, name)
                ==> file_name is Some && file_name->0@ == name,
{
    std::path::Path::new(path).file_name().map(|name| name.to_string_lossy().to_string())
}

/// The program, with its flags, that packs an archive of a format; none for other formats.
pub open spec fn packer(format: Seq<char>) -> Option<Seq<char>> {
    if format == "tar.gz"@ {
        Some("tar -czvf "@)
    } else if format == "zip"@ {
        Some("zip -r "@)
    } else if format == "tar.bz2"@ {
        Some("tar -cjvf "@)
    } else {
        None
    }
}

/// The line that enters a directory.
pub open spec fn enter_line(dir: Seq<char>) -> Seq<char> {
    "cd "@ + quoted(dir)
}

/// The line that packs some names into an archive.
pub open spec fn pack_line(
    program: Seq<char>,
    output: Seq<char>,
    names: Seq<Seq<char>>,
) -> Seq<char> {
    program + quoted(output) + " "@ + quoted_list(names)
}

/// The line that enters a directory and packs some names into an archive from there.
pub open spec fn compress_line(
    program: Seq<char>,
    dir: Seq<char>,
    names: Seq<Seq<char>>,
    output: Seq<char>,
) -> Seq<char> {
    enter_line(dir) + " && "@ + pack_line(program, output, names) + " 2>&1"@
}

/// The command that packs some names into an archive, as seen from a directory. A format that
/// is not known is an error.
pub fn compress_command(
    dir: &str,
    names: &Vec<String>,
    output: &str,
    format: &str,
) -> (command: Result<String, String>)
    ensures
        match packer(format@) {
            Some(program) => command is Ok && command->Ok_0@ == compress_line(
                program,
                dir@,
                texts(names@),
                output@,
            ),
            None => command is Err && command->Err_0@ == "Unsupported format: "@ + format@,
        },
{
    let program = if text_eq(format, "tar.gz") {
        "tar -czvf "
    } else if text_eq(format, "zip") {
        "zip -r "
    } else if text_eq(format, "tar.bz2") {
        "tar -cjvf "
    } else {
        return Err(cat2("Unsupported format: ", format));
    };
    let enter = cat2("cd ", shell_single_quote(dir).as_str());
    let pack = cat4(
        program,
        shell_single_quote(output).as_str(),
        " ",
        quote_list(names).as_str(),
    );
    Ok(cat4(enter.as_str(), " && ", pack.as_str(), " 2>&1"))
}

/// Whether a path is that of an entry in a directory, perhaps with slashes behind it.
pub open spec fn is_entry(path: Seq<char>, dir: Seq<char>, name: Seq<char>) -> bool {
    let child = child_path(dir, name);
    &&& name.len() > 0
    &&& child.len() <= path.len()
    &&& child == path.take(child.len() as int)
    &&& forall|i: int| child.len() <= i < path.len() ==> #[trigger] path[i] == '/'
}

fn is_entry_of(path: &str, dir: &str, name: &str) -> (found: bool)
    ensures
        found == is_entry(path@, dir@, name@),
{
    let child = if text_eq(dir, "") {
        name.to_owned()
    } else if text_eq(dir, "/") {
        cat2(dir, name)
    } else {
        cat3(dir, "/", name)
    };
    proof {
        reveal_strlit("");
        reveal_strlit("/");
        assert(dir@.len() == 0 ==> dir@ =~= ""@);
        assert(name@.len() == 0 ==> name@ =~= ""@);
        assert("/"@ == seq!['/']);
        assert(child@ == child_path(dir@, name@));
    }
    let path_chars = chars_of(path);
    let child_chars = chars_of(child.as_str());
    if text_eq(name, "") || path_chars.len() < child_chars.len() {
        return false;
    }
    let mut i: usize = 0;
    while i < path_chars.len()
        invariant
            path_chars@ == path@,
            child_chars@ == child@,
            child@ == child_path(dir@, name@),
            child@.len() <= path@.len(),
            i <= path@.len(),
            forall|j: int| 0 <= j < i && j < child@.len() ==> #[trigger] path@[j] == child@[j],
            forall|j: int| child@.len() <= j < i ==> #[trigger] path@[j] == '/',
        decreases path@.len() - i,
    {
        let expected = if i < child_chars.len() {
            child_chars[i]
        } else {
            '/'
        };
        if path_chars[i] != expected {
            assert(i < child@.len() ==> path@.take(child@.len() as int)[i as int]
                != child@[i as int]);
            return false;
        }
        i += 1;
    }
    assert(path@.take(child@.len() as int) == child@);
    true
}

/// Whether some names, as seen from a directory, stand for all the paths, one for each: either
/// they are the paths themselves, as seen from where one is, or each path is that of the entry
/// of that name in the directory.
pub open spec fn names_all(paths: Seq<Seq<char>>, dir: Seq<char>, names: Seq<Seq<char>>) -> bool {
    &&& names.len() == paths.len()
    &&& (dir == "."@ && names == paths) || (forall|i: int|
        0 <= i < paths.len() ==> is_entry(#[trigger] paths[i], dir, names[i]))
}

/// Whether all paths are ordinary entries of some directories, under some names.
pub open spec fn entries_of(
    paths: Seq<Seq<char>>,
    dirs: Seq<Seq<char>>,
    names: Seq<Seq<char>>,
) -> bool {
    &&& dirs.len() == paths.len()
    &&& names.len() == paths.len()
    &&& forall|i: int|
        0 <= i < paths.len() ==> ordinary_dir(dirs[i]) && ordinary_name(names[i])
            && #[trigger] paths[i] == child_path(dirs[i], names[i])
}

/// Whether all directories of a list are the first one.
pub open spec fn one_dir(dirs: Seq<Seq<char>>) -> bool {
    forall|i: int| 0 <= i < dirs.len() ==> #[trigger] dirs[i] == dirs[0]
}

/// The line that packs ordinary entries of some directories: by their names, from their
/// directory, where they are all in one, and otherwise by their paths.
pub open spec fn compress_entries_line(
    program: Seq<char>,
    paths: Seq<Seq<char>>,
    dirs: Seq<Seq<char>>,
    names: Seq<Seq<char>>,
    output: Seq<char>,
) -> Seq<char> {
    if one_dir(dirs) {
        compress_line(program, dirs[0], names, output)
    } else {
        compress_line(program, "."@, paths, output)
    }
}

/// The names by which some paths are packed, and the directory from which they are.
fn names_from_one_dir(paths: &Vec<String>) -> (found: Option<(String, Vec<String>)>)
    requires
        paths@.len() > 0,
    ensures
        found matches Some((dir, names)) ==> names_all(texts(paths@), dir@, texts(names@)),
        forall|dirs: Seq<Seq<char>>, names: Seq<Seq<char>>| #[trigger]
            entries_of(texts(paths@), dirs, names) ==> match found {
                Some((dir, list)) => one_dir(dirs) && dir@ == dirs[0] && texts(list@) == names,
                None => !one_dir(dirs),
            },
{
    let ghost all = texts(paths@);
    let dir = match parent_of(paths[0].as_str()) {
        Some(dir) => dir,
        None => {
            assert forall|dirs: Seq<Seq<char>>, expected: Seq<Seq<char>>| #[trigger]
                entries_of(all, dirs, expected) implies !one_dir(dirs) by {
                assert(all[0] == child_path(dirs[0], expected[0]));
            }
            return None;
        },
    };
    let mut names: Vec<String> = Vec::new();
    let mut i: usize = 0;
    assert forall|dirs: Seq<Seq<char>>, expected: Seq<Seq<char>>| #[trigger]
        entries_of(all, dirs, expected) implies dir@ == dirs[0] by {
        assert(all[0] == child_path(dirs[0], expected[0]));
    }
    while i < paths.len()
        invariant
            all == texts(paths@),
            i <= paths@.len(),
            names@.len() == i,
            forall|j: int| 0 <= j < i ==> is_entry(#[trigger] all[j], dir@, names@[j]@),
            forall|dirs: Seq<Seq<char>>, expected: Seq<Seq<char>>| #[trigger]
                entries_of(all, dirs, expected) ==> {
                    &&& dir@ == dirs[0]
                    &&& texts(names@) == expected.take(i as int)
                    &&& forall|j: int| 0 <= j < i ==> #[trigger] dirs[j] == dirs[0]
                },
        decreases paths@.len() - i,
    {
        let ghost before = names@;
        assert(all[i as int] == paths@[i as int]@);
        assert forall|dirs: Seq<Seq<char>>, expected: Seq<Seq<char>>| #[trigger]
            entries_of(all, dirs, expected) implies is_entry(
            all[i as int],
            dirs[i as int],
            expected[i as int],
        ) by {
            assert(all[i as int] == child_path(dirs[i as int], expected[i as int]));
            assert(all[i as int].take(all[i as int].len() as int) == all[i as int]);
        }
        let found = match (parent_of(paths[i].as_str()), file_name_of(paths[i].as_str())) {
            (Some(parent), Some(name)) => if text_eq(parent.as_str(), dir.as_str())
                && is_entry_of(paths[i].as_str(), dir.as_str(), name.as_str()) {
                Some(name)
            } else {
                None
            },
            _ => None,
        };
        assert forall|dirs: Seq<Seq<char>>, expected: Seq<Seq<char>>| #[trigger]
            entries_of(all, dirs, expected) implies match found {
            Some(name) => dirs[i as int] == dirs[0] && name@ == expected[i as int],
            None => dirs[i as int] != dirs[0],
        } by {
            assert(all[i as int] == child_path(dirs[i as int], expected[i as int]));
        }
        match found {
            Some(name) => {
                names.push(name);
                assert forall|dirs: Seq<Seq<char>>, expected: Seq<Seq<char>>| #[trigger]
                    entries_of(all, dirs, expected) implies texts(names@) == expected.take(
                    i + 1,
                ) by {
                    assert(texts(names@) == texts(before).push(name@));
                    assert(expected.take(i + 1) == expected.take(i as int).push(
                        expected[i as int],
                    ));
                }
            },
            None => {
                return None;
            },
        }
        i += 1;
    }
    proof {
        assert forall|j: int| 0 <= j < all.len() implies is_entry(
            #[trigger] all[j],
            dir@,
            texts(names@)[j],
        ) by {
            assert(texts(names@)[j] == names@[j]@);
        }
        assert forall|dirs: Seq<Seq<char>>, expected: Seq<Seq<char>>| #[trigger]
            entries_of(all, dirs, expected) implies one_dir(dirs) && texts(names@)
            == expected by {
            assert(expected.take(all.len() as int) == expected);
        }
    }
    Some((dir, names))
}

/// The command that packs some paths into an archive.
///
/// It is an error to pack nothing, and to ask for a format that is not known. Otherwise there
/// is a command, and it names every path: entries of one directory by their names, from that
/// directory, and paths in several directories as they stand. Of paths that are not ordinary
/// it is left open which of the two it is, as systems split them in different ways.
pub fn compress_paths(paths: &Vec<String>, output: &str, format: &str) -> (command: Result<
    String,
    String,
>)
    ensures
        paths@.len() == 0 ==> command is Err && command->Err_0@ == "No paths to compress"@,
        paths@.len() > 0 && packer(format@) is None ==> command is Err && command->Err_0@
            == "Unsupported format: "@ + format@,
        paths@.len() > 0 && packer(format@) is Some ==> command is Ok && exists|
            dir: Seq<char>,
            names: Seq<Seq<char>>,
        |
            names_all(texts(paths@), dir, names) && command->Ok_0@ == #[trigger] compress_line(
                packer(format@)->0,
                dir,
                names,
                output@,
            ),
        forall|dirs: Seq<Seq<char>>, names: Seq<Seq<char>>|
            paths@.len() > 0 && packer(format@) is Some && #[trigger] entries_of(
                texts(paths@),
                dirs,
                names,
            ) ==> command is Ok && command->Ok_0@ == compress_entries_line(
                packer(format@)->0,
                texts(paths@),
                dirs,
                names,
                output@,
            ),
{
    if paths.len() == 0 {
        return Err("No paths to compress".to_owned());
    }
    match names_from_one_dir(paths) {
        Some((dir, names)) => compress_command(dir.as_str(), &names, output, format),
        None => {
            assert(names_all(texts(paths@), "."@, texts(paths@)));
            compress_command(".", paths, output, format)
        },
    }
}

/// The program, with its flags and the flag for the target, that unpacks an archive, by the
/// ending of its name; none for other endings.
pub open spec fn unpacker(archive: Seq<char>) -> Option<(Seq<char>, Seq<char>)> {
    if has_suffix(archive, ".tar.gz"@) || has_suffix(archive, ".tgz"@) {
        Some(("tar -xzvf "@, " -C "@))
    } else if has_suffix(archive, ".tar.bz2"@) || has_suffix(archive, ".tbz2"@) {
        Some(("tar -xjvf "@, " -C "@))
    } else if has_suffix(archive, ".tar.xz"@) || has_suffix(archive, ".txz"@) {
        Some(("tar -xJvf "@, " -C "@))
    } else if has_suffix(archive, ".tar"@) {
        Some(("tar -xvf "@, " -C "@))
    } else if has_suffix(archive, ".zip"@) {
        Some(("unzip -o "@, " -d "@))
    } else {
        None
    }
}

/// The line that unpacks an archive into a directory, before the outputs are joined.
pub open spec fn unpack_line(
    program: (Seq<char>, Seq<char>),
    archive: Seq<char>,
    dest_dir: Seq<char>,
) -> Seq<char> {
    program.0 + quoted(archive) + program.1 + quoted(dest_dir)
}

/// The line that unpacks an archive into a directory.
pub open spec fn extract_line(
    program: (Seq<char>, Seq<char>),
    archive: Seq<char>,
    dest_dir: Seq<char>,
) -> Seq<char> {
    unpack_line(program, archive, dest_dir) + " 2>&1"@
}

/// The command that unpacks an archive into a directory. An archive whose name has an ending
/// that is not known is an error.
pub fn extract_command(archive_path: &str, dest_dir: &str) -> (command: Result<String, String>)
    ensures
        match unpacker(archive_path@) {
            Some(program) => command is Ok && command->Ok_0@ == extract_line(
                program,
                archive_path@,
                dest_dir@,
            ),
            None => command is Err && command->Err_0@ == "Unsupported archive format: "@
                + archive_path@,
        },
{
    let (program, flag) = if ends_with(archive_path, ".tar.gz") || ends_with(
        archive_path,
        ".tgz",
    ) {
        ("tar -xzvf ", " -C ")
    } else if ends_with(archive_path, ".tar.bz2") || ends_with(archive_path, ".tbz2") {
        ("tar -xjvf ", " -C ")
    } else if ends_with(archive_path, ".tar.xz") || ends_with(archive_path, ".txz") {
        ("tar -xJvf ", " -C ")
    } else if ends_with(archive_path, ".tar") {
        ("tar -xvf ", " -C ")
    } else if ends_with(archive_path, ".zip") {
        ("unzip -o ", " -d ")
    } else {
        return Err(cat2("Unsupported archive format: ", archive_path));
    };
    Ok(
        cat5(
            program,
            shell_single_quote(archive_path).as_str(),
            flag,
            shell_single_quote(dest_dir).as_str(),
            " 2>&1",
        ),
    )
}

/// Whether a name, as seen from a directory, leads to a path: the directory is where one is and
/// the name is the path itself, or the path is the name behind the directory and a slash, perhaps
/// with slashes behind it.
pub open spec fn leads_to(dir: Seq<char>, name: Seq<char>, path: Seq<char>) -> bool {
    ||| dir == "."@ && name == path
    ||| name.len() > 0 && exists|slashes: Seq<char>|
        {
            &&& forall|i: int| 0 <= i < slashes.len() ==> #[trigger] slashes[i] == '/'
            &&& {
                ||| dir.len() == 0 && path == #[trigger] (name + slashes)
                ||| dir == seq!['/'] && path == seq!['/'] + (name + slashes)
                ||| dir.len() > 0 && dir != seq!['/'] && path == dir + seq!['/'] + (name
                    + slashes)
            }
        }
}

/// Every path that is to be packed is packed: what is named leads to the paths, one name for
/// each, in their order.
pub proof fn law_every_path_is_named(
    paths: Seq<Seq<char>>,
    dir: Seq<char>,
    names: Seq<Seq<char>>,
    i: int,
)
    requires
        names_all(paths, dir, names),
        0 <= i < paths.len(),
    ensures
        names.len() == paths.len(),
        leads_to(dir, names[i], paths[i]),
{
    if !(dir == "."@ && names == paths) {
        let path = paths[i];
        let name = names[i];
        assert(is_entry(path, dir, name));
        let child = child_path(dir, name);
        let slashes = path.skip(child.len() as int);
        assert(path =~= child + slashes);
        assert forall|j: int| 0 <= j < slashes.len() implies #[trigger] slashes[j] == '/' by {
            assert(path[child.len() + j] == '/');
        }
        if dir.len() == 0 {
            assert(path =~= name + slashes);
        } else if dir == seq!['/'] {
            assert(path =~= seq!['/'] + (name + slashes));
        } else {
            assert(path =~= dir + seq!['/'] + (name + slashes));
        }
    }
}

/// Ordinary entries are packed by names that lead to them, whatever directories they are in.
pub proof fn law_ordinary_entries_are_named(
    program: Seq<char>,
    paths: Seq<Seq<char>>,
    dirs: Seq<Seq<char>>,
    names: Seq<Seq<char>>,
    output: Seq<char>,
)
    requires
        entries_of(paths, dirs, names),
        paths.len() > 0,
    ensures
        exists|dir: Seq<char>, named: Seq<Seq<char>>|
            {
                &&& compress_entries_line(program, paths, dirs, names, output)
                    == #[trigger] compress_line(program, dir, named, output)
                &&& named.len() == paths.len()
                &&& forall|i: int|
                    0 <= i < paths.len() ==> leads_to(dir, named[i], #[trigger] paths[i])
            },
{
    if one_dir(dirs) {
        let dir = dirs[0];
        assert forall|i: int| 0 <= i < paths.len() implies leads_to(
            dir,
            names[i],
            #[trigger] paths[i],
        ) by {
            assert(dirs[i] == dir);
            assert(paths[i] == child_path(dirs[i], names[i]));
            let none = Seq::<char>::empty();
            assert(names[i] + none =~= names[i]);
        }
        assert(compress_entries_line(program, paths, dirs, names, output) == compress_line(
            program,
            dir,
            names,
            output,
        ));
    } else {
        assert forall|i: int| 0 <= i < paths.len() implies leads_to(
            "."@,
            paths[i],
            #[trigger] paths[i],
        ) by {
        }
        assert(compress_entries_line(program, paths, dirs, names, output) == compress_line(
            program,
            "."@,
            paths,
            output,
        ));
    }
}

/// Archives are packed in three formats, and unpacked by eight endings of their names; everything
/// else is not known.
pub proof fn law_known_formats(format: Seq<char>, archive: Seq<char>)
    ensures
        packer(format) is Some <==> format == "tar.gz"@ || format == "zip"@ || format
            == "tar.bz2"@,
        unpacker(archive) is Some <==> has_suffix(archive, ".tar.gz"@) || has_suffix(
            archive,
            ".tgz"@,
        ) || has_suffix(archive, ".tar.bz2"@) || has_suffix(archive, ".tbz2"@) || has_suffix(
            archive,
            ".tar.xz"@,
        ) || has_suffix(archive, ".txz"@) || has_suffix(archive, ".tar"@) || has_suffix(
            archive,
            ".zip"@,
        ),
{
}

} // verus!

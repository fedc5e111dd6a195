//! Files of a server: how they are listed and described, how their content is shown, and how
//! they are uploaded and saved piece by piece.

use crate::bytes::{lossy_text, text_of_bytes};
use crate::json::{Json, JsonView};
use crate::json_text::{compact_json, compact_text, print_view};
use crate::text::cat2;
use crate::transfers::{Notice, NoticeView};
use vstd::prelude::*;

verus! {

/// What a server tells of a file.
#[derive(Debug, PartialEq, Eq)]
pub struct FileAttributes {
    pub size: Option<u64>,
    /// The kind of the file and its permissions, as bits.
    pub mode: Option<u32>,
    pub mtime: Option<u32>,
    pub user: Option<String>,
}

/// An entry of a directory.
#[derive(Debug, PartialEq, Eq)]
pub struct FileEntry {
    pub name: String,
    pub attributes: FileAttributes,
}

/// Whether a mode is known and has all of some bits.
pub open spec fn mode_has(mode: Option<u32>, bits: u32) -> bool {
    mode is Some && mode->0 & bits == bits
}

/// Whether a mode counts as that of a directory.
pub open spec fn is_dir_mode(mode: Option<u32>) -> bool {
    mode_has(mode, 0x4000)
}

/// Whether a mode counts as that of a symbolic link.
pub open spec fn is_symlink_mode(mode: Option<u32>) -> bool {
    mode_has(mode, 0xA000)
}

/// A letter where a mode has a bit, and a dash where it has not.
pub open spec fn mode_letter(mode: Option<u32>, bit: u32, letter: char) -> char {
    if mode_has(mode, bit) {
        letter
    } else {
        '-'
    }
}

/// The permissions of the owner, the group and all others, in letters.
pub open spec fn mode_text(mode: Option<u32>) -> Seq<char> {
    seq![
        mode_letter(mode, 0x100, 'r'),
        mode_letter(mode, 0x80, 'w'),
        mode_letter(mode, 0x40, 'x'),
        mode_letter(mode, 0x20, 'r'),
        mode_letter(mode, 0x10, 'w'),
        mode_letter(mode, 0x8, 'x'),
        mode_letter(mode, 0x4, 'r'),
        mode_letter(mode, 0x2, 'w'),
        mode_letter(mode, 0x1, 'x'),
    ]
}

/// `FileAttributes::is_dir` of the SFTP crate tells whether the mode is known and has the bit of
/// a directory, which some other kinds of files have too.
#[verifier::external_body]
fn dir_mode(mode: Option<u32>) -> (found: bool)
    ensures
        found == is_dir_mode(mode),
{
    russh_sftp::protocol::FileAttributes { permissions: mode, ..Default::default() }.is_dir()
}

/// `FileAttributes::is_symlink` of the SFTP crate tells whether the mode is known and has both
/// bits of a symbolic link.
#[verifier::external_body]
fn symlink_mode(mode: Option<u32>) -> (found: bool)
    ensures
        found == is_symlink_mode(mode),
{
    russh_sftp::protocol::FileAttributes { permissions: mode, ..Default::default() }.is_symlink()
}

/// `FileAttributes::permissions` of the SFTP crate displays itself with a letter for each of
/// the nine permission bits that the mode has, and a dash for each other one; an unknown mode
/// has none.
#[verifier::external_body]
fn permission_letters(mode: Option<u32>) -> (text: String)
    ensures
        text@ == mode_text(mode),
{
    let attributes = russh_sftp::protocol::FileAttributes {
        permissions: mode,
        ..Default::default()
    };
    attributes.permissions().to_string()
}

/// The size of a file; zero where it is not told.
pub open spec fn size_of(attributes: FileAttributes) -> int {
    match attributes.size {
        Some(size) => size as int,
        None => 0,
    }
}

fn known_size(attributes: &FileAttributes) -> (size: u64)
    ensures
        size == size_of(*attributes),
{
    match attributes.size {
        Some(size) => size,
        None => 0,
    }
}

/// What is told of an entry.
pub open spec fn entry_view(entry: FileEntry) -> JsonView {
    let attributes = entry.attributes;
    JsonView::Object(
        map![
            "name"@ => JsonView::Text(entry.name@),
            "isDir"@ => JsonView::Bool(is_dir_mode(attributes.mode)),
            "isSymlink"@ => JsonView::Bool(is_symlink_mode(attributes.mode)),
            "size"@ => JsonView::Int(size_of(attributes)),
            "permissions"@ => JsonView::Text(mode_text(attributes.mode)),
            "mtime"@ => JsonView::Int(
                match attributes.mtime {
                    Some(mtime) => mtime as int,
                    None => 0,
                },
            ),
            "owner"@ => JsonView::Text(
                match attributes.user {
                    Some(user) => user@,
                    None => ""@,
                },
            ),
        ],
    )
}

fn entry_value(entry: &FileEntry) -> (value: Json)
    ensures
        value@ == entry_view(*entry),
{
    let attributes = &entry.attributes;
    let mtime: u64 = match attributes.mtime {
        Some(mtime) => mtime as u64,
        None => 0,
    };
    let owner = match &attributes.user {
        Some(user) => user.as_str(),
        None => "",
    };
    Json::object().with("name", Json::text(entry.name.as_str())).with(
        "isDir",
        Json::Bool(dir_mode(attributes.mode)),
    ).with("isSymlink", Json::Bool(symlink_mode(attributes.mode))).with(
        "size",
        Json::Unsigned(known_size(attributes)),
    ).with("permissions", Json::Text(permission_letters(attributes.mode))).with(
        "mtime",
        Json::Unsigned(mtime),
    ).with("owner", Json::text(owner))
}

/// What is told of the entries of a directory, in their order.
pub open spec fn listing_view(entries: Seq<FileEntry>) -> JsonView {
    JsonView::Array(entries.map_values(|entry: FileEntry| entry_view(entry)))
}

/// What is told of the entries of a directory.
pub fn listing(entries: &Vec<FileEntry>) -> (list: Json)
    ensures
        list@ == listing_view(entries@),
{
    let ghost all = entries@.map_values(|entry: FileEntry| entry_view(entry));
    let mut list = Json::array();
    let mut i: usize = 0;
    assert(all.take(0) =~= Seq::empty());
    while i < entries.len()
        invariant
            i <= entries@.len(),
            all == entries@.map_values(|entry: FileEntry| entry_view(entry)),
            list@ == JsonView::Array(all.take(i as int)),
        decreases entries@.len() - i,
    {
        list = list.and(entry_value(&entries[i]));
        assert(all.take(i as int).push(all[i as int]) =~= all.take(i + 1));
        i += 1;
    }
    assert(all.take(all.len() as int) =~= all);
    list
}

/// What is given of a listing that was printed.
pub fn listing_outcome(printed: Result<String, String>) -> (outcome: Result<String, String>)
    ensures
        match (printed, outcome) {
            (Ok(text), Ok(given)) => given == text,
            (Err(error), Err(message)) => message@ == "JSON error: "@ + error@,
            _ => false,
        },
{
    match printed {
        Ok(text) => Ok(text),
        Err(error) => Err(cat2("JSON error: ", error.as_str())),
    }
}

/// Lists the entries of a directory as text.
pub fn list_dir(entries: &Vec<FileEntry>) -> (outcome: Result<String, String>)
    ensures
        print_view(outcome) == match compact_text(listing_view(entries@)) {
            Ok(text) => Ok::<Seq<char>, Seq<char>>(text),
            Err(error) => Err("JSON error: "@ + error),
        },
{
    listing_outcome(compact_json(&listing(entries)))
}

/// What is told of a path that exists: it is a file where it is neither a directory nor a
/// symbolic link.
pub open spec fn stat_view(attributes: FileAttributes) -> JsonView {
    let is_dir = is_dir_mode(attributes.mode);
    let is_symlink = is_symlink_mode(attributes.mode);
    JsonView::Object(
        map![
            "exists"@ => JsonView::Bool(true),
            "isDir"@ => JsonView::Bool(is_dir),
            "isFile"@ => JsonView::Bool(!is_dir && !is_symlink),
            "isSymlink"@ => JsonView::Bool(is_symlink),
            "size"@ => JsonView::Int(size_of(attributes)),
        ],
    )
}

/// What is told of a path that exists.
pub fn stat_file(attributes: &FileAttributes) -> (value: Json)
    ensures
        value@ == stat_view(*attributes),
{
    let is_dir = dir_mode(attributes.mode);
    let is_symlink = symlink_mode(attributes.mode);
    let is_file = !is_dir && !is_symlink;
    Json::object().with("exists", Json::Bool(true)).with("isDir", Json::Bool(is_dir)).with(
        "isFile",
        Json::Bool(is_file),
    ).with("isSymlink", Json::Bool(is_symlink)).with("size", Json::Unsigned(known_size(attributes)))
}

/// The bytes of a file that are shown: at most the first 1048576.
pub open spec fn shown_bytes(content: Seq<u8>) -> Seq<u8> {
    if content.len() > 1048576 {
        content.take(1048576)
    } else {
        content
    }
}

/// The bytes of a file that are shown.
pub fn first_bytes(content: &[u8]) -> (shown: &[u8])
    ensures
        shown@ == shown_bytes(content@),
{
    if content.len() > 1048576 {
        vstd::slice::slice_subrange(content, 0, 1048576)
    } else {
        content
    }
}

/// Shows the content of a file as text.
pub fn read_file(content: &[u8]) -> (text: String)
    ensures
        text@ == lossy_text(shown_bytes(content@)),
        vstd::utf8::valid_utf8(shown_bytes(content@)) ==> text@ == vstd::utf8::decode_utf8(
            shown_bytes(content@),
        ),
{
    text_of_bytes(first_bytes(content))
}

/// How many bytes of an upload are sent once the next piece of it is: pieces are of 32768
/// bytes, but for the last.
pub open spec fn sent_next(total: int, sent: int) -> int {
    if total - sent > 32768 {
        sent + 32768
    } else {
        total
    }
}

/// How much of an upload is sent, in percent.
pub open spec fn percent_sent(total: int, sent: int) -> int {
    (sent * 100) / total
}

/// What is told of an upload.
pub open spec fn upload_notice(session_id: Seq<char>, total: int, sent: int) -> NoticeView {
    NoticeView {
        topic: "upload-progress"@,
        payload: JsonView::Object(
            map![
                "sessionId"@ => JsonView::Text(session_id),
                "progress"@ => JsonView::Int(percent_sent(total, sent)),
                "sent"@ => JsonView::Int(sent),
                "total"@ => JsonView::Int(total),
            ],
        ),
    }
}

proof fn lemma_percent(total: int, sent: int)
    requires
        0 <= sent <= total,
        total > 0,
    ensures
        0 <= percent_sent(total, sent) <= 100,
        sent == total ==> percent_sent(total, sent) == 100,
{
    assert(0 <= (sent * 100) / total <= 100) by (nonlinear_arith)
        requires
            0 <= sent <= total,
            total > 0,
    ;
    assert(sent == total ==> (sent * 100) / total == 100) by (nonlinear_arith)
        requires
            total > 0,
    ;
}

/// The next piece of an upload: how many bytes are sent once it is, and what is told then.
/// None where all is sent.
pub fn upload(session_id: &str, total: usize, sent: usize) -> (piece: Option<(usize, Notice)>)
    requires
        sent <= total,
    ensures
        piece is None <==> sent == total,
        piece matches Some((end, notice)) ==> sent < end <= total && end == sent_next(
            total as int,
            sent as int,
        ) && notice@ == upload_notice(session_id@, total as int, end as int),
{
    if sent == total {
        return None;
    }
    let end: usize = if total - sent > 32768 {
        sent + 32768
    } else {
        total
    };
    proof {
        lemma_percent(total as int, end as int);
    }
    let percent: u128 = (end as u128 * 100) / (total as u128);
    assert(percent as int == percent_sent(total as int, end as int));
    let payload = Json::object().with("sessionId", Json::text(session_id)).with(
        "progress",
        Json::Unsigned(percent as u64),
    ).with("sent", Json::Unsigned(end as u64)).with("total", Json::Unsigned(total as u64));
    Some((end, Notice { topic: "upload-progress", payload }))
}

/// The progress of an upload is never more than 100, never falls, and is 100 at the end.
pub proof fn law_upload_progress_is_a_percentage(total: int, sent: int)
    requires
        0 <= sent < total,
    ensures
        sent < sent_next(total, sent) <= total,
        0 <= percent_sent(total, sent) <= percent_sent(total, sent_next(total, sent)) <= 100,
        sent_next(total, sent) == total ==> percent_sent(total, sent_next(total, sent)) == 100,
{
    let next = sent_next(total, sent);
    lemma_percent(total, sent);
    lemma_percent(total, next);
    assert((sent * 100) / total <= (next * 100) / total) by (nonlinear_arith)
        requires
            0 <= sent <= next,
            total > 0,
    ;
}

/// How a file is opened to take a piece of an upload.
#[derive(Clone, Copy, Debug, PartialEq, Eq, Structural)]
pub enum UploadOpening {
    /// It is made anew, and emptied if it is there.
    Create,
    /// It is kept as it is, and the piece is written at an offset.
    At(u64),
}

/// How a file is opened to take the piece at an offset.
pub open spec fn opening_at(offset: u64) -> UploadOpening {
    if offset == 0 {
        UploadOpening::Create
    } else {
        UploadOpening::At(offset)
    }
}

/// How a file is opened to take the piece at an offset.
pub fn upload_chunk(offset: u64) -> (opening: UploadOpening)
    ensures
        opening == opening_at(offset),
{
    if offset == 0 {
        UploadOpening::Create
    } else {
        UploadOpening::At(offset)
    }
}

/// What a file holds after a piece was written to it, where the offset is not behind its end.
pub open spec fn with_piece(held: Seq<u8>, opening: UploadOpening, piece: Seq<u8>) -> Seq<u8> {
    match opening {
        UploadOpening::Create => piece,
        UploadOpening::At(offset) => held.take(offset as int) + piece + if offset + piece.len()
            < held.len() {
            held.skip(offset + piece.len())
        } else {
            Seq::empty()
        },
    }
}

/// The bytes of some pieces, one after the other.
pub open spec fn joined_pieces(pieces: Seq<Seq<u8>>) -> Seq<u8>
    decreases pieces.len(),
{
    if pieces.len() == 0 {
        Seq::empty()
    } else {
        joined_pieces(pieces.drop_last()) + pieces.last()
    }
}

/// What a file holds after some pieces were written to it in order, each at the offset behind
/// those before it.
pub open spec fn with_pieces(held: Seq<u8>, pieces: Seq<Seq<u8>>) -> Seq<u8>
    decreases pieces.len(),
{
    if pieces.len() == 0 {
        held
    } else {
        with_piece(
            with_pieces(held, pieces.drop_last()),
            opening_at(joined_pieces(pieces.drop_last()).len() as u64),
            pieces.last(),
        )
    }
}

/// Pieces that are sent in order leave exactly their bytes, one piece after the other, whatever
/// the file held before.
pub proof fn law_pieces_in_order_are_joined(held: Seq<u8>, pieces: Seq<Seq<u8>>)
    requires
        pieces.len() > 0,
        joined_pieces(pieces).len() <= u64::MAX,
    ensures
        with_pieces(held, pieces) == joined_pieces(pieces),
    decreases pieces.len(),
{
    let front = pieces.drop_last();
    let before = joined_pieces(front);
    if front.len() > 0 {
        law_pieces_in_order_are_joined(held, front);
    }
    if before.len() == 0 {
        assert(joined_pieces(pieces) =~= pieces.last());
    } else {
        assert(with_pieces(held, pieces) =~= before + pieces.last());
    }
}

/// A piece that is sent again leaves the file as it is.
pub proof fn law_piece_sent_again_changes_nothing(held: Seq<u8>, offset: u64, piece: Seq<u8>)
    requires
        0 < offset <= held.len(),
    ensures
        ({
            let once = with_piece(held, opening_at(offset), piece);
            with_piece(once, opening_at(offset), piece) == once
        }),
{
    let once = with_piece(held, opening_at(offset), piece);
    assert(with_piece(once, opening_at(offset), piece) =~= once);
}

/// What a running transfer does next.
#[derive(Clone, Copy, Debug, PartialEq, Eq, Structural)]
pub enum TransferGate {
    /// Give up, and remove what was saved.
    Stop,
    /// Wait a little, and look again.
    Pause,
    /// Go on with the next piece.
    Go,
}

/// What a running transfer does next: to stop counts before to pause.
pub fn transfer_gate(stopped: bool, paused: bool) -> (gate: TransferGate)
    ensures
        gate == if stopped {
            TransferGate::Stop
        } else if paused {
            TransferGate::Pause
        } else {
            TransferGate::Go
        },
{
    if stopped {
        TransferGate::Stop
    } else if paused {
        TransferGate::Pause
    } else {
        TransferGate::Go
    }
}

/// What is reported of a transfer that was stopped.
pub fn transfer_stopped() -> (message: String)
    ensures
        message@ == "Transfer stopped"@,
{
    "Transfer stopped".to_owned()
}

/// What is told of a file that is being saved.
pub open spec fn save_notice(session_id: Seq<char>, saved: int, total: int) -> NoticeView {
    NoticeView {
        topic: "save-local-progress"@,
        payload: JsonView::Object(
            map![
                "sessionId"@ => JsonView::Text(session_id),
                "uploaded"@ => JsonView::Int(saved),
                "total"@ => JsonView::Int(total),
            ],
        ),
    }
}

/// Goes on after a piece of a file was read: how many bytes are saved with it, and what is told
/// once they are. None at the end of the file.
pub fn save_piece(session_id: &str, saved: u64, read: usize, total: u64) -> (piece: Option<
    (u64, Notice),
>)
    requires
        saved + read <= u64::MAX,
    ensures
        piece is None <==> read == 0,
        piece matches Some((now, notice)) ==> now == saved + read && notice@ == save_notice(
            session_id@,
            saved + read,
            total as int,
        ),
{
    if read == 0 {
        return None;
    }
    let now: u64 = saved + read as u64;
    let payload = Json::object().with("sessionId", Json::text(session_id)).with(
        "uploaded",
        Json::Unsigned(now),
    ).with("total", Json::Unsigned(total));
    Some((now, Notice { topic: "save-local-progress", payload }))
}

proof fn lemma_file_names()
    ensures
        "name"@ != "isDir"@,
        "name"@ != "isSymlink"@,
        "name"@ != "size"@,
        "name"@ != "permissions"@,
        "name"@ != "mtime"@,
        "name"@ != "owner"@,
        "isDir"@ != "isSymlink"@,
        "isDir"@ != "size"@,
        "isDir"@ != "permissions"@,
        "isDir"@ != "mtime"@,
        "isDir"@ != "owner"@,
        "isSymlink"@ != "size"@,
        "isSymlink"@ != "permissions"@,
        "isSymlink"@ != "mtime"@,
        "isSymlink"@ != "owner"@,
        "size"@ != "permissions"@,
        "size"@ != "mtime"@,
        "size"@ != "owner"@,
        "permissions"@ != "mtime"@,
        "permissions"@ != "owner"@,
        "mtime"@ != "owner"@,
        "exists"@ != "isDir"@,
        "exists"@ != "isFile"@,
        "exists"@ != "isSymlink"@,
        "exists"@ != "size"@,
        "isFile"@ != "isDir"@,
        "isFile"@ != "isSymlink"@,
        "isFile"@ != "size"@,
        "sessionId"@ != "progress"@,
        "sessionId"@ != "sent"@,
        "sessionId"@ != "total"@,
        "sessionId"@ != "uploaded"@,
        "progress"@ != "sent"@,
        "progress"@ != "total"@,
        "sent"@ != "total"@,
        "uploaded"@ != "total"@,
{
    reveal_strlit("name");
    reveal_strlit("isDir");
    reveal_strlit("isSymlink");
    reveal_strlit("size");
    reveal_strlit("permissions");
    reveal_strlit("mtime");
    reveal_strlit("owner");
    reveal_strlit("exists");
    reveal_strlit("isFile");
    reveal_strlit("sessionId");
    reveal_strlit("progress");
    reveal_strlit("sent");
    reveal_strlit("total");
    reveal_strlit("uploaded");
    assert("name"@.len() == 4 && "isDir"@.len() == 5 && "isSymlink"@.len() == 9);
    assert("size"@.len() == 4 && "permissions"@.len() == 11 && "mtime"@.len() == 5);
    assert("owner"@.len() == 5 && "exists"@.len() == 6 && "isFile"@.len() == 6);
    assert("sessionId"@.len() == 9 && "progress"@.len() == 8 && "sent"@.len() == 4);
    assert("total"@.len() == 5 && "uploaded"@.len() == 8);
    assert("name"@[0] == 'n' && "size"@[0] == 's');
    assert("isDir"@[0] == 'i' && "mtime"@[0] == 'm' && "owner"@[0] == 'o');
    assert("exists"@[0] == 'e' && "isFile"@[0] == 'i');
}

/// What is told of an entry of a directory is its own name, kind, size, permissions, time and
/// owner, each under its own name; what the server does not tell counts as zero or as nothing.
pub proof fn law_entry_is_told_as_it_is(entry: FileEntry)
    ensures
        ({
            let told = entry_view(entry);
            let attributes = entry.attributes;
            &&& told.text_field("name"@) == Some(entry.name@)
            &&& told.field("isDir"@) == Some(
                JsonView::Bool(attributes.mode matches Some(mode) && mode & 0x4000 == 0x4000),
            )
            &&& told.field("isSymlink"@) == Some(
                JsonView::Bool(attributes.mode matches Some(mode) && mode & 0xA000 == 0xA000),
            )
            &&& attributes.size matches Some(size) ==> told.field("size"@) == Some(
                JsonView::Int(size as int),
            )
            &&& attributes.size is None ==> told.field("size"@) == Some(JsonView::Int(0))
            &&& attributes.mtime matches Some(mtime) ==> told.field("mtime"@) == Some(
                JsonView::Int(mtime as int),
            )
            &&& attributes.mtime is None ==> told.field("mtime"@) == Some(JsonView::Int(0))
            &&& attributes.user matches Some(user) ==> told.text_field("owner"@) == Some(user@)
            &&& attributes.user is None ==> told.text_field("owner"@) == Some(""@)
            &&& told.text_field("permissions"@) == Some(mode_text(attributes.mode))
        }),
{
    lemma_file_names();
}

/// The permissions of a file are told in nine letters, three each for the owner, the group and
/// all others: of each three the first tells who may read, the second who may write and the
/// third who may run, by the bits of the mode from the highest to the lowest.
pub proof fn law_permissions_are_told_bit_by_bit(mode: u32, i: int)
    requires
        0 <= i < 9,
    ensures
        mode_text(Some(mode)).len() == 9,
        mode_text(None) == seq!['-', '-', '-', '-', '-', '-', '-', '-', '-'],
        ({
            let bit: u32 = if i == 0 {
                0o400
            } else if i == 1 {
                0o200
            } else if i == 2 {
                0o100
            } else if i == 3 {
                0o40
            } else if i == 4 {
                0o20
            } else if i == 5 {
                0o10
            } else if i == 6 {
                0o4
            } else if i == 7 {
                0o2
            } else {
                0o1
            };
            mode_text(Some(mode))[i] == if mode & bit != bit {
                '-'
            } else if i % 3 == 0 {
                'r'
            } else if i % 3 == 1 {
                'w'
            } else {
                'x'
            }
        }),
{
    assert(mode_text(None) =~= seq!['-', '-', '-', '-', '-', '-', '-', '-', '-']);
}

/// A directory is listed with all its entries, in their order.
pub proof fn law_listing_has_all_entries(entries: Seq<FileEntry>)
    ensures
        listing_view(entries) matches JsonView::Array(list) && list.len() == entries.len()
            && forall|i: int| 0 <= i < list.len() ==> #[trigger] list[i] == entry_view(entries[i]),
{
}

/// What is told of a path is that it exists, and its kind and size: it is a file exactly where it
/// counts neither as a directory nor as a symbolic link.
pub proof fn law_path_is_told_as_it_is(attributes: FileAttributes)
    ensures
        ({
            let told = stat_view(attributes);
            let is_dir = attributes.mode matches Some(mode) && mode & 0x4000 == 0x4000;
            let is_symlink = attributes.mode matches Some(mode) && mode & 0xA000 == 0xA000;
            &&& told.field("exists"@) == Some(JsonView::Bool(true))
            &&& told.field("isDir"@) == Some(JsonView::Bool(is_dir))
            &&& told.field("isSymlink"@) == Some(JsonView::Bool(is_symlink))
            &&& told.field("isFile"@) == Some(JsonView::Bool(!is_dir && !is_symlink))
            &&& attributes.size matches Some(size) ==> told.field("size"@) == Some(
                JsonView::Int(size as int),
            )
            &&& attributes.size is None ==> told.field("size"@) == Some(JsonView::Int(0))
        }),
{
    lemma_file_names();
}

/// The bytes of a file that are shown are its beginning: all of it, or the first 1048576 bytes.
pub proof fn law_shown_bytes_begin_the_file(content: Seq<u8>)
    ensures
        shown_bytes(content).is_prefix_of(content),
        shown_bytes(content).len() == if content.len() < 1048576 {
            content.len()
        } else {
            1048576
        },
{
}

/// The pieces of an upload are of 32768 bytes, but for the last one, which is what is left; and
/// what is told behind a piece are the bytes that were sent, of how many, and the whole percent
/// that this is.
pub proof fn law_upload_goes_in_even_pieces(session_id: Seq<char>, total: int, sent: int)
    requires
        0 <= sent < total,
    ensures
        ({
            let next = sent_next(total, sent);
            let told = upload_notice(session_id, total, next);
            &&& next - sent == 32768 || (next == total && next - sent < 32768)
            &&& told.topic == "upload-progress"@
            &&& told.payload.text_field("sessionId"@) == Some(session_id)
            &&& told.payload.field("sent"@) == Some(JsonView::Int(next))
            &&& told.payload.field("total"@) == Some(JsonView::Int(total))
            &&& told.payload.field("progress"@) matches Some(JsonView::Int(percent)) && percent
                * total <= next * 100 < (percent + 1) * total
        }),
{
    lemma_file_names();
    let next = sent_next(total, sent);
    let percent = percent_sent(total, next);
    assert(((next * 100) / total) * total <= next * 100 < ((next * 100) / total + 1) * total)
        by (nonlinear_arith)
        requires
            total > 0,
    ;
}

/// What is told of a file that is being saved are the bytes that were saved, and of how many.
pub proof fn law_saving_is_told(session_id: Seq<char>, saved: int, total: int)
    ensures
        save_notice(session_id, saved, total).topic == "save-local-progress"@,
        save_notice(session_id, saved, total).payload.text_field("sessionId"@) == Some(session_id),
        save_notice(session_id, saved, total).payload.field("uploaded"@) == Some(
            JsonView::Int(saved),
        ),
        save_notice(session_id, saved, total).payload.field("total"@) == Some(
            JsonView::Int(total),
        ),
{
    lemma_file_names();
}

/// A piece is written at its offset: a file that is made anew holds the piece alone, and in
/// another one the bytes of the piece stand from the offset on, and all others stay.
pub proof fn law_piece_is_written_at_its_offset(
    held: Seq<u8>,
    offset: u64,
    piece: Seq<u8>,
    i: int,
)
    requires
        offset <= held.len(),
    ensures
        ({
            let after = with_piece(held, opening_at(offset), piece);
            &&& offset == 0 ==> after == piece
            &&& 0 <= i < piece.len() ==> offset + i < after.len() && after[offset + i] == piece[i]
            &&& offset > 0 && 0 <= i < held.len() && !(offset <= i < offset + piece.len())
                ==> i < after.len() && after[i] == held[i]
            &&& offset > 0 ==> after.len() == if held.len() < offset + piece.len() {
                (offset + piece.len()) as nat
            } else {
                held.len()
            }
        }),
{
}

} // verus!

//! What is reported where something on a server, or on this machine, fails.

use crate::text::cat3;
use vstd::prelude::*;

verus! {

/// What failed, for a reason that is reported with it.
#[derive(Clone, Copy, Debug, PartialEq, Eq, Structural)]
pub enum Failure {
    Exec,
    SftpSubsystem,
    SftpStart,
    ReadDirectory,
    Stat,
    OpenFile,
    ReadFile,
    CreateFile,
    WriteFile,
    FlushFile,
    CreateDirectory,
    Rename,
    Write,
    Finalize,
    OpenRemoteFile,
    ReadRemoteFile,
    CreateLocalFile,
    Read,
    Flush,
    CreateTempDir,
    SendCommandInput,
    CloseCommandInput,
}

impl Failure {
    /// What failed, in words.
    pub open spec fn text(self) -> Seq<char> {
        match self {
            Failure::Exec => "Exec failed"@,
            Failure::SftpSubsystem => "SFTP subsystem request failed"@,
            Failure::SftpStart => "SFTP init failed"@,
            Failure::ReadDirectory => "Failed to read directory"@,
            Failure::Stat => "Path does not exist"@,
            Failure::OpenFile => "Failed to open file"@,
            Failure::ReadFile => "Failed to read file"@,
            Failure::CreateFile => "Failed to create file"@,
            Failure::WriteFile => "Failed to write file"@,
            Failure::FlushFile => "Failed to flush file"@,
            Failure::CreateDirectory => "Failed to create directory"@,
            Failure::Rename => "Failed to rename"@,
            Failure::Write => "Write failed"@,
            Failure::Finalize => "Failed to finalize"@,
            Failure::OpenRemoteFile => "Failed to open remote file"@,
            Failure::ReadRemoteFile => "Failed to read remote file"@,
            Failure::CreateLocalFile => "Failed to create local file"@,
            Failure::Read => "Read failed"@,
            Failure::Flush => "Flush failed"@,
            Failure::CreateTempDir => "Failed to create temp dir"@,
            Failure::SendCommandInput => "Failed to send command input"@,
            Failure::CloseCommandInput => "Failed to close command input"@,
        }
    }

    fn words(self) -> (text: &'static str)
        ensures
            text@ == self.text(),
    {
        match self {
            Failure::Exec => "Exec failed",
            Failure::SftpSubsystem => "SFTP subsystem request failed",
            Failure::SftpStart => "SFTP init failed",
            Failure::ReadDirectory => "Failed to read directory",
            Failure::Stat => "Path does not exist",
            Failure::OpenFile => "Failed to open file",
            Failure::ReadFile => "Failed to read file",
            Failure::CreateFile => "Failed to create file",
            Failure::WriteFile => "Failed to write file",
            Failure::FlushFile => "Failed to flush file",
            Failure::CreateDirectory => "Failed to create directory",
            Failure::Rename => "Failed to rename",
            Failure::Write => "Write failed",
            Failure::Finalize => "Failed to finalize",
            Failure::OpenRemoteFile => "Failed to open remote file",
            Failure::ReadRemoteFile => "Failed to read remote file",
            Failure::CreateLocalFile => "Failed to create local file",
            Failure::Read => "Read failed",
            Failure::Flush => "Flush failed",
            Failure::CreateTempDir => "Failed to create temp dir",
            Failure::SendCommandInput => "Failed to send command input",
            Failure::CloseCommandInput => "Failed to close command input",
        }
    }

    /// What is reported of the failure, with its reason.
    pub fn report(self, reason: &str) -> (message: String)
        ensures
            message@ == self.text() + ": "@ + reason@,
    {
        cat3(self.words(), ": ", reason)
    }
}

proof fn lemma_text_of_failure(failure: Failure)
    ensures
        match failure {
            Failure::Exec => failure.text().len() == 11 && failure.text()[0] == 'E',
            Failure::SftpSubsystem => failure.text().len() == 29 && failure.text()[0] == 'S',
            Failure::SftpStart => failure.text().len() == 16 && failure.text()[0] == 'S',
            Failure::ReadDirectory => failure.text().len() == 24,
            Failure::Stat => failure.text().len() == 19 && failure.text()[10] == 'n',
            Failure::OpenFile => failure.text().len() == 19 && failure.text()[10] == 'o',
            Failure::ReadFile => failure.text().len() == 19 && failure.text()[10] == 'r',
            Failure::CreateFile => failure.text().len() == 21,
            Failure::WriteFile => failure.text().len() == 20 && failure.text()[10] == 'w',
            Failure::FlushFile => failure.text().len() == 20 && failure.text()[10] == 'f',
            Failure::CreateDirectory => failure.text().len() == 26 && failure.text()[10] == 'c',
            Failure::Rename => failure.text().len() == 16 && failure.text()[0] == 'F',
            Failure::Write => failure.text().len() == 12 && failure.text()[0] == 'W',
            Failure::Finalize => failure.text().len() == 18,
            Failure::OpenRemoteFile => failure.text().len() == 26 && failure.text()[10] == 'o',
            Failure::ReadRemoteFile => failure.text().len() == 26 && failure.text()[10] == 'r',
            Failure::CreateLocalFile => failure.text().len() == 27,
            Failure::Read => failure.text().len() == 11 && failure.text()[0] == 'R',
            Failure::Flush => failure.text().len() == 12 && failure.text()[0] == 'F',
            Failure::CreateTempDir => failure.text().len() == 25,
            Failure::SendCommandInput => failure.text().len() == 28,
            Failure::CloseCommandInput => failure.text().len() == 29 && failure.text()[0] == 'F',
        },
{
    match failure {
        Failure::Exec => {
            reveal_strlit("Exec failed");
        },
        Failure::SftpSubsystem => {
            reveal_strlit("SFTP subsystem request failed");
        },
        Failure::SftpStart => {
            reveal_strlit("SFTP init failed");
        },
        Failure::ReadDirectory => {
            reveal_strlit("Failed to read directory");
        },
        Failure::Stat => {
            reveal_strlit("Path does not exist");
        },
        Failure::OpenFile => {
            reveal_strlit("Failed to open file");
        },
        Failure::ReadFile => {
            reveal_strlit("Failed to read file");
        },
        Failure::CreateFile => {
            reveal_strlit("Failed to create file");
        },
        Failure::WriteFile => {
            reveal_strlit("Failed to write file");
        },
        Failure::FlushFile => {
            reveal_strlit("Failed to flush file");
        },
        Failure::CreateDirectory => {
            reveal_strlit("Failed to create directory");
        },
        Failure::Rename => {
            reveal_strlit("Failed to rename");
        },
        Failure::Write => {
            reveal_strlit("Write failed");
        },
        Failure::Finalize => {
            reveal_strlit("Failed to finalize");
        },
        Failure::OpenRemoteFile => {
            reveal_strlit("Failed to open remote file");
        },
        Failure::ReadRemoteFile => {
            reveal_strlit("Failed to read remote file");
        },
        Failure::CreateLocalFile => {
            reveal_strlit("Failed to create local file");
        },
        Failure::Read => {
            reveal_strlit("Read failed");
        },
        Failure::Flush => {
            reveal_strlit("Flush failed");
        },
        Failure::CreateTempDir => {
            reveal_strlit("Failed to create temp dir");
        },
        Failure::SendCommandInput => {
            reveal_strlit("Failed to send command input");
        },
        Failure::CloseCommandInput => {
            reveal_strlit("Failed to close command input");
        },
    }
}

/// No two failures are told in the same words, so that what is reported says what failed.
pub proof fn law_failures_are_told_apart(one: Failure, other: Failure)
    ensures
        one.text() == other.text() <==> one == other,
        one.text().len() > 0,
{
    lemma_text_of_failure(one);
    lemma_text_of_failure(other);
}

} // verus!

use quick_transfer::agent::CommunicationAgent;
use quick_transfer::client::{
    cd_outcome, download_fail_notice, download_outcome, goodbye_due, handshake_message,
    handshake_reply, initial_listing, ls_outcome, mkdir_outcome, parse_command,
    parse_directory_name, parse_file_dir_name_and_name, parse_file_name, read_download_reply,
    refresh_outcome, remove_outcome, rename_outcome, server_disconnected, unknown_command_notice,
    upload_outcome, upload_start, ClientCommand, ClientOutcome, DownloadReply, LocalFile, Notice,
    INVALID_DIR_NAME_MESSAGE,
};
use quick_transfer::console::{
    first_word_length, framed, parse_server_command, split_once_whitespace, split_two_arguments,
    trim, ServerCommand,
};
use quick_transfer::error::{
    decimal, map_connect_error, map_tcp_error, read_opposite_role, IoErrorKind, ProgramRole,
    QuickTransferError,
};
use quick_transfer::options::{
    complete_options, read_key, OptionsFault, ProgramOptions, DEFAULT_PORT, DEFAULT_TIMEOUT,
};
use quick_transfer::messages::{
    CdAnswer, DirectoryContents, DirectoryPosition, FileFail, MessageDirectoryContents,
    MkdirAnswer, RemoveAnswer, RenameAnswer, UploadResult,
};
use quick_transfer::stream::QuickTransferStream;

fn error_notice(text: &str) -> Option<Notice> {
    Some(Notice { text: text.to_string(), is_error: true })
}

fn contents() -> DirectoryContents {
    DirectoryContents {
        location: "./a".to_string(),
        positions: vec![DirectoryPosition { name: "x".to_string(), is_directory: false }],
    }
}

fn misuse(text: &str) -> ClientCommand {
    ClientCommand::Misuse(text.to_string())
}

#[test]
fn trim_drops_white_space_at_both_ends() {
    assert_eq!(trim("  cd  a b \t\n"), "cd  a b");
    assert_eq!(trim("ls"), "ls");
    assert_eq!(trim(""), "");
    assert_eq!(trim(" \t "), "");
    assert_eq!(trim("\u{a0}zażółć\u{2003}"), "zażółć");
    assert_eq!(trim("x"), "x");
    assert_eq!(trim(" x"), "x");
    assert_eq!(trim("x "), "x");
}

#[test]
fn words_and_splits() {
    assert_eq!(first_word_length("download file"), 8);
    assert_eq!(first_word_length("ls"), 2);
    assert_eq!(first_word_length(""), 0);
    assert_eq!(first_word_length(" x"), 0);
    assert_eq!(split_once_whitespace("cd  a b"), Some(("cd", " a b")));
    assert_eq!(split_once_whitespace("cd\tdir"), Some(("cd", "dir")));
    assert_eq!(split_once_whitespace("cd "), Some(("cd", "")));
    assert_eq!(split_once_whitespace("cd"), None);
    assert_eq!(split_once_whitespace(""), None);
    assert_eq!(split_two_arguments("mv a b c"), ("a", "b c"));
    assert_eq!(split_two_arguments("mv a"), ("a", ""));
    assert_eq!(split_two_arguments("mv"), ("", ""));
    assert_eq!(split_two_arguments("mv  a b"), ("", "a b"));
    assert_eq!(framed("<", "x", ">"), "<x>");
}

#[test]
fn commands_with_their_arguments() {
    assert_eq!(parse_command("cd subdir"), ClientCommand::Cd("subdir".to_string()));
    assert_eq!(parse_command("  cd ..  "), ClientCommand::Cd("..".to_string()));
    assert_eq!(parse_command("cd my dir"), ClientCommand::Cd("my dir".to_string()));
    assert_eq!(parse_command("cd  x"), ClientCommand::Cd(" x".to_string()));
    assert_eq!(parse_command("ls"), ClientCommand::Ls);
    assert_eq!(parse_command("  ls\n"), ClientCommand::Ls);
    assert_eq!(
        parse_command("download a/b.txt"),
        ClientCommand::Download("a/b.txt".to_string())
    );
    assert_eq!(parse_command("upload ./x"), ClientCommand::Upload("./x".to_string()));
    assert_eq!(parse_command("mkdir nowy"), ClientCommand::Mkdir("nowy".to_string()));
    assert_eq!(
        parse_command("mv old new name"),
        ClientCommand::Mv("old".to_string(), "new name".to_string())
    );
    assert_eq!(parse_command("rm gone"), ClientCommand::Rm("gone".to_string()));
    assert_eq!(parse_command("clear"), ClientCommand::Clear);
    assert_eq!(parse_command("exit"), ClientCommand::Exit);
    assert_eq!(parse_command("disconnect"), ClientCommand::Exit);
    assert_eq!(parse_command("quit now"), ClientCommand::Exit);
    assert_eq!(parse_command("help"), ClientCommand::Help);
    assert_eq!(parse_command(""), ClientCommand::Empty);
    assert_eq!(parse_command("  \t"), ClientCommand::Empty);
    assert_eq!(parse_command("dance now"), ClientCommand::Unknown("dance".to_string()));
    assert_eq!(parse_command("cdx"), ClientCommand::Unknown("cdx".to_string()));
}

#[test]
fn misused_commands() {
    assert_eq!(
        parse_command("cd"),
        misuse(
            "Usage: `cd <directory_name>`. `directory_name` should be either the name of a directory in current view, \".\" or \"..\"."
        )
    );
    assert_eq!(
        parse_command("mkdir"),
        misuse(
            "Usage: `mkdir <directory_name>`. `directory_name` should be either the name of a directory in current view, \".\" or \"..\"."
        )
    );
    assert_eq!(parse_command("ls -la"), misuse("Usage: `ls`"));
    assert_eq!(
        parse_command("download"),
        misuse(
            "Usage: `download <file_path>`. <file_path>` should be either the path of a file relative to current view."
        )
    );
    assert_eq!(
        parse_command("upload"),
        misuse(
            "Usage: `upload <file_path>`. <file_path>` should be either the path of a file relative to current view."
        )
    );
    assert_eq!(
        parse_command("rm"),
        misuse(
            "Usage: `rm <file_dir_path>`. <file_dir_path>` should be either the path of a file relative to current view."
        )
    );
    assert_eq!(
        parse_command("mv"),
        misuse(
            "Note: `file_dir_path` should be either the path of a file relative to current view.. "
        )
    );
    assert_eq!(parse_command("mv a"), misuse("Note: `new_name` cannot be empty. "));
}

#[test]
fn argument_parsers() {
    assert_eq!(parse_directory_name("cd a", "cd <directory_name>"), Ok("a".to_string()));
    assert_eq!(
        parse_directory_name("cd ", "cd <directory_name>"),
        Err(format!("Error: `directory_name` cannot be empty. {}", INVALID_DIR_NAME_MESSAGE))
    );
    assert_eq!(
        parse_directory_name("cd", "cd <directory_name>"),
        Err(format!("Usage: `cd <directory_name>`. {}", INVALID_DIR_NAME_MESSAGE))
    );
    assert_eq!(
        parse_file_name("download f", "download <file_path>", "<file_path>"),
        Ok("f".to_string())
    );
    assert_eq!(
        parse_file_name("download ", "download <file_path>", "<file_path>"),
        Err("Note: `<file_path>` cannot be empty. ".to_string())
    );
    assert_eq!(
        parse_file_dir_name_and_name("mv a b"),
        Ok(("a".to_string(), "b".to_string()))
    );
    assert_eq!(
        parse_file_dir_name_and_name("mv  b"),
        Err(
            "Note: `file_dir_path` should be either the path of a file relative to current view.. "
                .to_string()
        )
    );
}

#[test]
fn operator_commands() {
    assert_eq!(parse_server_command("clear"), ServerCommand::Clear);
    assert_eq!(parse_server_command(" exit "), ServerCommand::Shutdown);
    assert_eq!(parse_server_command("disconnect"), ServerCommand::Shutdown);
    assert_eq!(parse_server_command("quit"), ServerCommand::Shutdown);
    assert_eq!(parse_server_command("help me"), ServerCommand::Help);
    assert_eq!(parse_server_command(""), ServerCommand::Empty);
    assert_eq!(parse_server_command("ls"), ServerCommand::Unknown("ls".to_string()));
}

#[test]
fn help_texts() {
    let mut help = String::from(">");
    quick_transfer::console::preprint_user_help(&mut help);
    assert_eq!(
        help,
        ">Available commands:\n  clear                          Clear the screen.\n  exit; disconnect; quit         Gracefully disconnect all clients\n                                 and exit QuickTransfer.\n"
    );
    let mut help = String::new();
    quick_transfer::client::preprint_user_help(&mut help);
    assert!(help.starts_with("Available commands:\n  cd <directory_name>            Change directory to `directory_name`\n"));
    assert!(help.ends_with("  exit; disconnect; quit         Gracefully disconnect and exit QuickTransfer.\n"));
    assert_eq!(help.lines().count(), 21);
    assert!(help.contains("  mv <file_dir_path> <new_name>  Rename a file/directory.\n"));
}

#[test]
fn client_handshake() {
    assert_eq!(handshake_message(false), "INIT____");
    assert_eq!(handshake_message(true), "INIT_ENC");
    assert_eq!(handshake_reply("OK______"), Ok(()));
    assert_eq!(
        handshake_reply("NOT_ENC_"),
        Err(QuickTransferError::ServerDoesNotSupportEncryption)
    );
    assert_eq!(
        handshake_reply("DIR_____"),
        Err(QuickTransferError::SentInvalidData(ProgramRole::Client))
    );
    assert!(server_disconnected("DISCONN_"));
    assert!(!server_disconnected("DIR_____"));
    assert!(goodbye_due(&Ok(true)));
    assert!(!goodbye_due(&Ok(false)));
    assert!(!goodbye_due(&Err(QuickTransferError::Other)));
}

#[test]
fn first_listing() {
    assert_eq!(
        initial_listing(Some(MessageDirectoryContents::Success(contents())), "./"),
        Ok(contents())
    );
    let failed = Err(Notice {
        text: "Error: An error in reading contents of `./root` occurred.".to_string(),
        is_error: true,
    });
    assert_eq!(
        initial_listing(Some(MessageDirectoryContents::ReadingDirectoryError), "./root"),
        failed
    );
    assert_eq!(initial_listing(None, "./root"), failed);
}

#[test]
fn cd_and_ls_outcomes() {
    assert_eq!(
        cd_outcome(CdAnswer::DirectoryDoesNotExist, "nope"),
        ClientOutcome {
            notice: error_notice("Error: Directory `nope` does not exist!"),
            listing: None,
            refresh: false
        }
    );
    assert_eq!(
        cd_outcome(CdAnswer::IllegalDirectory, "..").notice,
        error_notice("Error: You don't have access to directory `..`!")
    );
    assert_eq!(
        cd_outcome(CdAnswer::ReadingDirectoryError, "d").notice,
        error_notice("Error: An error in reading contents of `d` occurred.")
    );
    assert_eq!(
        cd_outcome(CdAnswer::Success(MessageDirectoryContents::Success(contents())), "a"),
        ClientOutcome { notice: None, listing: Some(contents()), refresh: false }
    );
    assert_eq!(
        cd_outcome(CdAnswer::Success(MessageDirectoryContents::ReadingDirectoryError), "a"),
        ClientOutcome { notice: None, listing: None, refresh: false }
    );
    assert_eq!(
        ls_outcome(MessageDirectoryContents::Success(contents())),
        ClientOutcome { notice: None, listing: Some(contents()), refresh: false }
    );
    assert_eq!(
        ls_outcome(MessageDirectoryContents::ReadingDirectoryError).notice,
        error_notice("Error: An error in reading contents of the directory occurred.")
    );
    assert_eq!(
        refresh_outcome(MessageDirectoryContents::ReadingDirectoryError),
        ClientOutcome { notice: None, listing: None, refresh: false }
    );
    assert_eq!(
        refresh_outcome(MessageDirectoryContents::Success(contents())).listing,
        Some(contents())
    );
}

#[test]
fn download_replies() {
    let agent = CommunicationAgent::new(
        QuickTransferStream::new_unencrypted(ProgramRole::Client, 5),
        ProgramRole::Client,
        5,
    );
    let mut failed = b"DOWNFAIL".to_vec();
    failed.extend_from_slice(&4u64.to_be_bytes());
    failed.extend_from_slice(&[0, 0, 0, 0]);
    assert_eq!(read_download_reply(&agent, &failed), Ok(DownloadReply::Failed(&[0, 0, 0, 0])));
    let mut starts = b"DOWNSUCC".to_vec();
    starts.extend_from_slice(&1234u64.to_be_bytes());
    assert_eq!(
        read_download_reply(&agent, &starts),
        Ok(DownloadReply::Starts { file_size: 1234 })
    );
    assert_eq!(
        read_download_reply(&agent, b"CDANSWER"),
        Err(QuickTransferError::SentInvalidData(ProgramRole::Client))
    );
    assert_eq!(
        read_download_reply(&agent, b"DOWNSUCC123"),
        Err(QuickTransferError::SentInvalidData(ProgramRole::Client))
    );
}

#[test]
fn download_notices() {
    assert_eq!(
        download_fail_notice(FileFail::FileDoesNotExist, "missing.txt").text,
        "Error: File `missing.txt` does not exist!"
    );
    assert_eq!(
        download_fail_notice(FileFail::IllegalFile, "f").text,
        "Error: You don't have access to file `f`!"
    );
    assert_eq!(
        download_fail_notice(FileFail::ErrorOpeningFile, "f").text,
        "Error: Error opening file `f`!"
    );
    assert_eq!(
        download_fail_notice(FileFail::ErrorCreatingFile, "f").text,
        "Error: Error creating file `f`!"
    );
    assert!(download_fail_notice(FileFail::IllegalFile, "f").is_error);
    assert_eq!(
        download_outcome(Ok(()), "f.bin"),
        Ok(Notice { text: "Successfully downloaded file `f.bin`!".to_string(), is_error: false })
    );
    assert_eq!(
        download_outcome(
            Err(QuickTransferError::WritingFile { file_path: "/tmp/f.bin".to_string() }),
            "f.bin"
        ),
        Ok(Notice { text: "Error: Error saving file `/tmp/f.bin`.".to_string(), is_error: true })
    );
    assert_eq!(
        download_outcome(Err(QuickTransferError::Deciphering), "f.bin"),
        Err(QuickTransferError::Deciphering)
    );
}

#[test]
fn upload_notices() {
    assert_eq!(
        upload_start(LocalFile::Missing, "f"),
        (None, Notice { text: "Error: File `f` does not exist!".to_string(), is_error: true })
    );
    assert_eq!(upload_start(LocalFile::Unopenable, "f").1.text, "Error opening file `f`.");
    assert_eq!(
        upload_start(LocalFile::SizeUnknown, "f").1.text,
        "Error reading size of file `f`."
    );
    assert_eq!(
        upload_start(LocalFile::Ready { file_size: 9 }, "f"),
        (Some(9), Notice { text: "Uploading file `f`...".to_string(), is_error: false })
    );
    assert_eq!(
        upload_outcome(UploadResult::Success, "f").text,
        "Successfully uploaded file `f`!"
    );
    assert_eq!(
        upload_outcome(UploadResult::Fail(FileFail::ErrorCreatingFile), "f").text,
        "Uploading file `f` failed. An error creating the file on server occurred."
    );
    assert_eq!(
        upload_outcome(UploadResult::Fail(FileFail::IllegalFile), "f").text,
        "Uploading file `f` failed."
    );
    assert!(!upload_outcome(UploadResult::Fail(FileFail::IllegalFile), "f").is_error);
}

#[test]
fn mkdir_rename_and_remove_outcomes() {
    assert_eq!(
        mkdir_outcome(MkdirAnswer::Success, "d"),
        ClientOutcome {
            notice: Some(Notice {
                text: "Successfully created directory `d`.".to_string(),
                is_error: false
            }),
            listing: None,
            refresh: true
        }
    );
    assert_eq!(
        mkdir_outcome(MkdirAnswer::DirectoryAlreadyExists, "d"),
        ClientOutcome {
            notice: error_notice("Error: Directory `d` already exists!"),
            listing: None,
            refresh: false
        }
    );
    assert_eq!(
        mkdir_outcome(MkdirAnswer::IllegalDirectory, "d").notice,
        error_notice("Error: You don't have access to directory `d`!")
    );
    assert_eq!(
        mkdir_outcome(MkdirAnswer::ErrorCreatingDirectory, "d").notice,
        error_notice("Error: An error creating directory `d` has occurred.")
    );
    assert_eq!(
        rename_outcome(
            RenameAnswer::Success { old_name: "a".to_string(), new_name: "b".to_string() },
            "a"
        ),
        ClientOutcome {
            notice: Some(Notice {
                text: "Successfully renamed `a` to `b`.".to_string(),
                is_error: false
            }),
            listing: None,
            refresh: true
        }
    );
    assert_eq!(
        rename_outcome(RenameAnswer::FileDirDoesNotExist, "a").notice,
        error_notice("Error: File/directory `a` does not exist!")
    );
    assert_eq!(
        rename_outcome(RenameAnswer::IllegalFileDir, "a").notice,
        error_notice("Error: You don't have access to file/directory `a`!")
    );
    assert_eq!(
        rename_outcome(RenameAnswer::ErrorRenaming, "a").notice,
        error_notice("Error: An error renaming file/directory `a` has occurred.")
    );
    assert!(!rename_outcome(RenameAnswer::ErrorRenaming, "a").refresh);
    assert_eq!(
        remove_outcome(RemoveAnswer::Success, "a"),
        ClientOutcome {
            notice: Some(Notice { text: "Successfully removed `a`.".to_string(), is_error: false }),
            listing: None,
            refresh: true
        }
    );
    assert_eq!(
        remove_outcome(RemoveAnswer::FileDirDoesNotExist, "a").notice,
        error_notice("Error: File/directory `a` does not exist!")
    );
    assert_eq!(
        remove_outcome(RemoveAnswer::IllegalFileDir, "a").notice,
        error_notice("Error: You don't have access to file/directory `a`!")
    );
    assert_eq!(
        remove_outcome(RemoveAnswer::ErrorRemoving, "a").notice,
        error_notice("Error: An error removing file/directory `a` has occurred.")
    );
    assert_eq!(
        remove_outcome(RemoveAnswer::DirectoryNotEmpty, "a").notice,
        error_notice(
            "Error: Directory `a` is not empty! For safety reasons, deleting non-empty directories is not allowed."
        )
    );
}

#[test]
fn unknown_command() {
    assert_eq!(
        unknown_command_notice("dance"),
        Notice { text: "Error: Command `dance` does not exist!".to_string(), is_error: true }
    );
}

#[test]
fn roles_and_their_opposites() {
    assert_eq!(ProgramRole::Server.name(), "server");
    assert_eq!(ProgramRole::Client.name(), "client");
    assert_eq!(read_opposite_role(&ProgramRole::Server, true), "Client");
    assert_eq!(read_opposite_role(&ProgramRole::Server, false), "client");
    assert_eq!(read_opposite_role(&ProgramRole::Client, true), "Server");
    assert_eq!(read_opposite_role(&ProgramRole::Client, false), "server");
}

#[test]
fn socket_errors_are_mapped() {
    assert_eq!(
        map_tcp_error(IoErrorKind::UnexpectedEof, ProgramRole::Client),
        QuickTransferError::RemoteClosedConnection(ProgramRole::Client)
    );
    assert_eq!(
        map_tcp_error(IoErrorKind::Other, ProgramRole::Server),
        QuickTransferError::MessageReceive(ProgramRole::Server)
    );
    assert_eq!(
        map_tcp_error(IoErrorKind::ConnectionRefused, ProgramRole::Server),
        QuickTransferError::MessageReceive(ProgramRole::Server)
    );
    assert_eq!(
        map_connect_error(IoErrorKind::ConnectionRefused, "::1".to_string(), 9990),
        QuickTransferError::ConnectionRefused { server_ip: "::1".to_string(), port: 9990 }
    );
    assert_eq!(
        map_connect_error(IoErrorKind::Other, "::1".to_string(), 9990),
        QuickTransferError::ConnectionCreation
    );
}

#[test]
fn decimal_digits() {
    assert_eq!(decimal(0), "0");
    assert_eq!(decimal(7), "7");
    assert_eq!(decimal(10), "10");
    assert_eq!(decimal(47842), "47842");
    assert_eq!(decimal(u64::MAX), "18446744073709551615");
}

#[test]
fn every_error_has_its_line() {
    let server = ProgramRole::Server;
    let client = ProgramRole::Client;
    assert_eq!(
        QuickTransferError::ServerCreation.message(),
        "An error occurred while creating a server. Please try again."
    );
    assert_eq!(
        QuickTransferError::ConnectionRefused { server_ip: "host".to_string(), port: 47842 }
            .message(),
        "Server \"host\" refused the connection. Make sure this is a correct address and the server is running QuickTransfer on port 47842."
    );
    assert_eq!(
        QuickTransferError::ConnectionCreation.message(),
        "An error occurred while connecting. Please try again."
    );
    assert_eq!(
        QuickTransferError::MessageReceive(client).message(),
        "An error occurred while receiving a message from server."
    );
    assert_eq!(
        QuickTransferError::MessageReceiveTimeout(server).message(),
        "Timeout for receiving the message from client has passed."
    );
    assert_eq!(
        QuickTransferError::RemoteClosedConnection(client).message(),
        "Server closed the connection. Turn on QuickTransfer on server computer again."
    );
    assert_eq!(
        QuickTransferError::SentInvalidData(server).message(),
        "Client has sent invalid data. Please try again."
    );
    assert_eq!(
        QuickTransferError::ErrorWhileSendingMessage(client).message(),
        "An error occurred while sending message to the server."
    );
    assert_eq!(
        QuickTransferError::ReadingDirectoryContents.message(),
        "An error occurred while reading current directory contents. Make sure the program has permissions to do so. It is needed for QuickTransfer to work."
    );
    assert_eq!(QuickTransferError::Fatal.message(), "A fatal error has occurred.");
    assert_eq!(
        QuickTransferError::Stdout.message(),
        "A problem with writing to stdout has occurred."
    );
    assert_eq!(
        QuickTransferError::ReadLine { error: "eof".to_string() }.message(),
        "A problem with reading user's input: eof"
    );
    assert_eq!(
        QuickTransferError::OpeningFile { file_path: "f".to_string() }.message(),
        "A problem with opening file `f` has occurred."
    );
    assert_eq!(
        QuickTransferError::ReadingFile { file_path: "f".to_string() }.message(),
        "A problem with reading file `f` has occurred."
    );
    assert_eq!(
        QuickTransferError::WritingFile { file_path: "f".to_string() }.message(),
        "A problem with writing file `f` has occurred."
    );
    assert_eq!(
        QuickTransferError::ServerDoesNotSupportEncryption.message(),
        "Server doesn't support encryption."
    );
    assert_eq!(
        QuickTransferError::Deciphering.message(),
        "An error occurred while deciphering. Make sure that client and server use the same AES256 key."
    );
    assert_eq!(QuickTransferError::Ciphering.message(), "An error occurred while ciphering.");
    assert_eq!(QuickTransferError::Other.message(), "");
}

#[test]
fn options_are_completed_with_defaults() {
    assert_eq!(
        complete_options(true, String::new(), 47842, String::new(), false, 5, None),
        Ok(ProgramOptions {
            program_role: ProgramRole::Server,
            server_ip_address: "::".to_string(),
            port: 47842,
            root_directory: "./".to_string(),
            timeout: 5,
            aes_key: None,
        })
    );
    assert_eq!(
        complete_options(false, "host".to_string(), 1, "/srv".to_string(), true, 9, Some([3; 32])),
        Ok(ProgramOptions {
            program_role: ProgramRole::Client,
            server_ip_address: "host".to_string(),
            port: 1,
            root_directory: "/srv".to_string(),
            timeout: 9,
            aes_key: Some([3; 32]),
        })
    );
}

#[test]
fn options_that_cannot_be_completed() {
    assert_eq!(
        complete_options(false, String::new(), 1, String::new(), true, 5, None),
        Err(OptionsFault::MissingAddress)
    );
    assert_eq!(
        complete_options(false, String::new(), 1, "/nope".to_string(), false, 5, None),
        Err(OptionsFault::MissingAddress)
    );
    assert_eq!(
        complete_options(true, String::new(), 1, "/nope".to_string(), false, 5, None),
        Err(OptionsFault::InvalidRoot)
    );
    assert_eq!(
        OptionsFault::MissingAddress.message(),
        "The server's address must be given in client mode."
    );
    assert_eq!(
        OptionsFault::InvalidRoot.message(),
        "The root directory should be a valid directory."
    );
}

#[test]
fn key_is_the_first_32_bytes_of_the_file() {
    let contents: Vec<u8> = (0..40u8).collect();
    let expected: Vec<u8> = (0..32u8).collect();
    assert_eq!(read_key(&contents).map(|k| k.to_vec()), Some(expected.clone()));
    assert_eq!(read_key(&contents[..32]).map(|k| k.to_vec()), Some(expected));
    assert_eq!(read_key(&contents[..31]), None);
    assert_eq!(read_key(&[]), None);
}

#[test]
fn options_hold_the_configuration() {
    let options = ProgramOptions {
        program_role: ProgramRole::Server,
        server_ip_address: "::".to_string(),
        port: DEFAULT_PORT,
        root_directory: "./".to_string(),
        timeout: DEFAULT_TIMEOUT,
        aes_key: Some([1u8; 32]),
    };
    assert_eq!(options.port, 47842);
    assert_eq!(options.timeout, 5);
    assert_eq!(options.program_role, ProgramRole::Server);
    assert_eq!(options.aes_key, Some([1u8; 32]));
}

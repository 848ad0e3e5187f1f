use tjs_typechecker::command::UNKNOWN_SERVER_PREFIX;
use tjs_typechecker::resolver::{STDIO_FLAG, TJS_SERVER_ID, TJS_SERVER_PATH};
use tjs_typechecker::{CommandDescriptor, TjsTypecheckerExtension, UnknownServerError};

fn tjs_descriptor() -> CommandDescriptor {
    CommandDescriptor {
        command: "/Users/manne/dev/tjs/lang-server".to_string(),
        args: vec!["--stdio".to_string()],
        env: Vec::new(),
    }
}

#[test]
fn tjs_gives_the_fixed_command() {
    let mut ext = TjsTypecheckerExtension::new();
    let cmd = ext.language_server_command("tjs").unwrap();
    assert_eq!(cmd.command, "/Users/manne/dev/tjs/lang-server");
    assert_eq!(cmd.args, vec!["--stdio".to_string()]);
    assert!(cmd.env.is_empty());
}

#[test]
fn tjs_end_to_end() {
    let mut ext = TjsTypecheckerExtension::new();
    assert_eq!(ext.language_server_command("tjs"), Ok(tjs_descriptor()));
}

#[test]
fn constants_match_the_command() {
    assert_eq!(TJS_SERVER_ID, "tjs");
    assert_eq!(TJS_SERVER_PATH, "/Users/manne/dev/tjs/lang-server");
    assert_eq!(STDIO_FLAG, "--stdio");
    assert_eq!(UNKNOWN_SERVER_PREFIX, "unknown language server: ");
}

#[test]
fn other_identifiers_fail_and_name_the_identifier() {
    let mut ext = TjsTypecheckerExtension::new();
    for id in ["rust-analyzer", "", "TJS", "tjs ", " tjs", "tj", "tjss"] {
        let err = ext.language_server_command(id).unwrap_err();
        assert_eq!(err.server_id, id);
        assert!(err.message().contains(id));
        assert_eq!(err.message(), format!("unknown language server: {id}"));
    }
}

#[test]
fn pyright_end_to_end() {
    let mut ext = TjsTypecheckerExtension::new();
    let err = ext.language_server_command("pyright").unwrap_err();
    assert_eq!(err, UnknownServerError::new("pyright"));
    assert!(err.message().contains("pyright"));
    assert_eq!(err.message(), "unknown language server: pyright");
}

#[test]
fn empty_identifier_message() {
    let err = UnknownServerError::new("");
    assert_eq!(err.server_id, "");
    assert_eq!(err.message(), "unknown language server: ");
}

#[test]
fn repeated_requests_give_equal_results() {
    let mut ext = TjsTypecheckerExtension::new();
    for id in ["tjs", "pyright", "", "TJS"] {
        let first = ext.language_server_command(id);
        let second = ext.language_server_command(id);
        assert_eq!(first, second);
    }
    let mut other = TjsTypecheckerExtension::new();
    assert_eq!(
        ext.language_server_command("tjs"),
        other.language_server_command("tjs")
    );
}

#[test]
fn every_identifier_is_answered() {
    let mut ext = TjsTypecheckerExtension::new();
    let long = "x".repeat(10_000);
    let ids = ["tjs", "", "\u{0}", "ü", "日本語", "tjs\n", long.as_str()];
    for id in ids {
        match ext.language_server_command(id) {
            Ok(cmd) => {
                assert_eq!(id, "tjs");
                assert_eq!(cmd, tjs_descriptor());
            }
            Err(err) => {
                assert_ne!(id, "tjs");
                assert_eq!(err.message(), format!("unknown language server: {id}"));
            }
        }
    }
}

#[test]
fn request_leaves_extension_unchanged() {
    let mut ext = TjsTypecheckerExtension::new();
    let before = ext;
    let _ = ext.language_server_command("tjs");
    let _ = ext.language_server_command("other");
    assert_eq!(ext, before);
}

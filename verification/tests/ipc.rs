use gdcef::ipc::{ipc_message_script, ipc_script};

#[test]
fn ipc_script_passes_the_message_as_a_json_string() {
    assert_eq!(
        ipc_script("hello"),
        "if (typeof window.onIpcMessage === 'function') { window.onIpcMessage(\"hello\"); }"
    );
}

#[test]
fn ipc_script_escapes_quotes_backslashes_and_control_characters() {
    assert_eq!(
        ipc_script("say \"hi\"\\\n"),
        "if (typeof window.onIpcMessage === 'function') { window.onIpcMessage(\"say \\\"hi\\\"\\\\\\n\"); }"
    );
    assert_eq!(
        ipc_script("\u{1}"),
        "if (typeof window.onIpcMessage === 'function') { window.onIpcMessage(\"\\u0001\"); }"
    );
}

#[test]
fn ipc_message_script_falls_back_to_the_empty_string() {
    assert_eq!(
        ipc_message_script(None),
        "if (typeof window.onIpcMessage === 'function') { window.onIpcMessage(\"\"); }"
    );
    assert_eq!(
        ipc_message_script(Some("[1,2]".to_string())),
        "if (typeof window.onIpcMessage === 'function') { window.onIpcMessage([1,2]); }"
    );
}

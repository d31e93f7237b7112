use lab_api::naming::{pod_name, webshell_path, webshell_url, DEFAULT_NAMESPACE, RELAY_BUFFER_SIZE};
use lab_api::relay::{
    inbound_step, outbound_step, relay_attach_options, shell_command, ClientFrame, InboundAction,
    OutboundAction,
};

// attach options

#[test]
fn test_attach_params_configuration() {
    let attach_params = relay_attach_options();

    assert!(attach_params.stdin);
    assert!(attach_params.stdout);
    assert!(!attach_params.stderr);
    assert!(attach_params.tty);
}

#[test]
fn test_attach_params_default_container() {
    let attach_params = relay_attach_options();

    // No container named: the workload's first container is used.
    assert!(attach_params.container.is_none());
}

#[test]
fn test_buffer_size_constant() {
    assert!(RELAY_BUFFER_SIZE >= 1024);
    assert!(RELAY_BUFFER_SIZE <= 65536);
}

#[test]
fn test_namespace_constant() {
    assert_eq!(DEFAULT_NAMESPACE, "default");
    assert!(!DEFAULT_NAMESPACE.is_empty());
}

// shell command

#[test]
fn test_shell_command_format() {
    let command = vec!["/bin/bash", "-lc", "exec su - student"];

    assert_eq!(command.len(), 3);
    assert_eq!(command[0], "/bin/bash");
    assert_eq!(command[1], "-lc");
    assert!(command[2].contains("su"));
    assert!(command[2].contains("student"));
}

#[test]
fn test_shell_command_uses_login_shell() {
    let command = vec!["/bin/bash", "-lc", "exec su - student"];

    assert!(command[1].contains('l'));
    assert!(command[1].contains('c'));
}

#[test]
fn relay_runs_bash() {
    assert_eq!(shell_command(), vec!["/bin/bash".to_string()]);
}

// workload names

#[test]
fn test_pod_name_is_valid_kubernetes_name() {
    let pod_name = pod_name("ctf-session", "456756d9-a348-4fce-8659-b70c1e17985b");
    assert_eq!(pod_name, "ctf-session-456756d9-a348-4fce-8659-b70c1e17985b");

    assert!(pod_name
        .chars()
        .all(|c| c.is_ascii_lowercase() || c.is_ascii_digit() || c == '-'));
    assert!(pod_name.chars().next().unwrap().is_ascii_alphanumeric());
    assert!(pod_name.len() <= 63);
}

#[test]
fn test_pod_name_does_not_end_with_hyphen() {
    let pod_name = pod_name("ctf-session", "456756d9-a348-4fce-8659-b70c1e17985b");
    assert!(!pod_name.ends_with('-'));
}

// relay addresses

#[test]
fn test_webshell_route_path() {
    let path = webshell_path("test-pod-123");

    assert_eq!(path, "/spawn/webshell/test-pod-123");
    assert!(path.starts_with("/spawn/webshell/"));
}

#[test]
fn test_webshell_url_with_different_pod_names() {
    let test_cases = vec![
        "ctf-session-abc",
        "ctf-session-123-456-789",
        "ctf-session-a1b2c3d4-e5f6-7890-abcd-ef1234567890",
    ];

    for pod_name in test_cases {
        let url = webshell_url(pod_name);
        assert!(url.contains(pod_name));
        assert!(url.starts_with("ws://"));
        assert_eq!(url, format!("ws://lab-api-service:8080/spawn/webshell/{}", pod_name));
    }
}

// client frames

#[test]
fn test_binary_message_handling() {
    let data = vec![0x68, 0x65, 0x6c, 0x6c, 0x6f]; // "hello"

    if let OutboundAction::Forward(received) = outbound_step(ClientFrame::Binary(data.clone())) {
        assert_eq!(received, data);
        assert_eq!(String::from_utf8(received).unwrap(), "hello");
    } else {
        panic!("Expected Binary message");
    }
}

#[test]
fn test_close_message_stops_processing() {
    assert!(matches!(outbound_step(ClientFrame::Close), OutboundAction::CloseInput));
}

#[test]
fn test_text_messages_are_ignored() {
    let msg = ClientFrame::Text("ignored".to_string());
    assert!(matches!(outbound_step(msg), OutboundAction::Ignore));
}

#[test]
fn control_frames_are_ignored() {
    assert!(matches!(outbound_step(ClientFrame::Ping(vec![1])), OutboundAction::Ignore));
    assert!(matches!(outbound_step(ClientFrame::Pong(vec![])), OutboundAction::Ignore));
}

// shell output

#[test]
fn output_is_sent_exactly_as_read() {
    let mut buf = [0u8; RELAY_BUFFER_SIZE];
    let mut sent: Vec<u8> = Vec::new();
    let output: [&[u8]; 3] = [b"$ ", b"ls\r\n", b"a b c\r\n"];
    for chunk in output {
        buf[..chunk.len()].copy_from_slice(chunk);
        match inbound_step(&buf, Some(chunk.len())) {
            InboundAction::Send(frame) => {
                assert_eq!(frame, chunk.to_vec());
                sent.extend_from_slice(&frame);
            }
            InboundAction::Stop => panic!("stopped early"),
        }
    }
    assert_eq!(sent, b"$ ls\r\na b c\r\n".to_vec());
}

#[test]
fn empty_or_failed_read_ends_output_pump() {
    let buf = [7u8; 16];
    assert!(matches!(inbound_step(&buf, Some(0)), InboundAction::Stop));
    assert!(matches!(inbound_step(&buf, None), InboundAction::Stop));
    match inbound_step(&buf, Some(16)) {
        InboundAction::Send(f) => assert_eq!(f.len(), 16),
        InboundAction::Stop => panic!("full buffer not sent"),
    }
}

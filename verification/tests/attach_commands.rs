use friday::arthas::attach::{
    arthas_properties_content, arthas_properties_content_pod, attach_command, check_user_command,
    find_free_port_command, find_free_port_pod_command, parse_free_port, parse_user_check,
    pod_ip_command, pod_ip_probe_command, port_probe_command, stop_command, validate_pod_ip,
    write_properties_command,
};
use friday::ids::generate_token;

#[test]
fn test_arthas_properties_content() {
    let content = arthas_properties_content(18563, "abc123");
    assert!(content.contains("arthas.config.overrideAll=true\n"));
    assert!(content.contains("arthas.mcpEndpoint=/mcp\n"));
    assert!(content.contains("arthas.telnetPort=-1\n"));
    assert!(content.contains("arthas.httpPort=18563\n"));
    assert!(content.contains("arthas.password=abc123\n"));
    assert!(content.contains("arthas.localConnectionNonAuth=true\n"));
    assert!(content.contains("arthas.ip=127.0.0.1\n"));
    assert!(!content.contains('\''));
    assert!(!content.contains('$'));
}

#[test]
fn test_check_user_command() {
    assert_eq!(check_user_command(123), "ps -o user= -p 123 2>/dev/null; echo '---'; id -un");
}

#[test]
fn test_parse_user_check() {
    let (jvm, ssh) = parse_user_check("svcapp\n---\nopc\n").unwrap();
    assert_eq!(jvm, "svcapp");
    assert_eq!(ssh, "opc");
    let (jvm, ssh) = parse_user_check("  svcapp \n---\n opc \n").unwrap();
    assert_eq!(jvm, "svcapp");
    assert_eq!(ssh, "opc");
}

#[test]
fn test_parse_user_check_pid_gone() {
    assert!(parse_user_check("\n---\nopc\n").is_err());
}

#[test]
fn test_find_free_port_command_and_parse() {
    let cmd = find_free_port_command(18563, 10);
    assert!(cmd.contains("seq 18563 18572"));
    assert_eq!(parse_free_port("18563\n18564\n").unwrap(), (18563, 18564));
    assert!(parse_free_port("none\n").is_err());
    assert!(parse_free_port("18563\nnone\n").is_err());
}

#[test]
fn test_find_free_port_pod_command_shape() {
    let cmd = find_free_port_pod_command("10.244.1.5", 18563, 10);
    assert!(cmd.contains("seq 18563 18572"), "cmd: {cmd}");
    assert!(cmd.contains("bash -c \"exec 3<>/dev/tcp/10.244.1.5/$p\""), "cmd: {cmd}");
    assert!(cmd.contains("timeout 1"), "cmd: {cmd}");
    assert!(cmd.contains("|| echo $p"), "cmd: {cmd}");
    assert!(cmd.contains("head -2"), "cmd: {cmd}");
    assert!(cmd.ends_with("; true"), "cmd: {cmd}");
    assert_eq!(parse_free_port("18564\n18565").unwrap(), (18564, 18565));
}

#[test]
fn test_port_probe_command() {
    assert!(port_probe_command(8563).contains("/dev/tcp/127.0.0.1/8563"));
}

#[test]
fn test_attach_command() {
    let cmd = attach_command(
        "/tmp/friday-tools/jdk-21/bin/java",
        "/tmp/friday-tools/arthas-4.3.5",
        18563,
        19563,
        123,
    );
    assert!(cmd.contains("cd /tmp/friday-tools/arthas-4.3.5"));
    assert!(cmd.contains("--attach-only"));
    assert!(cmd.contains("--http-port 18563"));
    assert!(cmd.contains("--telnet-port 19563"));
    assert!(cmd.contains("arthas-boot.jar --attach-only --http-port 18563 --telnet-port 19563 123"));
    assert!(!cmd.contains("--pid"));
    assert!(cmd.contains("< /dev/null"));
    assert!(cmd.contains("&"));
    assert!(cmd.contains(">> /tmp/arthas-friday-123.log 2>&1"));
}

#[test]
fn test_write_properties_command_quotes_content() {
    let content = arthas_properties_content(18563, "tok123");
    let cmd = write_properties_command("/tmp/friday-tools/arthas-4.3.5", &content);
    assert!(cmd.starts_with("printf '%s' 'arthas."));
    assert!(cmd.contains("> /tmp/friday-tools/arthas-4.3.5/arthas.properties"));
    assert!(cmd.contains("chmod 644 /tmp/friday-tools/arthas-4.3.5/arthas.properties"));
}

#[test]
fn test_stop_command_contains_auth_and_payload() {
    let cmd = stop_command(18563, "tok123");
    assert!(cmd.contains("Authorization: Bearer tok123"));
    assert!(cmd.contains("http://127.0.0.1:18563/api"));
    assert!(cmd.contains("\"command\":\"stop\""));
}

#[test]
fn test_generate_token_charset() {
    for _ in 0..10 {
        let t = generate_token();
        assert_eq!(t.len(), 32);
        assert!(t.chars().all(|c| c.is_ascii_alphanumeric()));
    }
}

#[test]
fn test_pod_ip_command_shape() {
    let cmd = pod_ip_command("svc-abc");
    assert!(cmd.contains("kubectl get pod 'svc-abc'"), "cmd: {cmd}");
    assert!(cmd.contains("jsonpath='{.status.podIP}'"), "cmd: {cmd}");
    let evil = pod_ip_command("x'; rm -rf /; '");
    assert!(evil.contains(r"'\''"), "must escape quotes: {evil}");
}

#[test]
fn test_pod_ip_probe_command_shape() {
    let cmd = pod_ip_probe_command("10.244.1.5", 18563);
    assert!(cmd.contains("timeout 1"), "cmd: {cmd}");
    assert!(cmd.contains("/dev/tcp/10.244.1.5/18563"), "cmd: {cmd}");
    assert!(cmd.contains("busy"), "cmd: {cmd}");
    assert!(cmd.contains("free"), "cmd: {cmd}");
}

#[test]
fn test_validate_pod_ip() {
    assert!(validate_pod_ip("10.244.1.5").is_ok());
    assert!(validate_pod_ip("fd00::1").is_ok());
    assert!(validate_pod_ip("garbage").is_err());
    assert!(validate_pod_ip("10.244.1.5; rm -rf /").is_err());
    assert!(validate_pod_ip("127.0.0.1/24").is_err());
    assert!(validate_pod_ip("").is_err());
}

#[test]
fn test_arthas_properties_content_pod_binds_wildcard() {
    let content = arthas_properties_content_pod(18563, "abc123");
    assert!(content.contains("arthas.ip=0.0.0.0\n"));
    assert!(content.contains("arthas.config.overrideAll=true\n"));
    assert!(content.contains("arthas.mcpEndpoint=/mcp\n"));
    assert!(content.contains("arthas.telnetPort=-1\n"));
    assert!(content.contains("arthas.httpPort=18563\n"));
    assert!(content.contains("arthas.password=abc123\n"));
    assert!(content.contains("arthas.localConnectionNonAuth=true\n"));
    assert!(!content.contains('\''));
    assert!(!content.contains('$'));
    assert!(arthas_properties_content(18563, "abc123").contains("arthas.ip=127.0.0.1\n"));
}

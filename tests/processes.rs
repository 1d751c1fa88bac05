use codex_switcher::process::{
    add_pgrep_pids, add_ps_pids, add_tasklist_pids, check_codex_processes, is_client_command_exec,
    parse_u32,
};

#[test]
fn summary_of_running_clients() {
    let none = check_codex_processes(vec![]);
    assert_eq!(none.count, 0);
    assert!(none.can_switch);
    let some = check_codex_processes(vec![4, 9]);
    assert_eq!(some.count, 2);
    assert!(!some.can_switch);
    assert_eq!(some.pids, vec![4, 9]);
}

#[test]
fn numbers_parse_like_std() {
    for s in ["0", "42", "+7", "4294967295", "", "+", "-1", "4294967296", "12a", " 1", "007"] {
        assert_eq!(parse_u32(s.as_bytes()), s.parse::<u32>().ok(), "{s:?}");
    }
}

#[test]
fn pgrep_lines() {
    let mut pids = Vec::new();
    add_pgrep_pids("101\n  202 \r\n77\nnot\n\n303", 77, &mut pids);
    assert_eq!(pids, vec![101, 202, 303]);
}

#[test]
fn command_names() {
    for (cmd, expected) in [
        ("codex", true),
        ("/usr/local/bin/codex", true),
        ("codex exec", true),
        ("codexx", false),
        ("brew", false),
        ("codex-switcher", false),
        ("/Applications/Codex Switcher.app/codex", false),
        ("node /x/codex-switcher/codex", false),
        ("", false),
    ] {
        assert_eq!(is_client_command_exec(cmd.as_bytes()), expected, "{cmd:?}");
    }
}

#[test]
fn ps_listing() {
    let out = "  PID COMM\n  11 codex\n  12 /opt/bin/codex\n 13 brew upgrade codex\n 14 codex\n  11 codex\n 15 codex-switcher\n 16   codex   run\n x codex\n";
    let mut pids = vec![14];
    add_ps_pids(out, 12, &mut pids);
    assert_eq!(pids, vec![14, 11, 16]);
    let mut empty = Vec::new();
    add_ps_pids("", 1, &mut empty);
    add_ps_pids("PID COMM\n", 1, &mut empty);
    assert!(empty.is_empty());
}

#[test]
fn tasklist_listing() {
    let out = "\"codex.exe\",\"4321\",\"Console\",\"1\",\"10,000 K\"\r\n\"Codex.EXE\",\"99\",\"Console\"\r\n\"codex-switcher.exe\",\"5\"\r\n\"codex.exe\",\"7\"\r\nINFO: nothing\r\n";
    let mut pids = Vec::new();
    add_tasklist_pids(out, 7, &mut pids);
    assert_eq!(pids, vec![4321, 99]);
}

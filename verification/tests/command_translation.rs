use hygg::command_translation::{translate_command_for_windows, ParsedCommand};

#[test]
fn test_ls_translation() {
    assert_eq!(translate_command_for_windows("ls"), "Get-ChildItem | Select-Object -ExpandProperty Name");
    assert_eq!(translate_command_for_windows("ls -la"), "Get-ChildItem -Force | Format-Table Mode, LastWriteTime, Length, Name");
    assert_eq!(translate_command_for_windows("ls -l /tmp"), "Get-ChildItem -Path /tmp | Format-Table Mode, LastWriteTime, Length, Name");
    assert_eq!(translate_command_for_windows("ls /tmp"), "Get-ChildItem -Path /tmp | Select-Object -ExpandProperty Name");
    assert_eq!(translate_command_for_windows("ls -a"), "Get-ChildItem -Force | Select-Object -ExpandProperty Name");
}

#[test]
fn test_cat_translation() {
    assert_eq!(translate_command_for_windows("cat file.txt"), "Get-Content file.txt");
    assert_eq!(translate_command_for_windows("cat -n file.txt"), "Get-Content file.txt | Select-Object @{Name='LineNumber';Expression={$_.ReadCount}}, @{Name='Line';Expression={$_}}");
}

#[test]
fn test_grep_translation() {
    assert_eq!(translate_command_for_windows("grep pattern file.txt"), "Select-String -Pattern \"pattern\" -Path \"file.txt\"");
    assert_eq!(translate_command_for_windows("grep -i pattern file.txt"), "Select-String -Pattern \"pattern\" -Path \"file.txt\" -CaseSensitive:$false");
    assert_eq!(translate_command_for_windows("grep -n pattern file.txt"), "Select-String -Pattern \"pattern\" -Path \"file.txt\" | Format-Table LineNumber, Line");
}

#[test]
fn grep_needs_pattern_and_file() {
    assert_eq!(translate_command_for_windows("grep pattern"), "Select-String");
    assert_eq!(translate_command_for_windows("grep -v a b"), "Select-String -Pattern \"a\" -Path \"b\" -NotMatch");
}

#[test]
fn head_and_tail_translation() {
    assert_eq!(translate_command_for_windows("head file.txt"), "Get-Content file.txt -First 10");
    assert_eq!(translate_command_for_windows("head -n5 file.txt"), "Get-Content file.txt -First 5");
    assert_eq!(translate_command_for_windows("tail -n20 log"), "Get-Content log -Tail 20");
    assert_eq!(translate_command_for_windows("tail -nx log"), "Get-Content log -Tail 10");
    assert_eq!(translate_command_for_windows("head -n 7 file"), "Get-Content file -First 7");
    assert_eq!(translate_command_for_windows("head -n 5 file.txt"), "Get-Content file.txt -First 5");
    assert_eq!(translate_command_for_windows("tail -n 2 log"), "Get-Content log -Tail 2");
    assert_eq!(translate_command_for_windows("head -n3 a.txt"), "Get-Content a.txt -First 3");
    assert_eq!(translate_command_for_windows("head -n +3 file"), "Get-Content file -First 3");
    assert_eq!(translate_command_for_windows("head -n x file"), "Get-Content file -First 10");
    assert_eq!(translate_command_for_windows("head -n file"), "Get-Content file -First 10");
}

#[test]
fn other_commands_unchanged() {
    assert_eq!(translate_command_for_windows("pwd"), "Get-Location");
    assert_eq!(translate_command_for_windows("echo hi"), "echo hi");
    assert_eq!(translate_command_for_windows("   "), "   ");
    assert_eq!(translate_command_for_windows("ls  -a   x y"), "Get-ChildItem -Path x, y -Force | Select-Object -ExpandProperty Name");
}

#[test]
fn parse_sorts_flags_and_args() {
    let p = ParsedCommand::parse("  grep -i  pat -n file ").unwrap();
    assert_eq!(p.command, "grep");
    assert_eq!(p.flags, vec!["-i".to_string(), "-n".to_string()]);
    assert_eq!(p.args, vec!["pat".to_string(), "file".to_string()]);
    assert!(ParsedCommand::parse(" \t ").is_none());
}

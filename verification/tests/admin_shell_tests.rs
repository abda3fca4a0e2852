use rustion::admin_shell::{admin_command, command_list, flush_message, shell_step, AdminCommand, PromptSignal, ShellStep};

#[test]
fn admin_commands() {
    assert_eq!(admin_command("  manage "), Some(AdminCommand::Manage));
    assert_eq!(admin_command("database"), Some(AdminCommand::Database));
    assert_eq!(admin_command("exit"), Some(AdminCommand::Quit));
    assert_eq!(admin_command("quit\t"), Some(AdminCommand::Quit));
    assert_eq!(admin_command("flush_privileges"), Some(AdminCommand::FlushPrivileges));
    assert_eq!(admin_command("help"), Some(AdminCommand::Unknown));
    assert_eq!(admin_command("   "), None);
    assert_eq!(command_list(), vec!["database", "manage", "flush_privileges", "help", "exit"]);
}

#[test]
fn admin_shell_steps() {
    assert!(matches!(shell_step(PromptSignal::Line(" ".to_string())), ShellStep::Continue));
    assert!(matches!(shell_step(PromptSignal::Line("quit".to_string())), ShellStep::Terminate(0)));
    assert!(matches!(shell_step(PromptSignal::Line("manage".to_string())), ShellStep::Run(AdminCommand::Manage)));
    match shell_step(PromptSignal::Line(" ls -l".to_string())) {
        ShellStep::Say(s) => assert_eq!(s, "Unknown command:  ls -l"),
        _ => panic!("expected a message"),
    }
    assert!(matches!(shell_step(PromptSignal::CtrlC), ShellStep::Continue));
    assert!(matches!(shell_step(PromptSignal::CtrlD), ShellStep::Terminate(0)));
    assert!(matches!(shell_step(PromptSignal::Failed), ShellStep::Terminate(1)));
    assert_eq!(flush_message(Ok(())), "flushed successfully");
    assert_eq!(flush_message(Err("locked".to_string())), "flush previleges error: locked");
}

//! The system service: the unit file that describes the agent, and what a
//! service command needs before it runs.

use crate::text;
use vstd::prelude::*;

verus! {

/// The text of the unit file for an agent at `exe_path` that reads its
/// configuration from `config_path` and runs in `working_dir`.
pub open spec fn unit_text(working_dir: Seq<char>, config_path: Seq<char>, exe_path: Seq<char>)
    -> Seq<char> {
    "[Unit]\nDescription=Aether Proxy\nAfter=network.target\n\n[Service]\nType=simple\nWorkingDirectory="@
        + working_dir + "\nEnvironment=AETHER_PROXY_CONFIG="@ + config_path + "\nExecStart="@
        + exe_path
        + "\nRestart=on-failure\nRestartSec=5\nLimitNOFILE=65535\nUMask=0077\n\n[Install]\nWantedBy=multi-user.target\n"@
}

pub fn unit_file(working_dir: &str, config_path: &str, exe_path: &str) -> (unit: String)
    ensures
        unit@ == unit_text(working_dir@, config_path@, exe_path@),
{
    let mut unit = String::from_str(
        "[Unit]\nDescription=Aether Proxy\nAfter=network.target\n\n[Service]\nType=simple\nWorkingDirectory=",
    );
    unit.append(working_dir);
    unit.append("\nEnvironment=AETHER_PROXY_CONFIG=");
    unit.append(config_path);
    unit.append("\nExecStart=");
    unit.append(exe_path);
    unit.append(
        "\nRestart=on-failure\nRestartSec=5\nLimitNOFILE=65535\nUMask=0077\n\n[Install]\nWantedBy=multi-user.target\n",
    );
    unit
}

/// Whether a service can be installed: the service manager is there and
/// the user is root.
pub fn can_install(manager_present: bool, is_root: bool) -> (r: bool)
    ensures
        r == (manager_present && is_root),
{
    manager_present && is_root
}

/// Whether installation may start; else the reason why not. The service
/// manager is asked for first.
pub fn install_precheck(manager_present: bool, is_root: bool) -> (r: Result<(), String>)
    ensures
        !manager_present ==> r is Err && r->Err_0@ == "systemd not available"@,
        manager_present && !is_root ==> r is Err && r->Err_0@
            == "root required, use: sudo ./aether-proxy setup"@,
        manager_present && is_root ==> r is Ok,
{
    if !manager_present {
        Err(String::from_str("systemd not available"))
    } else if !is_root {
        Err(String::from_str("root required, use: sudo ./aether-proxy setup"))
    } else {
        Ok(())
    }
}

/// Whether a command that only reads the service may run: the service has
/// to be installed.
pub fn ensure_service_installed(installed: bool) -> (r: Result<(), String>)
    ensures
        installed ==> r is Ok,
        !installed ==> r is Err && r->Err_0@
            == "service not installed, run `sudo ./aether-proxy setup` first"@,
{
    if installed {
        Ok(())
    } else {
        Err(String::from_str("service not installed, run `sudo ./aether-proxy setup` first"))
    }
}

/// Whether a command that changes the service may run: the service has to
/// be installed, and the user has to be root.
pub fn ensure_root_and_service(installed: bool, is_root: bool) -> (r: Result<(), String>)
    ensures
        !installed ==> r is Err && r->Err_0@
            == "service not installed, run `sudo ./aether-proxy setup` first"@,
        installed && !is_root ==> r is Err && r->Err_0@
            == "root required, use: sudo ./aether-proxy <command>"@,
        installed && is_root ==> r is Ok,
{
    match ensure_service_installed(installed) {
        Err(e) => Err(e),
        Ok(_) => if is_root {
            Ok(())
        } else {
            Err(String::from_str("root required, use: sudo ./aether-proxy <command>"))
        },
    }
}

/// The command line as the log shows it: the program and its arguments
/// with spaces between them.
pub open spec fn command_text(program: Seq<char>, args: Seq<String>) -> Seq<char>
    decreases args.len(),
{
    if args.len() == 0 {
        program + seq![' ']
    } else if args.len() == 1 {
        program + seq![' '] + args[0]@
    } else {
        command_text(program, args.drop_last()) + seq![' '] + args.last()@
    }
}

pub fn command_line(program: &str, args: &Vec<String>) -> (line: String)
    ensures
        line@ == command_text(program@, args@),
{
    let mut line = String::from_str(program);
    text::push_char(&mut line, ' ');
    let mut i: usize = 0;
    assert(args@.take(0).len() == 0);
    while i < args.len()
        invariant
            i <= args@.len(),
            line@ == command_text(program@, args@.take(i as int)),
        decreases args@.len() - i,
    {
        let ghost upto = args@.take(i + 1);
        assert(upto.drop_last() =~= args@.take(i as int));
        assert(upto.last() == args@[i as int]);
        if i > 0 {
            text::push_char(&mut line, ' ');
        } else {
            assert(upto[0] == args@[0]);
        }
        line.append(args[i].as_str());
        assert(line@ =~= command_text(program@, upto));
        i += 1;
    }
    assert(args@.take(i as int) =~= args@);
    line
}

} // verus!

//! The unit file that registers the service with the supervisor.

use vstd::prelude::*;
use crate::manifest::InstallationTarget;
use crate::text::{optional_view, owned, push_text, string_of};

verus! {

/// The unit file of a service: its description, the user and group it runs
/// as, its working directory and its binary, with a restart on failure and
/// a check before each start that the binary can be executed.
pub open spec fn unit_text(
    description: Seq<char>,
    user: Seq<char>,
    directory: Seq<char>,
    binary: Seq<char>,
) -> Seq<char> {
    "[Unit]\nDescription="@ + description
        + "\nWants=network-online.target\nAfter=network-online.target\n\n[Service]\nUser="@ + user
        + "\nGroup="@ + user + "\nWorkingDirectory="@ + directory + "\nExecStart="@ + binary
        + "\nExecStartPre=/usr/bin/test -x "@ + binary
        + "\nRestart=on-failure\nRestartSec=1\nProtectHome=no\n\n[Install]\nWantedBy=multi-user.target\n"@
}

/// The directory a service works in: the one given, the root directory
/// where none is.
pub open spec fn working_directory(directory: Option<Seq<char>>) -> Seq<char> {
    match directory {
        Some(d) => d,
        None => "/"@,
    }
}

/// The user a service runs as. For a root process it is the user who
/// called the privilege helper, `root` where that user is unknown or empty;
/// for any other process the user it runs as, `user` where that is
/// unknown.
pub open spec fn service_user(
    is_root: bool,
    caller: Option<Seq<char>>,
    user: Option<Seq<char>>,
) -> Seq<char> {
    if is_root {
        match caller {
            Some(name) => if name.len() > 0 {
                name
            } else {
                "root"@
            },
            None => "root"@,
        }
    } else {
        match user {
            Some(name) => name,
            None => "user"@,
        }
    }
}

/// The user a service runs as. `caller` is the user who called the
/// privilege helper and `user` the one the process runs as, each `None`
/// where it is unknown.
pub fn installing_user(is_root: bool, caller: Option<&str>, user: Option<&str>) -> (out: String)
    ensures
        out@ == service_user(is_root, optional_view(caller), optional_view(user)),
{
    if is_root {
        match caller {
            Some(name) => {
                let copy = owned(name);
                if copy.as_str().unicode_len() > 0 {
                    copy
                } else {
                    owned("root")
                }
            },
            None => owned("root"),
        }
    } else {
        match user {
            Some(name) => owned(name),
            None => owned("user"),
        }
    }
}

/// The unit file of `target`'s service, run as `user` in `directory`; in
/// the root directory where `directory` is `None`.
pub fn render_unit(target: &InstallationTarget, user: &str, directory: Option<&str>) -> (out:
    String)
    ensures
        out@ == unit_text(
            target@.description,
            user@,
            working_directory(optional_view(directory)),
            target@.installed_binary,
        ),
{
    let mut text: Vec<char> = Vec::new();
    assert(text@ + "[Unit]\nDescription="@ == "[Unit]\nDescription="@);
    push_text(&mut text, "[Unit]\nDescription=");
    push_text(&mut text, target.description.as_str());
    push_text(
        &mut text,
        "\nWants=network-online.target\nAfter=network-online.target\n\n[Service]\nUser=",
    );
    push_text(&mut text, user);
    push_text(&mut text, "\nGroup=");
    push_text(&mut text, user);
    push_text(&mut text, "\nWorkingDirectory=");
    match directory {
        Some(d) => push_text(&mut text, d),
        None => push_text(&mut text, "/"),
    }
    push_text(&mut text, "\nExecStart=");
    push_text(&mut text, target.installed_binary.as_str());
    push_text(&mut text, "\nExecStartPre=/usr/bin/test -x ");
    push_text(&mut text, target.installed_binary.as_str());
    push_text(
        &mut text,
        "\nRestart=on-failure\nRestartSec=1\nProtectHome=no\n\n[Install]\nWantedBy=multi-user.target\n",
    );
    string_of(text.as_slice())
}

} // verus!

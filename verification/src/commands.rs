use vstd::prelude::*;
use vstd::string::*;
use crate::error::{Error, Stage};
use crate::names::image_reference;

verus! {

/// The in-guest command that tests whether `file` exists.
pub open spec fn probe_text(file: Seq<char>) -> Seq<char> {
    "/usr/bin/test -e "@ + file
}

/// The in-guest command that creates the account `user` with a home
/// directory, with the login `shell` where one is given.
pub open spec fn useradd_text(shell: Option<Seq<char>>, user: Seq<char>) -> Seq<char> {
    match shell {
        Some(path) => "/usr/sbin/useradd -s "@ + path + " -m "@ + user,
        None => "/usr/sbin/useradd -m "@ + user,
    }
}

/// The in-guest command that deletes the account `user` and its home
/// directory.
pub open spec fn userdel_text(user: Seq<char>) -> Seq<char> {
    "/usr/sbin/userdel --remove "@ + user
}

/// The in-guest command that sets the password of `user`.
pub open spec fn chpasswd_text(user: Seq<char>, password: Seq<char>) -> Seq<char> {
    "echo "@ + user + ":"@ + password + " | /usr/sbin/chpasswd"@
}

/// The in-guest command that adds `user` to `group` if the guest has such a
/// group, and fails without changing anything if it has none.
pub open spec fn join_group_text(group: Seq<char>, user: Seq<char>) -> Seq<char> {
    "getent group "@ + group + " > /dev/null && /usr/sbin/usermod -aG "@ + group + " "@ + user
}

pub fn probe_command(file: &str) -> (out: String)
    ensures
        out@ == probe_text(file@),
{
    let mut out = String::from_str("/usr/bin/test -e ");
    out.append(file);
    out
}

pub fn useradd_command(shell: Option<&str>, user: &str) -> (out: String)
    ensures
        out@ == useradd_text(
            match shell {
                Some(path) => Some(path@),
                None => None,
            },
            user@,
        ),
{
    match shell {
        Some(path) => {
            let mut out = String::from_str("/usr/sbin/useradd -s ");
            out.append(path);
            out.append(" -m ");
            out.append(user);
            out
        },
        None => {
            let mut out = String::from_str("/usr/sbin/useradd -m ");
            out.append(user);
            out
        },
    }
}

pub fn userdel_command(user: &str) -> (out: String)
    ensures
        out@ == userdel_text(user@),
{
    let mut out = String::from_str("/usr/sbin/userdel --remove ");
    out.append(user);
    out
}

pub fn chpasswd_command(user: &str, password: &str) -> (out: String)
    ensures
        out@ == chpasswd_text(user@, password@),
{
    let mut out = String::from_str("echo ");
    out.append(user);
    out.append(":");
    out.append(password);
    out.append(" | /usr/sbin/chpasswd");
    out
}

pub fn join_group_command(group: &str, user: &str) -> (out: String)
    ensures
        out@ == join_group_text(group@, user@),
{
    let mut out = String::from_str("getent group ");
    out.append(group);
    out.append(" > /dev/null && /usr/sbin/usermod -aG ");
    out.append(group);
    out.append(" ");
    out.append(user);
    out
}

/// What a run of a helper program comes to: a program that could not be
/// started or that exited with failure fails its stage.
pub fn tool_result(stage: Stage, success: bool) -> (r: Result<(), Error>)
    ensures
        r == if success {
            Ok::<(), Error>(())
        } else {
            Err::<(), Error>(Error::ExternalTool { stage })
        },
{
    if success {
        Ok(())
    } else {
        Err(Error::ExternalTool { stage })
    }
}

/// The views of the strings of `args`, in order.
pub open spec fn texts(args: Seq<String>) -> Seq<Seq<char>> {
    args.map_values(|a: String| a@)
}

/// Arguments of the image tool for `verb` (`pull`, `create`) on an image.
pub fn image_args(verb: &str, name: &str, tag: &str) -> (args: Vec<String>)
    ensures
        texts(args@) == seq![verb@, name@ + seq![':'] + tag@],
{
    let mut args: Vec<String> = Vec::new();
    args.push(verb.to_owned());
    args.push(image_reference(name, tag));
    assert(texts(args@) =~= seq![verb@, name@ + seq![':'] + tag@]);
    args
}

/// Arguments of the image tool for `verb` (`export`, `rm`) on a container.
pub fn container_args(verb: &str, instance_id: &str) -> (args: Vec<String>)
    ensures
        texts(args@) == seq![verb@, instance_id@],
{
    let mut args: Vec<String> = Vec::new();
    args.push(verb.to_owned());
    args.push(instance_id.to_owned());
    assert(texts(args@) =~= seq![verb@, instance_id@]);
    args
}

/// Arguments of the host tool that import a tarball as the distribution
/// `name` with its data under `data_dir`, in the current format version.
pub fn import_args(name: &str, data_dir: &str, tarball: &str) -> (args: Vec<String>)
    ensures
        texts(args@) == seq!["--import"@, name@, data_dir@, tarball@, "--version"@, "2"@],
{
    let mut args: Vec<String> = Vec::new();
    args.push("--import".to_owned());
    args.push(name.to_owned());
    args.push(data_dir.to_owned());
    args.push(tarball.to_owned());
    args.push("--version".to_owned());
    args.push("2".to_owned());
    assert(texts(args@) =~= seq![
        "--import"@,
        name@,
        data_dir@,
        tarball@,
        "--version"@,
        "2"@,
    ]);
    args
}

/// Arguments of the host tool that print the numeric id of `user` in the
/// distribution `distro`.
pub fn query_uid_args(distro: &str, user: &str) -> (args: Vec<String>)
    ensures
        texts(args@) == seq!["-d"@, distro@, "--"@, "/usr/bin/id"@, "-u"@, user@],
{
    let mut args: Vec<String> = Vec::new();
    args.push("-d".to_owned());
    args.push(distro.to_owned());
    args.push("--".to_owned());
    args.push("/usr/bin/id".to_owned());
    args.push("-u".to_owned());
    args.push(user.to_owned());
    assert(texts(args@) =~= seq!["-d"@, distro@, "--"@, "/usr/bin/id"@, "-u"@, user@]);
    args
}

/// Arguments of the host tool that list the installed distributions.
pub fn list_args() -> (args: Vec<String>)
    ensures
        texts(args@) == seq!["--list"@, "--quiet"@],
{
    let mut args: Vec<String> = Vec::new();
    args.push("--list".to_owned());
    args.push("--quiet".to_owned());
    assert(texts(args@) =~= seq!["--list"@, "--quiet"@]);
    args
}

} // verus!

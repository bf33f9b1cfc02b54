//! External programs that the hub runs, described as plain values.
use vstd::prelude::*;

verus! {

/// A program and its arguments.
pub struct ShellCommand {
    pub program: String,
    pub args: Vec<String>,
}

/// A `ShellCommand` as plain values.
pub struct CommandModel {
    pub program: Seq<char>,
    pub args: Seq<Seq<char>>,
}

impl View for ShellCommand {
    type V = CommandModel;

    open spec fn view(&self) -> CommandModel {
        CommandModel { program: self.program@, args: self.args.deep_view() }
    }
}

/// The phone's address for `adb -s`.
pub open spec fn phone_serial() -> Seq<char> {
    "192.168.1.50:5555"@
}

/// The phone's folder that receives files.
pub open spec fn phone_inbox() -> Seq<char> {
    "/sdcard/Download/NexusTUI/"@
}

/// `adb` run against the phone with `rest` as its further arguments.
pub open spec fn adb_on_phone(rest: Seq<Seq<char>>) -> CommandModel {
    CommandModel { program: "adb"@, args: seq!["-s"@, phone_serial()] + rest }
}

/// Appends `s` to the argument list.
pub fn push_arg(args: &mut Vec<String>, s: &str)
    ensures
        final(args).deep_view() == old(args).deep_view().push(s@),
{
    args.push(String::from_str(s));
    assert(args.deep_view() =~= old(args).deep_view().push(s@));
}

/// An argument list that starts with `-s` and the phone's address.
pub fn phone_args() -> (args: Vec<String>)
    ensures
        args.deep_view() == seq!["-s"@, phone_serial()],
{
    let mut args: Vec<String> = Vec::new();
    push_arg(&mut args, "-s");
    push_arg(&mut args, "192.168.1.50:5555");
    args
}

} // verus!
